//! The fixed 33-byte envelope that prefixes every protocol message:
//! command codes, header flags, and the header codec itself.

use vstd::prelude::*;

verus! {

/// The fixed magic constant that opens every well-formed header.
pub const LEVIN_SIGNATURE: u64 = 0x0101010101012101;

/// The single protocol version this codec accepts.
pub const PROTOCOL_VERSION: u32 = 1;

/// Why a header failed to decode; each variant carries the offending
/// value for diagnostics.
#[derive(Debug, Clone, Copy, PartialEq, Eq, Structural)]
pub enum BucketError {
    /// The command integer is not in the closed command table.
    UnsupportedP2pCommand(u32),
    /// The flags integer has bits set outside the four defined flags.
    UnknownFlags(u32),
    /// The signature field does not equal `LEVIN_SIGNATURE`.
    IncorrectSignature(u64),
    /// The version field does not equal `PROTOCOL_VERSION`.
    UnknownProtocolVersion(u32),
    /// The return code is negative: the peer reported an error.
    RemoteError(i32),
    /// The byte source was exhausted before all 33 bytes were read.
    IO,
}

/// Closed enumeration of the known message command codes.
#[derive(Debug, Clone, Copy, PartialEq, Eq, Structural)]
pub enum P2pCommand {
    Handshake,
    TimedSync,
    Ping,
    RequestSupportFlags,

    NotifyNewBlock,
    NotifyNewTransactions,
    NotifyRequestGetObject,
    NotifyResponseGetObject,
    NotifyRequestChain,
    NotifyResponseChainEntry,
    NotifyNewFluffyBlock,
    NotifyRequestFluffyMissingTx,
    NotifyGetTxPoolComplement,
}

/// The wire integer of each command; total over the closed set.
pub open spec fn command_code(c: P2pCommand) -> u32 {
    match c {
        P2pCommand::Handshake => 1001,
        P2pCommand::TimedSync => 1002,
        P2pCommand::Ping => 1003,
        P2pCommand::RequestSupportFlags => 1007,

        P2pCommand::NotifyNewBlock => 2001,
        P2pCommand::NotifyNewTransactions => 2002,
        P2pCommand::NotifyRequestGetObject => 2003,
        P2pCommand::NotifyResponseGetObject => 2004,
        P2pCommand::NotifyRequestChain => 2006,
        P2pCommand::NotifyResponseChainEntry => 2007,
        P2pCommand::NotifyNewFluffyBlock => 2008,
        P2pCommand::NotifyRequestFluffyMissingTx => 2009,
        P2pCommand::NotifyGetTxPoolComplement => 2010,
    }
}

/// The command a wire integer stands for; partial, `None` outside the
/// closed table.
pub open spec fn command_of_code(value: u32) -> Option<P2pCommand> {
    if value == 1001 {
        Some(P2pCommand::Handshake)
    } else if value == 1002 {
        Some(P2pCommand::TimedSync)
    } else if value == 1003 {
        Some(P2pCommand::Ping)
    } else if value == 1007 {
        Some(P2pCommand::RequestSupportFlags)
    } else if value == 2001 {
        Some(P2pCommand::NotifyNewBlock)
    } else if value == 2002 {
        Some(P2pCommand::NotifyNewTransactions)
    } else if value == 2003 {
        Some(P2pCommand::NotifyRequestGetObject)
    } else if value == 2004 {
        Some(P2pCommand::NotifyResponseGetObject)
    } else if value == 2006 {
        Some(P2pCommand::NotifyRequestChain)
    } else if value == 2007 {
        Some(P2pCommand::NotifyResponseChainEntry)
    } else if value == 2008 {
        Some(P2pCommand::NotifyNewFluffyBlock)
    } else if value == 2009 {
        Some(P2pCommand::NotifyRequestFluffyMissingTx)
    } else if value == 2010 {
        Some(P2pCommand::NotifyGetTxPoolComplement)
    } else {
        None
    }
}

impl P2pCommand {
    /// The wire integer of this command.
    pub fn to_u32(self) -> (r: u32)
        ensures
            r == command_code(self),
    {
        match self {
            P2pCommand::Handshake => 1001,
            P2pCommand::TimedSync => 1002,
            P2pCommand::Ping => 1003,
            P2pCommand::RequestSupportFlags => 1007,

            P2pCommand::NotifyNewBlock => 2001,
            P2pCommand::NotifyNewTransactions => 2002,
            P2pCommand::NotifyRequestGetObject => 2003,
            P2pCommand::NotifyResponseGetObject => 2004,
            P2pCommand::NotifyRequestChain => 2006,
            P2pCommand::NotifyResponseChainEntry => 2007,
            P2pCommand::NotifyNewFluffyBlock => 2008,
            P2pCommand::NotifyRequestFluffyMissingTx => 2009,
            P2pCommand::NotifyGetTxPoolComplement => 2010,
        }
    }

    /// Decode a wire integer; fails on any integer outside the closed
    /// table, carrying that integer.
    pub fn from_u32(value: u32) -> (r: Result<P2pCommand, BucketError>)
        ensures
            r == (match command_of_code(value) {
                Some(c) => Ok::<P2pCommand, BucketError>(c),
                None => Err::<P2pCommand, BucketError>(
                    BucketError::UnsupportedP2pCommand(value),
                ),
            }),
    {
        match value {
            1001 => Ok(P2pCommand::Handshake),
            1002 => Ok(P2pCommand::TimedSync),
            1003 => Ok(P2pCommand::Ping),
            1007 => Ok(P2pCommand::RequestSupportFlags),

            2001 => Ok(P2pCommand::NotifyNewBlock),
            2002 => Ok(P2pCommand::NotifyNewTransactions),
            2003 => Ok(P2pCommand::NotifyRequestGetObject),
            2004 => Ok(P2pCommand::NotifyResponseGetObject),
            2006 => Ok(P2pCommand::NotifyRequestChain),
            2007 => Ok(P2pCommand::NotifyResponseChainEntry),
            2008 => Ok(P2pCommand::NotifyNewFluffyBlock),
            2009 => Ok(P2pCommand::NotifyRequestFluffyMissingTx),
            2010 => Ok(P2pCommand::NotifyGetTxPoolComplement),

            _ => Err(BucketError::UnsupportedP2pCommand(value)),
        }
    }
}

/// Every command decodes back from its own code, and every integer the
/// table admits re-encodes to itself: the table is a bijection between
/// the commands and their codes.
pub proof fn lemma_command_code_round_trip(c: P2pCommand, value: u32)
    ensures
        command_of_code(command_code(c)) == Some(c),
        command_of_code(value) is Some ==> command_code(
            command_of_code(value)->Some_0,
        ) == value,
{
}

/// Bit marking a message as a request.
pub const REQUEST: u32 = 1;

/// Bit marking a message as a response.
pub const RESPONSE: u32 = 2;

/// Bit marking the first frame of a fragmented message.
pub const START_FRAGMENT: u32 = 4;

/// Bit marking the last frame of a fragmented message.
pub const END_FRAGMENT: u32 = 8;

/// A no-op fragment-padding marker: both fragment bits at once.
pub const DUMMY: u32 = START_FRAGMENT | END_FRAGMENT;

/// All defined flag bits together; anything outside is invalid.
pub const FLAGS_MASK: u32 = REQUEST | RESPONSE | START_FRAGMENT | END_FRAGMENT;

/// A bit-set over the four defined header flag bits.
#[derive(Debug, Clone, Copy, PartialEq, Eq, Structural)]
pub struct Flags {
    /// The raw bit pattern; valid values keep to `FLAGS_MASK`.
    pub bits: u32,
}

/// A flags value is well formed when no bit outside the four defined
/// flags is set; decoding enforces this, construction by the helpers
/// below preserves it.
pub open spec fn flags_wf(f: Flags) -> bool {
    f.bits & FLAGS_MASK == f.bits
}

impl Flags {
    /// The empty bit-set.
    pub fn empty() -> (r: Flags)
        ensures
            r.bits == 0,
            flags_wf(r),
    {
        proof {
            assert(0u32 & FLAGS_MASK == 0u32) by (bit_vector);
        }
        Flags { bits: 0 }
    }

    /// The `REQUEST` flag alone.
    pub fn request() -> (r: Flags)
        ensures
            r.bits == REQUEST,
            flags_wf(r),
    {
        proof {
            assert(REQUEST & FLAGS_MASK == REQUEST) by (bit_vector);
        }
        Flags { bits: REQUEST }
    }

    /// The `RESPONSE` flag alone.
    pub fn response() -> (r: Flags)
        ensures
            r.bits == RESPONSE,
            flags_wf(r),
    {
        proof {
            assert(RESPONSE & FLAGS_MASK == RESPONSE) by (bit_vector);
        }
        Flags { bits: RESPONSE }
    }

    /// The `START_FRAGMENT` flag alone.
    pub fn start_fragment() -> (r: Flags)
        ensures
            r.bits == START_FRAGMENT,
            flags_wf(r),
    {
        proof {
            assert(START_FRAGMENT & FLAGS_MASK == START_FRAGMENT) by (bit_vector);
        }
        Flags { bits: START_FRAGMENT }
    }

    /// The `END_FRAGMENT` flag alone.
    pub fn end_fragment() -> (r: Flags)
        ensures
            r.bits == END_FRAGMENT,
            flags_wf(r),
    {
        proof {
            assert(END_FRAGMENT & FLAGS_MASK == END_FRAGMENT) by (bit_vector);
        }
        Flags { bits: END_FRAGMENT }
    }

    /// The `DUMMY` padding marker: both fragment bits.
    pub fn dummy() -> (r: Flags)
        ensures
            r.bits == DUMMY,
            flags_wf(r),
    {
        proof {
            assert(DUMMY & FLAGS_MASK == DUMMY) by (bit_vector);
        }
        Flags { bits: DUMMY }
    }

    /// The union of two bit-sets.
    pub fn combine(self, other: Flags) -> (r: Flags)
        ensures
            r.bits == self.bits | other.bits,
            flags_wf(self) && flags_wf(other) ==> flags_wf(r),
    {
        proof {
            let a = self.bits;
            let b = other.bits;
            assert(a & FLAGS_MASK == a && b & FLAGS_MASK == b ==> (a | b) & FLAGS_MASK == (a
                | b)) by (bit_vector);
        }
        Flags { bits: self.bits | other.bits }
    }

    /// Whether every bit of `other` is set in `self`.
    pub fn contains(self, other: Flags) -> (r: bool)
        ensures
            r == (self.bits & other.bits == other.bits),
    {
        self.bits & other.bits == other.bits
    }

    /// The raw bit pattern.
    pub fn bits(self) -> (r: u32)
        ensures
            r == self.bits,
    {
        self.bits
    }

    /// Decode a flags integer: succeeds with exactly those bits when
    /// they keep to the four defined flags, fails on any other bits.
    pub fn from_bits(bits: u32) -> (r: Option<Flags>)
        ensures
            r == (if bits & FLAGS_MASK == bits {
                Some(Flags { bits })
            } else {
                None::<Flags>
            }),
    {
        if bits & FLAGS_MASK == bits {
            Some(Flags { bits })
        } else {
            None
        }
    }
}

/// Any integer OR-ed together from a subset of the four defined flag
/// bits is well formed — so `Flags::from_bits` accepts it — and the
/// resulting bit-set holds each defined flag exactly when the subset
/// chose it.
pub proof fn lemma_flags_from_subset(req: bool, resp: bool, start: bool, end: bool)
    ensures
        ({
            let bits = (if req {
                REQUEST
            } else {
                0u32
            }) | (if resp {
                RESPONSE
            } else {
                0u32
            }) | (if start {
                START_FRAGMENT
            } else {
                0u32
            }) | (if end {
                END_FRAGMENT
            } else {
                0u32
            });
            &&& bits & FLAGS_MASK == bits
            &&& bits & REQUEST == (if req {
                REQUEST
            } else {
                0u32
            })
            &&& bits & RESPONSE == (if resp {
                RESPONSE
            } else {
                0u32
            })
            &&& bits & START_FRAGMENT == (if start {
                START_FRAGMENT
            } else {
                0u32
            })
            &&& bits & END_FRAGMENT == (if end {
                END_FRAGMENT
            } else {
                0u32
            })
        }),
{
    let bits = (if req {
        REQUEST
    } else {
        0u32
    }) | (if resp {
        RESPONSE
    } else {
        0u32
    }) | (if start {
        START_FRAGMENT
    } else {
        0u32
    }) | (if end {
        END_FRAGMENT
    } else {
        0u32
    });
    assert(bits & FLAGS_MASK == bits && bits & REQUEST == (if req {
        REQUEST
    } else {
        0u32
    }) && bits & RESPONSE == (if resp {
        RESPONSE
    } else {
        0u32
    }) && bits & START_FRAGMENT == (if start {
        START_FRAGMENT
    } else {
        0u32
    }) && bits & END_FRAGMENT == (if end {
        END_FRAGMENT
    } else {
        0u32
    })) by (bit_vector)
        requires
            bits == (if req {
                REQUEST
            } else {
                0u32
            }) | (if resp {
                RESPONSE
            } else {
                0u32
            }) | (if start {
                START_FRAGMENT
            } else {
                0u32
            }) | (if end {
                END_FRAGMENT
            } else {
                0u32
            }),
    ;
}

/// Size of the encoded envelope in bytes.
pub const HEADER_SIZE: usize = 33;

/// The canonical message envelope; an immutable value after
/// construction, either built for sending or decoded from bytes.
#[derive(Debug, Clone, Copy, PartialEq, Eq, Structural)]
pub struct BucketHead {
    pub signature: u64,
    pub size: u64,
    pub have_to_return_data: bool,
    pub command: P2pCommand,
    pub return_code: i32,
    pub flags: Flags,
    pub protocol_version: u32,
}

/// A 32-bit integer from four bytes, little-endian.
pub open spec fn u32_from_le(b0: u8, b1: u8, b2: u8, b3: u8) -> u32 {
    (b0 as u32) | ((b1 as u32) << 8) | ((b2 as u32) << 16) | ((b3 as u32) << 24)
}

/// A 64-bit integer from eight bytes, little-endian.
pub open spec fn u64_from_le(
    b0: u8,
    b1: u8,
    b2: u8,
    b3: u8,
    b4: u8,
    b5: u8,
    b6: u8,
    b7: u8,
) -> u64 {
    (b0 as u64) | ((b1 as u64) << 8) | ((b2 as u64) << 16) | ((b3 as u64) << 24) | ((b4
        as u64) << 32) | ((b5 as u64) << 40) | ((b6 as u64) << 48) | ((b7 as u64) << 56)
}

/// The little-endian 32-bit integer standing at offset `i` of `s`.
pub open spec fn u32_at(s: Seq<u8>, i: int) -> u32 {
    u32_from_le(s[i], s[i + 1], s[i + 2], s[i + 3])
}

/// The little-endian 64-bit integer standing at offset `i` of `s`.
pub open spec fn u64_at(s: Seq<u8>, i: int) -> u64 {
    u64_from_le(s[i], s[i + 1], s[i + 2], s[i + 3], s[i + 4], s[i + 5], s[i + 6], s[i + 7])
}

/// The exact 33-byte wire encoding of a header: signature, size,
/// response flag, command, return code, flags, protocol version, all
/// integers little-endian.
pub open spec fn encoded(h: BucketHead) -> Seq<u8> {
    let sig = h.signature;
    let size = h.size;
    let cmd = command_code(h.command);
    let rc = h.return_code as u32;
    let fl = h.flags.bits;
    let ver = h.protocol_version;
    seq![
        sig as u8,
        (sig >> 8) as u8,
        (sig >> 16) as u8,
        (sig >> 24) as u8,
        (sig >> 32) as u8,
        (sig >> 40) as u8,
        (sig >> 48) as u8,
        (sig >> 56) as u8,
        size as u8,
        (size >> 8) as u8,
        (size >> 16) as u8,
        (size >> 24) as u8,
        (size >> 32) as u8,
        (size >> 40) as u8,
        (size >> 48) as u8,
        (size >> 56) as u8,
        if h.have_to_return_data {
            1u8
        } else {
            0u8
        },
        cmd as u8,
        (cmd >> 8) as u8,
        (cmd >> 16) as u8,
        (cmd >> 24) as u8,
        rc as u8,
        (rc >> 8) as u8,
        (rc >> 16) as u8,
        (rc >> 24) as u8,
        fl as u8,
        (fl >> 8) as u8,
        (fl >> 16) as u8,
        (fl >> 24) as u8,
        ver as u8,
        (ver >> 8) as u8,
        (ver >> 16) as u8,
        (ver >> 24) as u8,
    ]
}

/// What decoding a byte sequence yields: fewer than 33 bytes is an
/// I/O failure; otherwise the seven fields are read little-endian and
/// checked in fixed order — command table, flag bits, signature,
/// protocol version, return-code sign — the first failing check
/// naming the error, and only a fully valid header is returned.
pub open spec fn decode_spec(s: Seq<u8>) -> Result<BucketHead, BucketError> {
    if s.len() < 33 {
        Err(BucketError::IO)
    } else {
        let signature = u64_at(s, 0);
        let size = u64_at(s, 8);
        let have_to_return_data = s[16] != 0;
        let cmd = u32_at(s, 17);
        let return_code = u32_at(s, 21) as i32;
        let flag_bits = u32_at(s, 25);
        let protocol_version = u32_at(s, 29);
        if command_of_code(cmd) is None {
            Err(BucketError::UnsupportedP2pCommand(cmd))
        } else if !(flag_bits & FLAGS_MASK == flag_bits) {
            Err(BucketError::UnknownFlags(flag_bits))
        } else if signature != LEVIN_SIGNATURE {
            Err(BucketError::IncorrectSignature(signature))
        } else if protocol_version != PROTOCOL_VERSION {
            Err(BucketError::UnknownProtocolVersion(protocol_version))
        } else if return_code < 0 {
            Err(BucketError::RemoteError(return_code))
        } else {
            Ok(
                BucketHead {
                    signature,
                    size,
                    have_to_return_data,
                    command: command_of_code(cmd)->Some_0,
                    return_code,
                    flags: Flags { bits: flag_bits },
                    protocol_version,
                },
            )
        }
    }
}

/// Read the little-endian 32-bit integer at `pos`.
fn read_u32_le(b: &[u8], pos: usize) -> (r: u32)
    requires
        pos + 4 <= b@.len(),
    ensures
        r == u32_at(b@, pos as int),
{
    (b[pos] as u32) | ((b[pos + 1] as u32) << 8) | ((b[pos + 2] as u32) << 16) | ((b[pos + 3]
        as u32) << 24)
}

/// Read the little-endian 64-bit integer at `pos`.
fn read_u64_le(b: &[u8], pos: usize) -> (r: u64)
    requires
        pos + 8 <= b@.len(),
    ensures
        r == u64_at(b@, pos as int),
{
    (b[pos] as u64) | ((b[pos + 1] as u64) << 8) | ((b[pos + 2] as u64) << 16) | ((b[pos + 3]
        as u64) << 24) | ((b[pos + 4] as u64) << 32) | ((b[pos + 5] as u64) << 40) | ((b[pos + 6]
        as u64) << 48) | ((b[pos + 7] as u64) << 56)
}

impl BucketHead {
    /// Build an outgoing header: signature and protocol version come
    /// from the two protocol constants, everything else from the
    /// caller. No validation happens here.
    pub fn build(
        payload_size: u64,
        have_to_return_data: bool,
        command: P2pCommand,
        flags: Flags,
        return_code: i32,
    ) -> (r: BucketHead)
        ensures
            r == (BucketHead {
                signature: LEVIN_SIGNATURE,
                size: payload_size,
                have_to_return_data,
                command,
                return_code,
                flags,
                protocol_version: PROTOCOL_VERSION,
            }),
    {
        BucketHead {
            signature: LEVIN_SIGNATURE,
            size: payload_size,
            have_to_return_data,
            command,
            return_code,
            flags,
            protocol_version: PROTOCOL_VERSION,
        }
    }

    /// Serialize the seven fields to exactly 33 bytes in wire order.
    pub fn to_bytes(&self) -> (r: Vec<u8>)
        ensures
            r@ == encoded(*self),
            r@.len() == 33,
    {
        let mut v: Vec<u8> = Vec::with_capacity(33);
        let sig = self.signature;
        let size = self.size;
        let cmd = self.command.to_u32();
        let rc = self.return_code as u32;
        let fl = self.flags.bits;
        let ver = self.protocol_version;
        v.push(sig as u8);
        v.push((sig >> 8) as u8);
        v.push((sig >> 16) as u8);
        v.push((sig >> 24) as u8);
        v.push((sig >> 32) as u8);
        v.push((sig >> 40) as u8);
        v.push((sig >> 48) as u8);
        v.push((sig >> 56) as u8);
        v.push(size as u8);
        v.push((size >> 8) as u8);
        v.push((size >> 16) as u8);
        v.push((size >> 24) as u8);
        v.push((size >> 32) as u8);
        v.push((size >> 40) as u8);
        v.push((size >> 48) as u8);
        v.push((size >> 56) as u8);
        v.push(if self.have_to_return_data {
            1u8
        } else {
            0u8
        });
        v.push(cmd as u8);
        v.push((cmd >> 8) as u8);
        v.push((cmd >> 16) as u8);
        v.push((cmd >> 24) as u8);
        v.push(rc as u8);
        v.push((rc >> 8) as u8);
        v.push((rc >> 16) as u8);
        v.push((rc >> 24) as u8);
        v.push(fl as u8);
        v.push((fl >> 8) as u8);
        v.push((fl >> 16) as u8);
        v.push((fl >> 24) as u8);
        v.push(ver as u8);
        v.push((ver >> 8) as u8);
        v.push((ver >> 16) as u8);
        v.push((ver >> 24) as u8);
        proof {
            assert(v@ =~= encoded(*self));
        }
        v
    }

    /// Decode a header from the first 33 bytes of `bytes`; anything
    /// after them is payload and is left untouched. All-or-nothing:
    /// on any failure no header is returned.
    pub fn from_bytes(bytes: &[u8]) -> (r: Result<BucketHead, BucketError>)
        ensures
            r == decode_spec(bytes@),
    {
        if bytes.len() < 33 {
            return Err(BucketError::IO);
        }
        let signature = read_u64_le(bytes, 0);
        let size = read_u64_le(bytes, 8);
        let have_to_return_data = bytes[16] != 0;
        let raw_command = read_u32_le(bytes, 17);
        #[verifier::truncate]
        let return_code = read_u32_le(bytes, 21) as i32;
        let flag_bits = read_u32_le(bytes, 25);
        let protocol_version = read_u32_le(bytes, 29);

        let command = match P2pCommand::from_u32(raw_command) {
            Ok(c) => c,
            Err(e) => {
                return Err(e);
            },
        };
        let flags = match Flags::from_bits(flag_bits) {
            Some(f) => f,
            None => {
                return Err(BucketError::UnknownFlags(flag_bits));
            },
        };

        if signature != LEVIN_SIGNATURE {
            return Err(BucketError::IncorrectSignature(signature));
        }
        if protocol_version != PROTOCOL_VERSION {
            return Err(BucketError::UnknownProtocolVersion(protocol_version));
        }
        if return_code < 0 {
            return Err(BucketError::RemoteError(return_code));
        }

        Ok(
            BucketHead {
                signature,
                size,
                have_to_return_data,
                command,
                return_code,
                flags,
                protocol_version,
            },
        )
    }
}

/// Reading four little-endian bytes of a 32-bit integer gives the
/// integer back.
proof fn lemma_u32_le_round_trip(x: u32)
    by (bit_vector)
    ensures
        u32_from_le(x as u8, (x >> 8) as u8, (x >> 16) as u8, (x >> 24) as u8) == x,
{
}

/// Reading eight little-endian bytes of a 64-bit integer gives the
/// integer back.
proof fn lemma_u64_le_round_trip(x: u64)
    by (bit_vector)
    ensures
        u64_from_le(
            x as u8,
            (x >> 8) as u8,
            (x >> 16) as u8,
            (x >> 24) as u8,
            (x >> 32) as u8,
            (x >> 40) as u8,
            (x >> 48) as u8,
            (x >> 56) as u8,
        ) == x,
{
}

/// Re-serializing a 32-bit integer read from four bytes gives the
/// same four bytes back.
proof fn lemma_u32_le_bytes(b0: u8, b1: u8, b2: u8, b3: u8)
    by (bit_vector)
    ensures
        u32_from_le(b0, b1, b2, b3) as u8 == b0,
        (u32_from_le(b0, b1, b2, b3) >> 8) as u8 == b1,
        (u32_from_le(b0, b1, b2, b3) >> 16) as u8 == b2,
        (u32_from_le(b0, b1, b2, b3) >> 24) as u8 == b3,
{
}

/// Re-serializing a 64-bit integer read from eight bytes gives the
/// same eight bytes back.
proof fn lemma_u64_le_bytes(b0: u8, b1: u8, b2: u8, b3: u8, b4: u8, b5: u8, b6: u8, b7: u8)
    by (bit_vector)
    ensures
        u64_from_le(b0, b1, b2, b3, b4, b5, b6, b7) as u8 == b0,
        (u64_from_le(b0, b1, b2, b3, b4, b5, b6, b7) >> 8) as u8 == b1,
        (u64_from_le(b0, b1, b2, b3, b4, b5, b6, b7) >> 16) as u8 == b2,
        (u64_from_le(b0, b1, b2, b3, b4, b5, b6, b7) >> 24) as u8 == b3,
        (u64_from_le(b0, b1, b2, b3, b4, b5, b6, b7) >> 32) as u8 == b4,
        (u64_from_le(b0, b1, b2, b3, b4, b5, b6, b7) >> 40) as u8 == b5,
        (u64_from_le(b0, b1, b2, b3, b4, b5, b6, b7) >> 48) as u8 == b6,
        (u64_from_le(b0, b1, b2, b3, b4, b5, b6, b7) >> 56) as u8 == b7,
{
}

/// Casting a signed 32-bit value to unsigned and back is the
/// identity, and the other way round as well.
proof fn lemma_i32_cast_round_trip(x: i32, y: u32)
    by (bit_vector)
    ensures
        (x as u32) as i32 == x,
        (y as i32) as u32 == y,
{
}

/// Round trip: any header whose signature and version are the two
/// protocol constants, whose flags are well formed, and whose return
/// code is not negative — exactly what `BucketHead::build` produces
/// for such arguments — decodes back from its own encoding.
pub proof fn lemma_build_round_trip(h: BucketHead)
    requires
        h.signature == LEVIN_SIGNATURE,
        h.protocol_version == PROTOCOL_VERSION,
        h.return_code >= 0,
        flags_wf(h.flags),
    ensures
        decode_spec(encoded(h)) == Ok::<BucketHead, BucketError>(h),
{
    let s = encoded(h);
    assert(s.len() == 33);
    lemma_u64_le_round_trip(h.signature);
    lemma_u64_le_round_trip(h.size);
    lemma_u32_le_round_trip(command_code(h.command));
    lemma_u32_le_round_trip(h.return_code as u32);
    lemma_u32_le_round_trip(h.flags.bits);
    lemma_u32_le_round_trip(h.protocol_version);
    lemma_i32_cast_round_trip(h.return_code, 0);
    lemma_command_code_round_trip(h.command, 0);
    assert(u64_at(s, 0) == h.signature);
    assert(u64_at(s, 8) == h.size);
    assert(u32_at(s, 17) == command_code(h.command));
    assert(u32_at(s, 21) == h.return_code as u32);
    assert(u32_at(s, 25) == h.flags.bits);
    assert(u32_at(s, 29) == h.protocol_version);
    assert(s[16] != 0 <==> h.have_to_return_data);
    assert(decode_spec(s)->Ok_0 == h);
}

/// Exact inverse: a byte sequence of exactly 33 bytes that decodes to
/// a header — with the response byte canonical, either 0 or 1 —
/// re-encodes to the very same bytes.
pub proof fn lemma_decode_encode_inverse(s: Seq<u8>)
    requires
        s.len() == 33,
        decode_spec(s) is Ok,
        s[16] == 0 || s[16] == 1,
    ensures
        encoded(decode_spec(s)->Ok_0) == s,
{
    let h = decode_spec(s)->Ok_0;
    lemma_u64_le_bytes(s[0], s[1], s[2], s[3], s[4], s[5], s[6], s[7]);
    lemma_u64_le_bytes(s[8], s[9], s[10], s[11], s[12], s[13], s[14], s[15]);
    lemma_u32_le_bytes(s[17], s[18], s[19], s[20]);
    lemma_u32_le_bytes(s[21], s[22], s[23], s[24]);
    lemma_u32_le_bytes(s[25], s[26], s[27], s[28]);
    lemma_u32_le_bytes(s[29], s[30], s[31], s[32]);
    lemma_i32_cast_round_trip(0, u32_at(s, 21));
    lemma_command_code_round_trip(h.command, u32_at(s, 17));
    assert(h.signature == u64_at(s, 0));
    assert(h.size == u64_at(s, 8));
    assert(command_code(h.command) == u32_at(s, 17));
    assert(h.return_code as u32 == u32_at(s, 21));
    assert(h.flags.bits == u32_at(s, 25));
    assert(h.protocol_version == u32_at(s, 29));
    assert(encoded(h)[16] == s[16]);
    assert(encoded(h) =~= s);
}

/// Altering the signature of a valid encoded header to any value
/// other than the magic constant makes decoding fail with
/// `IncorrectSignature` carrying the altered value — never with any
/// other error.
pub proof fn lemma_signature_corruption(s: Seq<u8>, s2: Seq<u8>)
    requires
        decode_spec(s) is Ok,
        s2.len() == s.len(),
        s2.subrange(8, s.len() as int) == s.subrange(8, s.len() as int),
        u64_at(s2, 0) != LEVIN_SIGNATURE,
    ensures
        decode_spec(s2) == Err::<BucketHead, BucketError>(
            BucketError::IncorrectSignature(u64_at(s2, 0)),
        ),
{
    assert(s.len() >= 33);
    assert forall|i: int| 8 <= i < s.len() implies s2[i] == s[i] by {
        assert(s.subrange(8, s.len() as int)[i - 8] == s[i]);
        assert(s2.subrange(8, s2.len() as int)[i - 8] == s2[i]);
    }
    assert(u32_at(s2, 17) == u32_at(s, 17));
    assert(u32_at(s2, 25) == u32_at(s, 25));
}

/// A header that is valid in every other way but carries a negative
/// return code fails to decode, with `RemoteError` carrying that
/// code.
pub proof fn lemma_negative_return_code(s: Seq<u8>)
    requires
        s.len() >= 33,
        command_of_code(u32_at(s, 17)) is Some,
        u32_at(s, 25) & FLAGS_MASK == u32_at(s, 25),
        u64_at(s, 0) == LEVIN_SIGNATURE,
        u32_at(s, 29) == PROTOCOL_VERSION,
        (u32_at(s, 21) as i32) < 0,
    ensures
        decode_spec(s) == Err::<BucketHead, BucketError>(
            BucketError::RemoteError(u32_at(s, 21) as i32),
        ),
{
}

/// Fewer than 33 bytes always fail as an I/O error, never as a
/// validation error.
pub proof fn lemma_truncated_input(s: Seq<u8>)
    requires
        s.len() < 33,
    ensures
        decode_spec(s) == Err::<BucketHead, BucketError>(BucketError::IO),
{
}

} // verus!
