//! The tagged-union network-address value and its codec to and from a
//! generic key/value document.
//!
//! The document is a self-describing value tree: scalars, raw bytes,
//! and objects of named fields. The address codec reads an 8-bit
//! discriminant field to pick the variant, then extracts that
//! variant's fields from a nested address object, rejecting unknown
//! discriminants, mis-sized IPv6 addresses, and missing or mistyped
//! fields.

use vstd::prelude::*;

verus! {

/// The field names the address codec reads from or writes into a
/// document.
#[derive(Debug, Clone, Copy, PartialEq, Eq, Structural)]
pub enum FieldName {
    /// The discriminant field selecting the address variant.
    Type,
    /// The nested address object, and the raw byte field inside an
    /// IPv6 address object.
    Addr,
    /// The 32-bit IPv4 address field.
    MIp,
    /// The 16-bit port field.
    MPort,
}

/// The kind of value a field was expected to hold, named in
/// field-extraction failures.
#[derive(Debug, Clone, Copy, PartialEq, Eq, Structural)]
pub enum ValueKind {
    U8,
    U16,
    U32,
    U64,
    Bytes,
    Object,
}

/// A generic self-describing document value: scalars, raw bytes, or
/// an object of named fields in insertion order.
#[derive(Debug)]
pub enum Value {
    U8(u8),
    U16(u16),
    U32(u32),
    U64(u64),
    Bytes(Vec<u8>),
    Object(Vec<(FieldName, Value)>),
}

/// Why an address failed to decode from a document.
#[derive(Debug, Clone, Copy, PartialEq, Eq, Structural)]
pub enum AddressError {
    /// The discriminant is outside {1, 2}; carries it.
    UnsupportedAddressType(u8),
    /// The IPv6 byte sequence is not exactly 16 bytes; carries the
    /// observed length.
    InvalidAddressLength(usize),
    /// A named field is missing or holds the wrong kind of value;
    /// carries the field and the kind expected of it.
    FieldExtraction(FieldName, ValueKind),
}

/// A 32-bit address value and a 16-bit port.
#[derive(Debug, Clone, Copy, PartialEq, Eq, Structural)]
pub struct IPv4Address {
    pub m_ip: u32,
    pub m_port: u16,
}

/// A 16-byte address value and a 16-bit port.
#[derive(Debug, Clone, Copy)]
pub struct IPv6Address {
    pub addr: [u8; 16],
    pub m_port: u16,
}

impl PartialEq for IPv6Address {
    fn eq(&self, other: &IPv6Address) -> (r: bool) {
        if self.m_port != other.m_port {
            return false;
        }
        let mut i: usize = 0;
        while i < 16
            invariant
                i <= 16,
                self.m_port == other.m_port,
                forall|j: int| 0 <= j < i ==> self.addr@[j] == other.addr@[j],
            decreases 16 - i,
        {
            if self.addr[i] != other.addr[i] {
                return false;
            }
            i = i + 1;
        }
        proof {
            assert(self.addr@ =~= other.addr@);
            assert(self.addr =~= other.addr);
        }
        true
    }
}

impl vstd::std_specs::cmp::PartialEqSpecImpl for IPv6Address {
    open spec fn obeys_eq_spec() -> bool {
        true
    }

    open spec fn eq_spec(&self, other: &IPv6Address) -> bool {
        self.addr == other.addr && self.m_port == other.m_port
    }
}

/// The mathematical value of an `IPv6Address`: its bytes as a
/// sequence, and the port.
pub struct IPv6AddressView {
    pub addr: Seq<u8>,
    pub m_port: u16,
}

impl View for IPv6Address {
    type V = IPv6AddressView;

    open spec fn view(&self) -> IPv6AddressView {
        IPv6AddressView { addr: self.addr@, m_port: self.m_port }
    }
}

/// A network address: one of two fixed-layout variants. The wire
/// discriminant (1 for IPv4, 2 for IPv6) is not stored; it is derived
/// from the active variant and re-emitted on encode.
#[derive(Debug, Clone, Copy)]
pub enum NetworkAddress {
    IPv4(IPv4Address),
    IPv6(IPv6Address),
}

impl PartialEq for NetworkAddress {
    fn eq(&self, other: &NetworkAddress) -> (r: bool) {
        match (self, other) {
            (NetworkAddress::IPv4(a), NetworkAddress::IPv4(b)) => a == b,
            (NetworkAddress::IPv6(a), NetworkAddress::IPv6(b)) => a == b,
            _ => false,
        }
    }
}

impl vstd::std_specs::cmp::PartialEqSpecImpl for NetworkAddress {
    open spec fn obeys_eq_spec() -> bool {
        true
    }

    open spec fn eq_spec(&self, other: &NetworkAddress) -> bool {
        match (self, other) {
            (NetworkAddress::IPv4(a), NetworkAddress::IPv4(b)) => a == b,
            (NetworkAddress::IPv6(a), NetworkAddress::IPv6(b)) => a == b,
            _ => false,
        }
    }
}

/// The mathematical value of a `NetworkAddress`.
pub enum NetworkAddressView {
    IPv4(IPv4Address),
    IPv6(IPv6AddressView),
}

impl View for NetworkAddress {
    type V = NetworkAddressView;

    open spec fn view(&self) -> NetworkAddressView {
        match self {
            NetworkAddress::IPv4(a) => NetworkAddressView::IPv4(*a),
            NetworkAddress::IPv6(a) => NetworkAddressView::IPv6(a@),
        }
    }
}

/// The first entry named `name`, searched front to back.
pub open spec fn spec_lookup(entries: Seq<(FieldName, Value)>, name: FieldName) -> Option<Value>
    decreases entries.len(),
{
    if entries.len() == 0 {
        None
    } else if entries[0].0 == name {
        Some(entries[0].1)
    } else {
        spec_lookup(entries.skip(1), name)
    }
}

/// Field lookup by name: `None` unless `v` is an object holding the
/// field.
pub open spec fn spec_get(v: Value, name: FieldName) -> Option<Value> {
    match v {
        Value::Object(entries) => spec_lookup(entries@, name),
        _ => None,
    }
}

/// What extracting an IPv4 address from an address object yields:
/// a 32-bit `MIp` field and a 16-bit `MPort` field, in that order of
/// checking, each missing or mistyped field its own failure.
pub open spec fn spec_ipv4_from_value(v: Value) -> Result<IPv4Address, AddressError> {
    match spec_get(v, FieldName::MIp) {
        Some(Value::U32(ip)) => match spec_get(v, FieldName::MPort) {
            Some(Value::U16(port)) => Ok(IPv4Address { m_ip: ip, m_port: port }),
            _ => Err(AddressError::FieldExtraction(FieldName::MPort, ValueKind::U16)),
        },
        _ => Err(AddressError::FieldExtraction(FieldName::MIp, ValueKind::U32)),
    }
}

/// What extracting an IPv6 address from an address object yields:
/// a byte-sequence `Addr` field and a 16-bit `MPort` field are
/// extracted first, then the byte sequence must be exactly 16 bytes.
pub open spec fn spec_ipv6_from_value(v: Value) -> Result<IPv6AddressView, AddressError> {
    match spec_get(v, FieldName::Addr) {
        Some(Value::Bytes(b)) => match spec_get(v, FieldName::MPort) {
            Some(Value::U16(port)) => if b@.len() == 16 {
                Ok(IPv6AddressView { addr: b@, m_port: port })
            } else {
                Err(AddressError::InvalidAddressLength(b@.len() as usize))
            },
            _ => Err(AddressError::FieldExtraction(FieldName::MPort, ValueKind::U16)),
        },
        _ => Err(AddressError::FieldExtraction(FieldName::Addr, ValueKind::Bytes)),
    }
}

/// What decoding an address document yields: the 8-bit `Type`
/// discriminant picks the variant (1 for IPv4, 2 for IPv6, anything
/// else unsupported), whose fields are then extracted from the
/// nested `Addr` object.
pub open spec fn spec_decode_address(v: Value) -> Result<NetworkAddressView, AddressError> {
    match spec_get(v, FieldName::Type) {
        Some(Value::U8(t)) => if t == 1 {
            match spec_get(v, FieldName::Addr) {
                Some(addr) => match spec_ipv4_from_value(addr) {
                    Ok(a) => Ok(NetworkAddressView::IPv4(a)),
                    Err(e) => Err(e),
                },
                None => Err(AddressError::FieldExtraction(FieldName::Addr, ValueKind::Object)),
            }
        } else if t == 2 {
            match spec_get(v, FieldName::Addr) {
                Some(addr) => match spec_ipv6_from_value(addr) {
                    Ok(a) => Ok(NetworkAddressView::IPv6(a)),
                    Err(e) => Err(e),
                },
                None => Err(AddressError::FieldExtraction(FieldName::Addr, ValueKind::Object)),
            }
        } else {
            Err(AddressError::UnsupportedAddressType(t))
        },
        _ => Err(AddressError::FieldExtraction(FieldName::Type, ValueKind::U8)),
    }
}

/// The exact two-field document `encode` produces for an address:
/// `Type` then `Addr`, the nested object holding the variant's fields
/// in their natural order.
pub open spec fn spec_address_shape(a: NetworkAddressView, v: Value) -> bool {
    &&& v matches Value::Object(outer)
    &&& outer@.len() == 2
    &&& outer@[0].0 == FieldName::Type
    &&& outer@[1].0 == FieldName::Addr
    &&& (match a {
        NetworkAddressView::IPv4(x) => {
            &&& outer@[0].1 == Value::U8(1u8)
            &&& outer@[1].1 matches Value::Object(inner)
            &&& inner@.len() == 2
            &&& inner@[0] == (FieldName::MIp, Value::U32(x.m_ip))
            &&& inner@[1] == (FieldName::MPort, Value::U16(x.m_port))
        },
        NetworkAddressView::IPv6(x) => {
            &&& outer@[0].1 == Value::U8(2u8)
            &&& outer@[1].1 matches Value::Object(inner)
            &&& inner@.len() == 2
            &&& inner@[0].0 == FieldName::Addr
            &&& (inner@[0].1 matches Value::Bytes(b) && b@ == x.addr)
            &&& inner@[1] == (FieldName::MPort, Value::U16(x.m_port))
        },
    })
}

/// Look a field up in an object's entries, front to back.
fn get_field<'a>(entries: &'a Vec<(FieldName, Value)>, name: FieldName) -> (r: Option<&'a Value>)
    ensures
        (match r {
            Some(v) => spec_lookup(entries@, name) == Some(*v),
            None => spec_lookup(entries@, name) is None,
        }),
{
    let n = entries.len();
    let mut i: usize = 0;
    proof {
        assert(entries@.skip(0) =~= entries@);
    }
    while i < n
        invariant
            n == entries@.len(),
            i <= n,
            spec_lookup(entries@, name) == spec_lookup(entries@.skip(i as int), name),
        decreases n - i,
    {
        proof {
            assert(entries@.skip(i as int)[0] == entries@[i as int]);
        }
        let e = &entries[i];
        if e.0 == name {
            return Some(&entries[i].1);
        }
        proof {
            assert(entries@.skip(i as int).skip(1) =~= entries@.skip(i as int + 1));
        }
        i = i + 1;
    }
    None
}

impl IPv4Address {
    /// Extract an IPv4 address from an address object.
    pub fn from_value(value: &Value) -> (r: Result<IPv4Address, AddressError>)
        ensures
            r == spec_ipv4_from_value(*value),
    {
        let entries = match value {
            Value::Object(entries) => entries,
            _ => {
                return Err(AddressError::FieldExtraction(FieldName::MIp, ValueKind::U32));
            },
        };
        let m_ip = match get_field(entries, FieldName::MIp) {
            Some(Value::U32(ip)) => *ip,
            _ => {
                return Err(AddressError::FieldExtraction(FieldName::MIp, ValueKind::U32));
            },
        };
        let m_port = match get_field(entries, FieldName::MPort) {
            Some(Value::U16(port)) => *port,
            _ => {
                return Err(AddressError::FieldExtraction(FieldName::MPort, ValueKind::U16));
            },
        };
        Ok(IPv4Address { m_ip, m_port })
    }
}

impl IPv6Address {
    /// Extract an IPv6 address from an address object; the byte field
    /// must hold exactly 16 bytes.
    pub fn from_value(value: &Value) -> (r: Result<IPv6Address, AddressError>)
        ensures
            (match r {
                Ok(a) => spec_ipv6_from_value(*value) == Ok::<IPv6AddressView, AddressError>(a@),
                Err(e) => spec_ipv6_from_value(*value) == Err::<IPv6AddressView, AddressError>(e),
            }),
    {
        let entries = match value {
            Value::Object(entries) => entries,
            _ => {
                return Err(AddressError::FieldExtraction(FieldName::Addr, ValueKind::Bytes));
            },
        };
        let addr_bytes = match get_field(entries, FieldName::Addr) {
            Some(Value::Bytes(b)) => b,
            _ => {
                return Err(AddressError::FieldExtraction(FieldName::Addr, ValueKind::Bytes));
            },
        };
        let m_port = match get_field(entries, FieldName::MPort) {
            Some(Value::U16(port)) => *port,
            _ => {
                return Err(AddressError::FieldExtraction(FieldName::MPort, ValueKind::U16));
            },
        };
        if addr_bytes.len() != 16 {
            return Err(AddressError::InvalidAddressLength(addr_bytes.len()));
        }
        let mut addr: [u8; 16] = [0; 16];
        let mut i: usize = 0;
        while i < 16
            invariant
                i <= 16,
                addr_bytes@.len() == 16,
                forall|j: int| 0 <= j < i ==> addr@[j] == addr_bytes@[j],
            decreases 16 - i,
        {
            addr[i] = addr_bytes[i];
            i = i + 1;
        }
        proof {
            assert(addr@ =~= addr_bytes@);
        }
        Ok(IPv6Address { addr, m_port })
    }
}

impl NetworkAddress {
    /// Decode an address from a document: read the discriminant, then
    /// the chosen variant's fields from the nested address object.
    pub fn decode(value: &Value) -> (r: Result<NetworkAddress, AddressError>)
        ensures
            (match r {
                Ok(a) => spec_decode_address(*value) == Ok::<NetworkAddressView, AddressError>(a@),
                Err(e) => spec_decode_address(*value) == Err::<NetworkAddressView, AddressError>(
                    e,
                ),
            }),
    {
        let entries = match value {
            Value::Object(entries) => entries,
            _ => {
                return Err(AddressError::FieldExtraction(FieldName::Type, ValueKind::U8));
            },
        };
        let t = match get_field(entries, FieldName::Type) {
            Some(Value::U8(t)) => *t,
            _ => {
                return Err(AddressError::FieldExtraction(FieldName::Type, ValueKind::U8));
            },
        };
        if t == 1 {
            let addr_val = match get_field(entries, FieldName::Addr) {
                Some(v) => v,
                None => {
                    return Err(AddressError::FieldExtraction(FieldName::Addr, ValueKind::Object));
                },
            };
            match IPv4Address::from_value(addr_val) {
                Ok(a) => Ok(NetworkAddress::IPv4(a)),
                Err(e) => Err(e),
            }
        } else if t == 2 {
            let addr_val = match get_field(entries, FieldName::Addr) {
                Some(v) => v,
                None => {
                    return Err(AddressError::FieldExtraction(FieldName::Addr, ValueKind::Object));
                },
            };
            match IPv6Address::from_value(addr_val) {
                Ok(a) => Ok(NetworkAddress::IPv6(a)),
                Err(e) => Err(e),
            }
        } else {
            Err(AddressError::UnsupportedAddressType(t))
        }
    }

    /// Encode an address to its two-field document: the derived
    /// discriminant, then the nested address object. The exact
    /// structural inverse of `decode`: decoding the result gives the
    /// address back.
    pub fn encode(&self) -> (r: Value)
        ensures
            spec_address_shape(self@, r),
            spec_decode_address(r) == Ok::<NetworkAddressView, AddressError>(self@),
    {
        let r = match self {
            NetworkAddress::IPv4(a) => {
                let mut inner: Vec<(FieldName, Value)> = Vec::new();
                inner.push((FieldName::MIp, Value::U32(a.m_ip)));
                inner.push((FieldName::MPort, Value::U16(a.m_port)));
                let mut outer: Vec<(FieldName, Value)> = Vec::new();
                outer.push((FieldName::Type, Value::U8(1)));
                outer.push((FieldName::Addr, Value::Object(inner)));
                Value::Object(outer)
            },
            NetworkAddress::IPv6(a) => {
                let mut bytes: Vec<u8> = Vec::new();
                let mut i: usize = 0;
                while i < 16
                    invariant
                        bytes@.len() == i,
                        i <= 16,
                        forall|j: int| 0 <= j < i ==> bytes@[j] == a.addr@[j],
                    decreases 16 - i,
                {
                    bytes.push(a.addr[i]);
                    i = i + 1;
                }
                proof {
                    assert(bytes@ =~= a.addr@);
                }
                let mut inner: Vec<(FieldName, Value)> = Vec::new();
                inner.push((FieldName::Addr, Value::Bytes(bytes)));
                inner.push((FieldName::MPort, Value::U16(a.m_port)));
                let mut outer: Vec<(FieldName, Value)> = Vec::new();
                outer.push((FieldName::Type, Value::U8(2)));
                outer.push((FieldName::Addr, Value::Object(inner)));
                Value::Object(outer)
            },
        };
        proof {
            lemma_address_round_trip(self@, r);
        }
        r
    }
}

/// Round trip: decoding any document of the exact shape `encode`
/// produces gives the encoded address back, provided an IPv6 address
/// holds its invariant 16 bytes.
pub proof fn lemma_address_round_trip(a: NetworkAddressView, v: Value)
    requires
        spec_address_shape(a, v),
        a matches NetworkAddressView::IPv6(x) ==> x.addr.len() == 16,
    ensures
        spec_decode_address(v) == Ok::<NetworkAddressView, AddressError>(a),
{
    let outer = v->Object_0;
    assert(spec_lookup(outer@, FieldName::Type) == Some(outer@[0].1));
    assert(spec_lookup(outer@, FieldName::Addr) == spec_lookup(outer@.skip(1), FieldName::Addr));
    assert(outer@.skip(1)[0] == outer@[1]);
    assert(outer@.skip(1).len() == 1);
    assert(spec_lookup(outer@.skip(1), FieldName::Addr) == Some(outer@[1].1));
    let inner = outer@[1].1->Object_0;
    match a {
        NetworkAddressView::IPv4(x) => {
            assert(spec_lookup(inner@, FieldName::MIp) == Some(inner@[0].1));
            assert(spec_lookup(inner@, FieldName::MPort) == spec_lookup(
                inner@.skip(1),
                FieldName::MPort,
            ));
            assert(inner@.skip(1)[0] == inner@[1]);
            assert(inner@.skip(1).len() == 1);
            assert(spec_lookup(inner@.skip(1), FieldName::MPort) == Some(inner@[1].1));
            assert(spec_ipv4_from_value(outer@[1].1) == Ok::<IPv4Address, AddressError>(x));
        },
        NetworkAddressView::IPv6(x) => {
            assert(spec_lookup(inner@, FieldName::Addr) == Some(inner@[0].1));
            assert(spec_lookup(inner@, FieldName::MPort) == spec_lookup(
                inner@.skip(1),
                FieldName::MPort,
            ));
            assert(inner@.skip(1)[0] == inner@[1]);
            assert(inner@.skip(1).len() == 1);
            assert(spec_lookup(inner@.skip(1), FieldName::MPort) == Some(inner@[1].1));
            assert(spec_ipv6_from_value(outer@[1].1) == Ok::<IPv6AddressView, AddressError>(x));
        },
    }
}

} // verus!