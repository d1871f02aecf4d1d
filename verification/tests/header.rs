use levin::header::{
    BucketError, BucketHead, Flags, P2pCommand, DUMMY, END_FRAGMENT, HEADER_SIZE, LEVIN_SIGNATURE,
    PROTOCOL_VERSION, REQUEST, RESPONSE, START_FRAGMENT,
};

const ALL_COMMANDS: [(u32, P2pCommand); 13] = [
    (1001, P2pCommand::Handshake),
    (1002, P2pCommand::TimedSync),
    (1003, P2pCommand::Ping),
    (1007, P2pCommand::RequestSupportFlags),
    (2001, P2pCommand::NotifyNewBlock),
    (2002, P2pCommand::NotifyNewTransactions),
    (2003, P2pCommand::NotifyRequestGetObject),
    (2004, P2pCommand::NotifyResponseGetObject),
    (2006, P2pCommand::NotifyRequestChain),
    (2007, P2pCommand::NotifyResponseChainEntry),
    (2008, P2pCommand::NotifyNewFluffyBlock),
    (2009, P2pCommand::NotifyRequestFluffyMissingTx),
    (2010, P2pCommand::NotifyGetTxPoolComplement),
];

#[test]
fn command_codes_round_trip() {
    for (code, cmd) in ALL_COMMANDS {
        assert_eq!(cmd.to_u32(), code);
        assert_eq!(P2pCommand::from_u32(code), Ok(cmd));
        assert_eq!(P2pCommand::from_u32(cmd.to_u32()), Ok(cmd));
    }
}

#[test]
fn unknown_commands_rejected() {
    for code in [0u32, 1000, 1004, 1005, 1006, 1008, 2000, 2005, 2011, 9999, u32::MAX] {
        assert_eq!(
            P2pCommand::from_u32(code),
            Err(BucketError::UnsupportedP2pCommand(code))
        );
    }
}

#[test]
fn flag_subsets_accepted() {
    for bits in 0u32..=15 {
        let f = Flags::from_bits(bits).expect("subset of defined flags must decode");
        assert_eq!(f.bits(), bits);
    }
}

#[test]
fn flag_outside_bits_rejected() {
    for bits in [16u32, 17, 32, 0x100, 0xff, u32::MAX] {
        assert_eq!(Flags::from_bits(bits), None);
    }
}

#[test]
fn flag_constants() {
    assert_eq!(Flags::request().bits(), REQUEST);
    assert_eq!(Flags::response().bits(), RESPONSE);
    assert_eq!(Flags::start_fragment().bits(), START_FRAGMENT);
    assert_eq!(Flags::end_fragment().bits(), END_FRAGMENT);
    assert_eq!(Flags::dummy().bits(), DUMMY);
    assert_eq!(
        Flags::start_fragment().combine(Flags::end_fragment()),
        Flags::dummy()
    );
    assert!(Flags::dummy().contains(Flags::start_fragment()));
    assert!(!Flags::request().contains(Flags::response()));
    assert_eq!(Flags::empty().bits(), 0);
}

#[test]
fn build_fills_protocol_constants() {
    let h = BucketHead::build(42, false, P2pCommand::Handshake, Flags::request(), 7);
    assert_eq!(h.signature, LEVIN_SIGNATURE);
    assert_eq!(h.protocol_version, PROTOCOL_VERSION);
    assert_eq!(h.size, 42);
    assert!(!h.have_to_return_data);
    assert_eq!(h.command, P2pCommand::Handshake);
    assert_eq!(h.flags, Flags::request());
    assert_eq!(h.return_code, 7);
}

#[test]
fn header_round_trips() {
    let cases = [
        BucketHead::build(0, false, P2pCommand::Handshake, Flags::empty(), 0),
        BucketHead::build(100, true, P2pCommand::Ping, Flags::request(), 0),
        BucketHead::build(
            u64::MAX,
            true,
            P2pCommand::NotifyGetTxPoolComplement,
            Flags::dummy(),
            i32::MAX,
        ),
        BucketHead::build(
            65536,
            false,
            P2pCommand::NotifyNewFluffyBlock,
            Flags::response(),
            1,
        ),
    ];
    for h in cases {
        let bytes = h.to_bytes();
        assert_eq!(bytes.len(), HEADER_SIZE);
        assert_eq!(BucketHead::from_bytes(&bytes), Ok(h));
    }
}

#[test]
fn decode_ignores_trailing_payload() {
    let h = BucketHead::build(3, true, P2pCommand::TimedSync, Flags::response(), 0);
    let mut bytes = h.to_bytes();
    bytes.extend_from_slice(&[0xaa, 0xbb, 0xcc]);
    assert_eq!(BucketHead::from_bytes(&bytes), Ok(h));
}

#[test]
fn encode_exact_bytes() {
    let h = BucketHead::build(100, true, P2pCommand::Ping, Flags::request(), 0);
    let bytes = h.to_bytes();
    let mut expected = Vec::new();
    expected.extend_from_slice(&LEVIN_SIGNATURE.to_le_bytes());
    expected.extend_from_slice(&100u64.to_le_bytes());
    expected.push(1);
    expected.extend_from_slice(&1003u32.to_le_bytes());
    expected.extend_from_slice(&0i32.to_le_bytes());
    expected.extend_from_slice(&1u32.to_le_bytes());
    expected.extend_from_slice(&PROTOCOL_VERSION.to_le_bytes());
    assert_eq!(bytes, expected);
}

#[test]
fn signature_corruption_reported_first() {
    let h = BucketHead::build(5, true, P2pCommand::Ping, Flags::request(), 0);
    let mut bytes = h.to_bytes();
    for b in bytes.iter_mut().take(8) {
        *b = 0x42;
    }
    assert_eq!(
        BucketHead::from_bytes(&bytes),
        Err(BucketError::IncorrectSignature(0x4242424242424242))
    );
}

#[test]
fn negative_return_code_fails_decode() {
    let h = BucketHead::build(5, true, P2pCommand::Ping, Flags::request(), -1);
    let bytes = h.to_bytes();
    assert_eq!(
        BucketHead::from_bytes(&bytes),
        Err(BucketError::RemoteError(-1))
    );
}

#[test]
fn truncated_input_is_io_failure() {
    let h = BucketHead::build(5, true, P2pCommand::Ping, Flags::request(), 0);
    let bytes = h.to_bytes();
    for len in [0usize, 1, 8, 16, 17, 21, 25, 32] {
        assert_eq!(
            BucketHead::from_bytes(&bytes[..len]),
            Err(BucketError::IO),
            "length {}",
            len
        );
    }
}

#[test]
fn version_mismatch_rejected() {
    let h = BucketHead::build(5, true, P2pCommand::Ping, Flags::request(), 0);
    let mut bytes = h.to_bytes();
    bytes[29] = 2;
    assert_eq!(
        BucketHead::from_bytes(&bytes),
        Err(BucketError::UnknownProtocolVersion(2))
    );
}

#[test]
fn unknown_command_in_header_rejected() {
    let h = BucketHead::build(5, true, P2pCommand::Ping, Flags::request(), 0);
    let mut bytes = h.to_bytes();
    bytes[17..21].copy_from_slice(&9999u32.to_le_bytes());
    assert_eq!(
        BucketHead::from_bytes(&bytes),
        Err(BucketError::UnsupportedP2pCommand(9999))
    );
}

#[test]
fn unknown_flags_in_header_rejected() {
    let h = BucketHead::build(5, true, P2pCommand::Ping, Flags::request(), 0);
    let mut bytes = h.to_bytes();
    bytes[25..29].copy_from_slice(&16u32.to_le_bytes());
    assert_eq!(
        BucketHead::from_bytes(&bytes),
        Err(BucketError::UnknownFlags(16))
    );
}

#[test]
fn command_error_precedes_signature_error() {
    let h = BucketHead::build(5, true, P2pCommand::Ping, Flags::request(), 0);
    let mut bytes = h.to_bytes();
    for b in bytes.iter_mut().take(8) {
        *b = 0x42;
    }
    bytes[17..21].copy_from_slice(&9999u32.to_le_bytes());
    assert_eq!(
        BucketHead::from_bytes(&bytes),
        Err(BucketError::UnsupportedP2pCommand(9999))
    );
}

#[test]
fn response_flag_byte() {
    let t = BucketHead::build(0, true, P2pCommand::Ping, Flags::empty(), 0);
    let f = BucketHead::build(0, false, P2pCommand::Ping, Flags::empty(), 0);
    assert_eq!(t.to_bytes()[16], 1);
    assert_eq!(f.to_bytes()[16], 0);
    assert!(BucketHead::from_bytes(&t.to_bytes()).unwrap().have_to_return_data);
    assert!(!BucketHead::from_bytes(&f.to_bytes()).unwrap().have_to_return_data);
}
