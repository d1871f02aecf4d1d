use levin::network_address::{
    AddressError, FieldName, IPv4Address, IPv6Address, NetworkAddress, Value, ValueKind,
};

fn ipv4_doc(ip: u32, port: u16) -> Value {
    Value::Object(vec![
        (FieldName::Type, Value::U8(1)),
        (
            FieldName::Addr,
            Value::Object(vec![
                (FieldName::MIp, Value::U32(ip)),
                (FieldName::MPort, Value::U16(port)),
            ]),
        ),
    ])
}

fn ipv6_doc(addr: Vec<u8>, port: u16) -> Value {
    Value::Object(vec![
        (FieldName::Type, Value::U8(2)),
        (
            FieldName::Addr,
            Value::Object(vec![
                (FieldName::Addr, Value::Bytes(addr)),
                (FieldName::MPort, Value::U16(port)),
            ]),
        ),
    ])
}

#[test]
fn ipv4_round_trip() {
    let original = NetworkAddress::IPv4(IPv4Address {
        m_ip: 0x01020304,
        m_port: 8080,
    });
    let doc = original.encode();
    assert_eq!(NetworkAddress::decode(&doc), Ok(original));
}

#[test]
fn ipv6_round_trip() {
    let addr: [u8; 16] = [
        0, 1, 2, 3, 4, 5, 6, 7, 8, 9, 10, 11, 12, 13, 14, 255,
    ];
    let original = NetworkAddress::IPv6(IPv6Address { addr, m_port: 1234 });
    let doc = original.encode();
    assert_eq!(NetworkAddress::decode(&doc), Ok(original));
}

#[test]
fn ipv4_decode_from_document() {
    let doc = ipv4_doc(0xc0a80001, 18080);
    assert_eq!(
        NetworkAddress::decode(&doc),
        Ok(NetworkAddress::IPv4(IPv4Address {
            m_ip: 0xc0a80001,
            m_port: 18080,
        }))
    );
}

#[test]
fn ipv6_decode_from_document() {
    let doc = ipv6_doc((1..=16).collect(), 9999);
    let expected: [u8; 16] = [
        1, 2, 3, 4, 5, 6, 7, 8, 9, 10, 11, 12, 13, 14, 15, 16,
    ];
    assert_eq!(
        NetworkAddress::decode(&doc),
        Ok(NetworkAddress::IPv6(IPv6Address {
            addr: expected,
            m_port: 9999,
        }))
    );
}

#[test]
fn ipv6_wrong_length_rejected() {
    for len in [0usize, 15, 17, 32] {
        let doc = ipv6_doc(vec![7; len], 80);
        assert_eq!(
            NetworkAddress::decode(&doc),
            Err(AddressError::InvalidAddressLength(len)),
            "length {}",
            len
        );
    }
}

#[test]
fn unsupported_discriminant_rejected() {
    for t in [0u8, 3, 4, 255] {
        let doc = Value::Object(vec![
            (FieldName::Type, Value::U8(t)),
            (FieldName::Addr, Value::Object(vec![])),
        ]);
        assert_eq!(
            NetworkAddress::decode(&doc),
            Err(AddressError::UnsupportedAddressType(t)),
            "type {}",
            t
        );
    }
}

#[test]
fn missing_type_field_rejected() {
    let doc = Value::Object(vec![]);
    assert_eq!(
        NetworkAddress::decode(&doc),
        Err(AddressError::FieldExtraction(FieldName::Type, ValueKind::U8))
    );
    let not_an_object = Value::U8(1);
    assert_eq!(
        NetworkAddress::decode(&not_an_object),
        Err(AddressError::FieldExtraction(FieldName::Type, ValueKind::U8))
    );
}

#[test]
fn mistyped_type_field_rejected() {
    let doc = Value::Object(vec![(FieldName::Type, Value::U32(1))]);
    assert_eq!(
        NetworkAddress::decode(&doc),
        Err(AddressError::FieldExtraction(FieldName::Type, ValueKind::U8))
    );
}

#[test]
fn missing_addr_field_rejected() {
    let doc = Value::Object(vec![(FieldName::Type, Value::U8(1))]);
    assert_eq!(
        NetworkAddress::decode(&doc),
        Err(AddressError::FieldExtraction(
            FieldName::Addr,
            ValueKind::Object
        ))
    );
}

#[test]
fn ipv4_missing_fields_rejected() {
    let no_ip = Value::Object(vec![(FieldName::MPort, Value::U16(80))]);
    assert_eq!(
        IPv4Address::from_value(&no_ip),
        Err(AddressError::FieldExtraction(FieldName::MIp, ValueKind::U32))
    );
    let bad_port = Value::Object(vec![
        (FieldName::MIp, Value::U32(1)),
        (FieldName::MPort, Value::U32(80)),
    ]);
    assert_eq!(
        IPv4Address::from_value(&bad_port),
        Err(AddressError::FieldExtraction(
            FieldName::MPort,
            ValueKind::U16
        ))
    );
}

#[test]
fn ipv6_missing_fields_rejected() {
    let no_bytes = Value::Object(vec![(FieldName::MPort, Value::U16(80))]);
    assert_eq!(
        IPv6Address::from_value(&no_bytes),
        Err(AddressError::FieldExtraction(
            FieldName::Addr,
            ValueKind::Bytes
        ))
    );
    let bad_port = Value::Object(vec![
        (FieldName::Addr, Value::Bytes(vec![0; 16])),
        (FieldName::MPort, Value::U8(80)),
    ]);
    assert_eq!(
        IPv6Address::from_value(&bad_port),
        Err(AddressError::FieldExtraction(
            FieldName::MPort,
            ValueKind::U16
        ))
    );
}

#[test]
fn port_error_precedes_length_error() {
    let doc = Value::Object(vec![
        (FieldName::Addr, Value::Bytes(vec![0; 15])),
        (FieldName::MPort, Value::U8(80)),
    ]);
    assert_eq!(
        IPv6Address::from_value(&doc),
        Err(AddressError::FieldExtraction(
            FieldName::MPort,
            ValueKind::U16
        ))
    );
}

#[test]
fn encode_emits_two_field_document() {
    let a = NetworkAddress::IPv4(IPv4Address {
        m_ip: 0xdeadbeef,
        m_port: 4444,
    });
    let doc = a.encode();
    match doc {
        Value::Object(outer) => {
            assert_eq!(outer.len(), 2);
            assert!(matches!(outer[0], (FieldName::Type, Value::U8(1))));
            match &outer[1] {
                (FieldName::Addr, Value::Object(inner)) => {
                    assert_eq!(inner.len(), 2);
                    assert!(matches!(
                        inner[0],
                        (FieldName::MIp, Value::U32(0xdeadbeef))
                    ));
                    assert!(matches!(inner[1], (FieldName::MPort, Value::U16(4444))));
                }
                other => panic!("unexpected addr entry: {:?}", other),
            }
        }
        other => panic!("expected an object, got {:?}", other),
    }
}

#[test]
fn encode_emits_ipv6_bytes() {
    let addr: [u8; 16] = [9; 16];
    let a = NetworkAddress::IPv6(IPv6Address { addr, m_port: 1 });
    let doc = a.encode();
    match doc {
        Value::Object(outer) => {
            assert!(matches!(outer[0], (FieldName::Type, Value::U8(2))));
            match &outer[1] {
                (FieldName::Addr, Value::Object(inner)) => match &inner[0] {
                    (FieldName::Addr, Value::Bytes(b)) => assert_eq!(b.as_slice(), &addr),
                    other => panic!("unexpected byte entry: {:?}", other),
                },
                other => panic!("unexpected addr entry: {:?}", other),
            }
        }
        other => panic!("expected an object, got {:?}", other),
    }
}

#[test]
fn address_equality() {
    let a = NetworkAddress::IPv6(IPv6Address {
        addr: [1; 16],
        m_port: 5,
    });
    let b = NetworkAddress::IPv6(IPv6Address {
        addr: [1; 16],
        m_port: 5,
    });
    let c = NetworkAddress::IPv6(IPv6Address {
        addr: [2; 16],
        m_port: 5,
    });
    let d = NetworkAddress::IPv4(IPv4Address { m_ip: 1, m_port: 5 });
    assert_eq!(a, b);
    assert_ne!(a, c);
    assert_ne!(a, d);
}
