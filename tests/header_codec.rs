use mdns::codec::{decode, encode, HEADER_LEN};
use mdns::header::{ErrorCode, Flags, Header, OpCode};
use mdns::parser::ParseError;
use mdns::{MDNS_LINK_LOCAL_IPV4_BITS, MDNS_LINK_LOCAL_IPV6_BITS, MDNS_LINK_LOCAL_PORT};

const QUERY_BYTES: [u8; 12] = [
    0x12, 0x34, 0x01, 0x00, 0x00, 0x01, 0x00, 0x00, 0x00, 0x00, 0x00, 0x00,
];

fn header_with(op_code: OpCode, status: ErrorCode, flag_bits: u8) -> Header {
    Header {
        id: 0xBEEF,
        op_code,
        status,
        flags: Flags::from_bits_truncate(flag_bits),
        question_count: 1,
        answer_count: 0x0203,
        auth_count: 0xFFFF,
        additional_count: 0x8000,
    }
}

fn unsupported(r: Result<Header, ParseError>) -> (String, String) {
    match r {
        Err(ParseError::UnsupportedValue { value, kind }) => (value, kind),
        other => panic!("expected UnsupportedValue, got {:?}", other),
    }
}

#[test]
fn decode_standard_query() {
    let h = decode(&QUERY_BYTES).unwrap();
    let mut rd = Flags::empty();
    rd.insert(Flags::RD);
    let expected = Header {
        id: 0x1234,
        op_code: OpCode::Query,
        status: ErrorCode::NoError,
        flags: rd,
        question_count: 1,
        answer_count: 0,
        auth_count: 0,
        additional_count: 0,
    };
    assert_eq!(h, expected);
    assert_eq!(encode(&h), QUERY_BYTES);
}

#[test]
fn decode_rejects_response_code_eleven() {
    let mut bytes = [0u8; 12];
    bytes[2] = 0x00;
    bytes[3] = 0x0B;
    let (value, kind) = unsupported(decode(&bytes));
    assert_eq!(value, "11");
    assert_eq!(kind, "ErrorCode");
}

#[test]
fn decode_rejects_eleven_bytes() {
    let bytes = [0u8; 11];
    assert!(matches!(decode(&bytes), Err(ParseError::NotEnoughBytes(12, 11))));
}

#[test]
fn decode_rejects_short_buffers() {
    for n in 0..HEADER_LEN {
        let bytes = vec![0u8; n];
        match decode(&bytes) {
            Err(ParseError::NotEnoughBytes(need, have)) => {
                assert_eq!(need, 12);
                assert_eq!(have, n);
            }
            other => panic!("expected NotEnoughBytes, got {:?}", other),
        }
    }
}

#[test]
fn decode_reads_only_the_header() {
    let mut bytes = QUERY_BYTES.to_vec();
    bytes.extend_from_slice(&[0xAA, 0xBB, 0xCC]);
    assert_eq!(decode(&bytes).unwrap(), decode(&QUERY_BYTES).unwrap());
}

#[test]
fn decode_rejects_unassigned_op_codes() {
    for op in [3u8, 6, 7, 8, 15] {
        let mut bytes = QUERY_BYTES;
        bytes[2] = op << 3;
        let (value, kind) = unsupported(decode(&bytes));
        assert_eq!(value, op.to_string());
        assert_eq!(kind, "OpCode");
    }
}

#[test]
fn decode_rejects_every_large_response_code() {
    for rcode in 11u8..16 {
        for z in [0x00u8, 0x70, 0xF0] {
            let mut bytes = QUERY_BYTES;
            bytes[3] = z | rcode;
            let (value, kind) = unsupported(decode(&bytes));
            assert_eq!(value, rcode.to_string());
            assert_eq!(kind, "ErrorCode");
        }
    }
}

#[test]
fn op_code_error_comes_before_response_code_error() {
    let mut bytes = QUERY_BYTES;
    bytes[2] = 3 << 3;
    bytes[3] = 0x0B;
    let (value, kind) = unsupported(decode(&bytes));
    assert_eq!(value, "3");
    assert_eq!(kind, "OpCode");
}

#[test]
fn flags_render_in_fixed_order() {
    assert_eq!(Flags::from_bits_truncate(Flags::QR | Flags::RD).to_string(), " qr rd");
    assert_eq!(Flags::from_bits_truncate(Flags::RD | Flags::QR).to_string(), " qr rd");
    assert_eq!(Flags::from_bits_truncate(0).to_string(), "");
    assert_eq!(Flags::empty().to_string(), "");
    assert_eq!(Flags::from_bits_truncate(0xFF).to_string(), " qr aa tc rd ra");
    assert_eq!(Flags::from_bits_truncate(Flags::RA).to_string(), " ra");
}

#[test]
fn flags_equal_by_bits() {
    let mut a = Flags::empty();
    a.insert(Flags::RD);
    a.insert(Flags::QR);
    let mut b = Flags::empty();
    b.insert(Flags::QR);
    b.insert(Flags::RD);
    assert_eq!(a, b);
    assert_eq!(a.bits(), 0b0001_0010);
    assert_ne!(a, Flags::from_bits_truncate(Flags::QR));
}

#[test]
fn flags_drop_undefined_bits() {
    assert_eq!(Flags::from_bits_truncate(0xFF).bits(), 0x1F);
    assert_eq!(Flags::from_bits_truncate(0xE0).bits(), 0);
    let mut f = Flags::empty();
    f.insert(0xE2);
    assert_eq!(f.bits(), Flags::RD);
}

#[test]
fn flags_insert_remove_contains() {
    let mut f = Flags::empty();
    assert!(!f.contains(Flags::AA));
    f.insert(Flags::AA | Flags::TC);
    assert!(f.contains(Flags::AA));
    assert!(f.contains(Flags::TC));
    assert!(f.contains(Flags::AA | Flags::TC));
    assert!(!f.contains(Flags::AA | Flags::RA));
    f.remove(Flags::AA);
    assert!(!f.contains(Flags::AA));
    assert!(f.contains(Flags::TC));
    assert_eq!(f.bits(), Flags::TC);
}

#[test]
fn round_trip_every_code_pair() {
    let ops = [OpCode::Query, OpCode::Iquery, OpCode::Status, OpCode::Notify, OpCode::Update];
    for op in ops {
        for v in 0u8..=10 {
            let status = ErrorCode::from_u8(v).unwrap();
            for bits in [0u8, 0x01, 0x02, 0x04, 0x08, 0x10, 0x15, 0x1F] {
                let h = header_with(op, status, bits);
                assert_eq!(decode(&encode(&h)).unwrap(), h);
            }
        }
    }
}

#[test]
fn encode_packs_fields() {
    let h = header_with(OpCode::Update, ErrorCode::NotZone, 0x1F);
    assert_eq!(
        encode(&h),
        [0xBE, 0xEF, 0xAF, 0x8A, 0x00, 0x01, 0x02, 0x03, 0xFF, 0xFF, 0x80, 0x00]
    );
    let h = header_with(OpCode::Notify, ErrorCode::NXDomain, Flags::QR | Flags::AA);
    assert_eq!(encode(&h)[2], 0xA4);
    assert_eq!(encode(&h)[3], 0x03);
}

#[test]
fn decode_reads_every_flag() {
    let mut bytes = QUERY_BYTES;
    bytes[2] = 0x87;
    bytes[3] = 0x80;
    let h = decode(&bytes).unwrap();
    assert_eq!(h.flags.bits(), 0x1F);
    assert_eq!(h.flags.to_string(), " qr aa tc rd ra");
    bytes[2] = 0x04;
    bytes[3] = 0x00;
    assert_eq!(decode(&bytes).unwrap().flags.to_string(), " aa");
    bytes[2] = 0x02;
    assert_eq!(decode(&bytes).unwrap().flags.to_string(), " tc");
}

#[test]
fn reserved_bits_are_dropped() {
    let mut bytes = QUERY_BYTES;
    bytes[3] = 0x70 | 0x03;
    let h = decode(&bytes).unwrap();
    assert_eq!(h.status, ErrorCode::NXDomain);
    assert_eq!(h.flags.bits(), Flags::RD);
    let again = encode(&h);
    assert_eq!(again[3], 0x03);
}

#[test]
fn decode_reads_counts_big_endian() {
    let bytes = [0xAB, 0xCD, 0x28, 0x05, 0x01, 0x02, 0x03, 0x04, 0x05, 0x06, 0xFF, 0xFE];
    let h = decode(&bytes).unwrap();
    assert_eq!(h.id, 0xABCD);
    assert_eq!(h.op_code, OpCode::Update);
    assert_eq!(h.status, ErrorCode::Refused);
    assert_eq!(h.question_count, 0x0102);
    assert_eq!(h.answer_count, 0x0304);
    assert_eq!(h.auth_count, 0x0506);
    assert_eq!(h.additional_count, 0xFFFE);
}

#[test]
fn op_code_values_and_names() {
    let cases = [
        (OpCode::Query, 0u8, "QUERY"),
        (OpCode::Iquery, 1, "IQUERY"),
        (OpCode::Status, 2, "STATUS"),
        (OpCode::Notify, 4, "NOTIFY"),
        (OpCode::Update, 5, "UPDATE"),
    ];
    for (c, v, name) in cases {
        assert_eq!(c.to_u8(), v);
        assert_eq!(u8::from(c), v);
        assert_eq!(OpCode::from_u8(v).unwrap(), c);
        assert_eq!(c.to_string(), name);
    }
}

#[test]
fn op_code_from_u8_accepts_only_registry_values() {
    for v in 0u8..=255 {
        let ok = OpCode::from_u8(v).is_ok();
        assert_eq!(ok, matches!(v, 0 | 1 | 2 | 4 | 5), "value {}", v);
    }
    match OpCode::from_u8(200) {
        Err(ParseError::UnsupportedValue { value, kind }) => {
            assert_eq!(value, "200");
            assert_eq!(kind, "OpCode");
        }
        other => panic!("unexpected {:?}", other),
    }
}

#[test]
fn error_code_values_and_names() {
    let names = [
        "NOERROR", "FORMERR", "SERVFAIL", "NXDOMAIN", "NOTIMP", "REFUSED", "YXDOMAIN",
        "YXRRSET", "NXRRSET", "NOTAUTH", "NOTZONE",
    ];
    for v in 0u8..=10 {
        let c = ErrorCode::from_u8(v).unwrap();
        assert_eq!(c.to_u8(), v);
        assert_eq!(u8::from(c), v);
        assert_eq!(c.to_string(), names[v as usize]);
    }
    assert_eq!(u8::from(ErrorCode::NotZone), 10);
    assert_eq!(ErrorCode::NotImp.to_string(), "NOTIMP");
}

#[test]
fn error_code_from_u8_rejects_large_values() {
    for v in 11u8..=255 {
        match ErrorCode::from_u8(v) {
            Err(ParseError::UnsupportedValue { value, kind }) => {
                assert_eq!(value, v.to_string());
                assert_eq!(kind, "ErrorCode");
            }
            other => panic!("unexpected {:?}", other),
        }
    }
}

#[test]
fn unsupported_error_carries_value_and_kind() {
    match ParseError::unsupported(7, "OpCode") {
        ParseError::UnsupportedValue { value, kind } => {
            assert_eq!(value, "7");
            assert_eq!(kind, "OpCode");
        }
        other => panic!("unexpected {:?}", other),
    }
    match ParseError::unsupported(0, "ErrorCode") {
        ParseError::UnsupportedValue { value, .. } => assert_eq!(value, "0"),
        other => panic!("unexpected {:?}", other),
    }
}

#[test]
fn mdns_constants() {
    assert_eq!(MDNS_LINK_LOCAL_PORT, 5353);
    assert_eq!(MDNS_LINK_LOCAL_IPV4_BITS.to_be_bytes(), [224, 0, 0, 251]);
    let segments = MDNS_LINK_LOCAL_IPV6_BITS.to_be_bytes();
    assert_eq!(&segments[..2], &[0xFF, 0x02]);
    assert_eq!(segments[15], 0xFB);
    assert!(segments[2..15].iter().all(|b| *b == 0));
}
