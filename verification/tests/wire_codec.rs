use commander::error::DecodeError;
use commander::flags::{BrigadierFlags, EntitySelector, MinMax, ScoreHolderSelector};
use commander::wire::{
    decode_bool, decode_string, decode_varint, encode_string, encode_varint, varint_size,
};

#[test]
fn protocol_test_bit_persistence() {
    let flags = BrigadierFlags {
        node_literal: false,
        node_argument: true,
        executable: true,
        has_redirect: true,
        has_suggestions_type: false,
    };
    let mut encoder: Vec<u8> = Vec::new();
    flags.encode(&mut encoder);
    assert_eq!(
        flags,
        BrigadierFlags::decode(&encoder, 0)
            .expect("Brigadier flags should decode.")
            .0
    );
}

#[test]
fn types_test_bit_persistence() {
    let flags = BrigadierFlags {
        node_literal: false,
        node_argument: true,
        executable: true,
        has_redirect: true,
        has_suggestions_type: false,
    };
    let mut encoder: Vec<u8> = Vec::new();
    flags.encode(&mut encoder);
    assert_eq!(
        flags,
        BrigadierFlags::decode(&encoder, 0)
            .expect("Brigadier flags should decode.")
            .0
    );
}

#[test]
fn flags_round_trip_all_combinations() {
    for bits in 0u8..32 {
        let flags = BrigadierFlags::new(
            bits & 0x01 != 0,
            bits & 0x02 != 0,
            bits & 0x04 != 0,
            bits & 0x08 != 0,
            bits & 0x10 != 0,
        );
        let mut buf: Vec<u8> = Vec::new();
        flags.encode(&mut buf);
        assert_eq!(buf, vec![bits]);
        let (decoded, end) = BrigadierFlags::decode(&buf, 0).unwrap();
        assert_eq!(end, 1);
        assert_eq!(decoded, flags);
    }
}

#[test]
fn flags_byte_layout() {
    let flags = BrigadierFlags::new(false, true, true, true, false);
    let mut buf: Vec<u8> = Vec::new();
    flags.encode(&mut buf);
    assert_eq!(buf, vec![0x0e]);
    assert!(!flags.is_root());
    assert!(!flags.is_literal());
    assert!(flags.is_argument());
    let root = BrigadierFlags::new(false, false, false, false, false);
    assert!(root.is_root());
}

#[test]
fn minmax_round_trip() {
    for bits in 0u8..4 {
        let f = MinMax::new(bits & 1 != 0, bits & 2 != 0);
        let mut buf: Vec<u8> = Vec::new();
        f.encode(&mut buf);
        assert_eq!(buf, vec![bits]);
        assert_eq!(MinMax::from_byte(buf[0]), f);
    }
}

#[test]
fn selector_round_trips() {
    let e = EntitySelector::new(true, false);
    let mut buf: Vec<u8> = Vec::new();
    e.encode(&mut buf);
    assert_eq!(EntitySelector::from_byte(buf[0]), e);
    let s = ScoreHolderSelector::new(true);
    let mut buf: Vec<u8> = Vec::new();
    s.encode(&mut buf);
    assert_eq!(ScoreHolderSelector::from_byte(buf[0]), s);
}

#[test]
fn varint_exact_bytes() {
    let cases: Vec<(u32, Vec<u8>)> = vec![
        (0, vec![0x00]),
        (1, vec![0x01]),
        (127, vec![0x7f]),
        (128, vec![0x80, 0x01]),
        (300, vec![0xac, 0x02]),
        (2147483647, vec![0xff, 0xff, 0xff, 0xff, 0x07]),
        (u32::MAX, vec![0xff, 0xff, 0xff, 0xff, 0x0f]),
    ];
    for (value, expected) in cases {
        let mut buf: Vec<u8> = Vec::new();
        encode_varint(value, &mut buf);
        assert_eq!(buf, expected, "encoding of {}", value);
        assert_eq!(varint_size(value), expected.len() as u64);
        let (decoded, end) = decode_varint(&buf, 0).unwrap();
        assert_eq!(decoded, value);
        assert_eq!(end, expected.len());
    }
}

#[test]
fn varint_decode_errors() {
    assert_eq!(decode_varint(&[], 0), Err(DecodeError::UnexpectedEnd));
    assert_eq!(decode_varint(&[0x80], 0), Err(DecodeError::UnexpectedEnd));
    assert_eq!(
        decode_varint(&[0xff, 0xff, 0xff, 0xff, 0x7f], 0),
        Err(DecodeError::VarIntTooLarge)
    );
}

#[test]
fn varint_decode_mid_buffer() {
    let buf = vec![0x05, 0xac, 0x02, 0x07];
    let (v, end) = decode_varint(&buf, 1).unwrap();
    assert_eq!(v, 300);
    assert_eq!(end, 3);
}

#[test]
fn string_round_trip() {
    let mut buf: Vec<u8> = Vec::new();
    encode_string(b"abc", &mut buf);
    assert_eq!(buf, vec![3, 97, 98, 99]);
    let (s, end) = decode_string(&buf, 0).unwrap();
    assert_eq!(s, b"abc".to_vec());
    assert_eq!(end, 4);

    let mut buf: Vec<u8> = Vec::new();
    encode_string(b"", &mut buf);
    assert_eq!(buf, vec![0]);
    let (s, end) = decode_string(&buf, 0).unwrap();
    assert!(s.is_empty());
    assert_eq!(end, 1);
}

#[test]
fn string_decode_errors() {
    // Length prefix of 32768: over the bound.
    assert_eq!(
        decode_string(&[0x80, 0x80, 0x02], 0),
        Err(DecodeError::StringTooLong)
    );
    // Length prefix of 3, but only two bytes follow.
    assert_eq!(
        decode_string(&[0x03, 97, 98], 0),
        Err(DecodeError::UnexpectedEnd)
    );
}

#[test]
fn bool_decode() {
    assert_eq!(decode_bool(&[0], 0), Ok((false, 1)));
    assert_eq!(decode_bool(&[1], 0), Ok((true, 1)));
    assert_eq!(decode_bool(&[2], 0), Err(DecodeError::InvalidBool));
    assert_eq!(decode_bool(&[], 0), Err(DecodeError::UnexpectedEnd));
}
