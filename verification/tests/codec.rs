//! Round-trip, determinism, truncation and trailing-byte behaviour of the
//! message codec, on concrete values.

use nanonis_rs::{decode_body, encode_body, NanonisError, NanonisValue, TypeCode};

fn enc(vals: Vec<NanonisValue>, codes: Vec<TypeCode>) -> Vec<u8> {
    encode_body(&vals, &codes).expect("encoding failed")
}

fn assert_round_trip(vals: Vec<NanonisValue>, codes: Vec<TypeCode>) {
    let body = enc(vals.clone(), codes.clone());
    let back = decode_body(&body, &codes).expect("decoding failed");
    assert_eq!(format!("{:?}", back), format!("{:?}", vals));
}

#[test]
fn round_trip_scalars() {
    assert_round_trip(
        vec![
            NanonisValue::U16(0),
            NanonisValue::U16(65535),
            NanonisValue::I16(-17),
            NanonisValue::U32(3_000_000_000),
            NanonisValue::I32(-123456),
            NanonisValue::F32(1.5f32.to_bits()),
            NanonisValue::F64((-2.25f64).to_bits()),
        ],
        vec![
            TypeCode::U16,
            TypeCode::U16,
            TypeCode::I16,
            TypeCode::U32,
            TypeCode::I32,
            TypeCode::F32,
            TypeCode::F64,
        ],
    );
}

#[test]
fn round_trip_strings() {
    assert_round_trip(
        vec![
            NanonisValue::String(String::new()),
            NanonisValue::String("hello".to_string()),
            NanonisValue::String("héllo \u{65E5}\u{672C}\u{8A9E} \u{1F600}".to_string()),
        ],
        vec![TypeCode::Str, TypeCode::Str, TypeCode::Str],
    );
}

#[test]
fn round_trip_size_by_context_string() {
    // "*-c" takes its byte length from the preceding integer field
    let s = "caf\u{E9}".to_string();
    let blen = s.as_bytes().len() as i32;
    assert_round_trip(
        vec![NanonisValue::I32(blen), NanonisValue::String(s)],
        vec![TypeCode::I32, TypeCode::StrPrev],
    );
}

#[test]
fn round_trip_arrays() {
    assert_round_trip(
        vec![
            NanonisValue::ArrayU8(vec![]),
            NanonisValue::ArrayU16(vec![7]),
            NanonisValue::ArrayI16(vec![-1, 0, 1]),
            NanonisValue::ArrayU32(vec![0, u32::MAX]),
            NanonisValue::ArrayI32(vec![i32::MIN, i32::MAX]),
            NanonisValue::ArrayF32(vec![0.25f32.to_bits()]),
            NanonisValue::ArrayF64(vec![1.0f64.to_bits(), (-0.5f64).to_bits()]),
        ],
        vec![
            TypeCode::ArrU8,
            TypeCode::ArrU16,
            TypeCode::ArrI16,
            TypeCode::ArrU32,
            TypeCode::ArrI32,
            TypeCode::ArrF32,
            TypeCode::ArrF64,
        ],
    );
}

#[test]
fn round_trip_size_by_context_arrays() {
    assert_round_trip(
        vec![
            NanonisValue::I32(3),
            NanonisValue::ArrayF32(vec![
                1.0f32.to_bits(),
                2.0f32.to_bits(),
                3.0f32.to_bits(),
            ]),
            NanonisValue::U16(2),
            NanonisValue::ArrayI32(vec![-5, 5]),
        ],
        vec![
            TypeCode::I32,
            TypeCode::ArrF32Prev,
            TypeCode::U16,
            TypeCode::ArrI32Prev,
        ],
    );
}

#[test]
fn round_trip_string_array() {
    assert_round_trip(
        vec![
            NanonisValue::I32(3),
            NanonisValue::ArrayString(vec![
                "one".to_string(),
                String::new(),
                "dr\u{129}e".to_string(),
            ]),
        ],
        vec![TypeCode::I32, TypeCode::StrArrayPrev],
    );
}

#[test]
fn round_trip_matrix() {
    // 2 x 3 matrix of f32 bit patterns, row-major
    let m = vec![
        vec![1.0f32.to_bits(), 2.0f32.to_bits(), 3.0f32.to_bits()],
        vec![4.0f32.to_bits(), 5.0f32.to_bits(), 6.0f32.to_bits()],
    ];
    let body = enc(
        vec![NanonisValue::Array2DF32(m.clone())],
        vec![TypeCode::Arr2DF32],
    );
    // 4-byte row count, 4-byte column count, then 6 elements of 4 bytes
    assert_eq!(body.len(), 8 + 24);
    assert_eq!(&body[0..8], &[0, 0, 0, 2, 0, 0, 0, 3]);
    let back = decode_body(&body, &vec![TypeCode::Arr2DF32]).expect("decoding failed");
    match &back[0] {
        NanonisValue::Array2DF32(got) => {
            assert_eq!(got.len(), 2);
            assert_eq!(got[0].len(), 3);
            assert_eq!(got, &m);
            assert_eq!(f32::from_bits(got[1][2]), 6.0);
        }
        other => panic!("wrong tag: {:?}", other),
    }
}

#[test]
fn matrix_zero_rows_encodes_as_zero_prefixes() {
    let body = enc(
        vec![NanonisValue::Array2DF32(vec![])],
        vec![TypeCode::Arr2DF32],
    );
    assert_eq!(body, vec![0, 0, 0, 0, 0, 0, 0, 0]);
    let back = decode_body(&body, &vec![TypeCode::Arr2DF32]).expect("decoding failed");
    match &back[0] {
        NanonisValue::Array2DF32(got) => assert_eq!(got.len(), 0),
        other => panic!("wrong tag: {:?}", other),
    }
}

#[test]
fn ragged_matrix_is_rejected() {
    let m = vec![vec![1, 2, 3], vec![4, 5]];
    let r = encode_body(
        &vec![NanonisValue::Array2DF32(m)],
        &vec![TypeCode::Arr2DF32],
    );
    assert!(matches!(r, Err(NanonisError::InvalidInput(_))));
}

#[test]
fn encoding_is_deterministic() {
    let vals = vec![
        NanonisValue::String("same".to_string()),
        NanonisValue::U32(99),
        NanonisValue::ArrayI16(vec![3, 2, 1]),
    ];
    let codes = vec![TypeCode::Str, TypeCode::U32, TypeCode::ArrI16];
    let a = enc(vals.clone(), codes.clone());
    let b = enc(vals, codes);
    assert_eq!(a, b);
}

#[test]
fn tag_mismatch_fails_before_any_byte() {
    let r = encode_body(
        &vec![NanonisValue::U16(1), NanonisValue::I32(2)],
        &vec![TypeCode::U16, TypeCode::F64],
    );
    assert!(matches!(r, Err(NanonisError::InvalidInput(_))));
}

#[test]
fn length_mismatch_is_rejected() {
    let r = encode_body(&vec![NanonisValue::U16(1)], &vec![]);
    assert!(matches!(r, Err(NanonisError::InvalidInput(_))));
}

#[test]
fn truncated_bodies_fail() {
    let vals = vec![
        NanonisValue::String("truncate me".to_string()),
        NanonisValue::I32(2),
        NanonisValue::ArrayU16(vec![10, 20]),
    ];
    let codes = vec![TypeCode::Str, TypeCode::I32, TypeCode::ArrU16];
    let body = enc(vals, codes.clone());
    for cut in [0, 1, 3, 4, 7, body.len() / 2, body.len() - 1] {
        let short: Vec<u8> = body[..cut].to_vec();
        let r = decode_body(&short, &codes);
        assert!(
            matches!(r, Err(NanonisError::Protocol(_))),
            "cut at {} did not fail",
            cut
        );
    }
}

#[test]
fn trailing_bytes_fail() {
    let vals = vec![NanonisValue::U32(5)];
    let codes = vec![TypeCode::U32];
    let mut body = enc(vals, codes.clone());
    body.push(0);
    let r = decode_body(&body, &codes);
    assert!(matches!(r, Err(NanonisError::Protocol(_))));
}

#[test]
fn invalid_utf8_fails() {
    // declared length 2, bytes are not UTF-8
    let body = vec![0, 0, 0, 2, 0xFF, 0xFE];
    let r = decode_body(&body, &vec![TypeCode::Str]);
    assert!(matches!(r, Err(NanonisError::Protocol(_))));
}

#[test]
fn negative_size_prefix_fails() {
    // the size prefix is signed on the wire: 0x80000000 is negative
    let body = vec![0x80, 0, 0, 0];
    let r = decode_body(&body, &vec![TypeCode::Str]);
    assert!(matches!(r, Err(NanonisError::Protocol(_))));
}

#[test]
fn size_by_context_without_integer_fails() {
    let body = vec![1, 2];
    let r = decode_body(&body, &vec![TypeCode::StrPrev]);
    assert!(matches!(r, Err(NanonisError::Protocol(_))));
}

#[test]
fn big_endian_layout_is_exact() {
    let body = enc(
        vec![NanonisValue::U16(0x1234), NanonisValue::U32(0xDEADBEEF)],
        vec![TypeCode::U16, TypeCode::U32],
    );
    assert_eq!(body, vec![0x12, 0x34, 0xDE, 0xAD, 0xBE, 0xEF]);
}

#[test]
fn string_encoding_is_length_prefixed_utf8() {
    let body = enc(
        vec![NanonisValue::String("ab\u{E9}".to_string())],
        vec![TypeCode::Str],
    );
    assert_eq!(body, vec![0, 0, 0, 4, b'a', b'b', 0xC3, 0xA9]);
}

#[test]
fn accessor_mismatch_is_a_type_error() {
    let v = NanonisValue::U16(3);
    assert!(matches!(v.as_i32(), Err(NanonisError::Type(_))));
    assert_eq!(v.as_u16().unwrap(), 3);
}

#[test]
fn type_code_spellings_parse() {
    let table = [
        ("H", TypeCode::U16),
        ("h", TypeCode::I16),
        ("I", TypeCode::U32),
        ("i", TypeCode::I32),
        ("f", TypeCode::F32),
        ("d", TypeCode::F64),
        ("+*c", TypeCode::Str),
        ("*-c", TypeCode::StrPrev),
        ("*+c", TypeCode::StrArrayPrev),
        ("+*b", TypeCode::ArrU8),
        ("*f", TypeCode::ArrF32Prev),
        ("+*f", TypeCode::ArrF32),
        ("*i", TypeCode::ArrI32Prev),
        ("+*i", TypeCode::ArrI32),
        ("*+i", TypeCode::ArrI32Prev),
        ("*I", TypeCode::ArrU32Prev),
        ("*d", TypeCode::ArrF64Prev),
        ("+*d", TypeCode::ArrF64),
        ("2f", TypeCode::Arr2DF32),
    ];
    for (s, c) in table {
        assert_eq!(TypeCode::parse(s), Some(c), "spelling {:?}", s);
    }
    assert_eq!(TypeCode::parse(""), None);
    assert_eq!(TypeCode::parse("x"), None);
    assert_eq!(TypeCode::parse("2d"), None);
    assert_eq!(TypeCode::parse("+*x"), None);
    assert_eq!(TypeCode::parse("+*cc"), None);
}
