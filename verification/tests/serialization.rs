use bencode_ser::{to_bytes, Error, Serializer, Value};

fn case(value: Value, want: &[u8]) {
    match to_bytes(&value) {
        Ok(have) => assert_eq!(have.as_slice(), want),
        Err(_) => panic!("serialization failed"),
    }
}

#[test]
fn bool() {
    case(Value::Bool(true), b"i1e");
    case(Value::Bool(false), b"i0e");
}

#[test]
fn u8() {
    case(Value::U8(0), b"i0e");
    case(Value::U8(100), b"i100e");
}

#[test]
fn newtype_variant() {
    let mut a = Serializer::new();
    a.serialize_newtype_variant("Foo", 0, "A", &Value::U8(0)).unwrap();
    assert_eq!(a.finish().unwrap().as_slice(), b"d1:Ai0ee");

    let mut b = Serializer::new();
    b.serialize_newtype_variant("Foo", 1, "B", &Value::U8(10)).unwrap();
    assert_eq!(b.finish().unwrap().as_slice(), b"d1:Bi10ee");
}

#[test]
fn signed_widths() {
    case(Value::I8(-128), b"i-128e");
    case(Value::I8(127), b"i127e");
    case(Value::I16(-32768), b"i-32768e");
    case(Value::I32(-2147483648), b"i-2147483648e");
    case(Value::I64(i64::MIN), b"i-9223372036854775808e");
    case(Value::I64(-1), b"i-1e");
}

#[test]
fn unsigned_widths() {
    case(Value::U16(65535), b"i65535e");
    case(Value::U32(4294967295), b"i4294967295e");
    case(Value::U64(u64::MAX), b"i18446744073709551615e");
    case(Value::U64(0), b"i0e");
}

#[test]
fn chars_are_code_points() {
    case(Value::Char('A'), b"i65e");
    case(Value::Char('\u{20ac}'), b"i8364e");
    case(Value::Char('\0'), b"i0e");
}

#[test]
fn strings_and_bytes() {
    let mut s = Serializer::new();
    s.serialize_str("spam").unwrap();
    assert_eq!(s.finish().unwrap().as_slice(), b"4:spam");

    let mut empty = Serializer::new();
    empty.serialize_str("").unwrap();
    assert_eq!(empty.finish().unwrap().as_slice(), b"0:");

    let mut raw = Serializer::new();
    raw.serialize_bytes(&[0u8, 255u8]).unwrap();
    assert_eq!(raw.finish().unwrap(), vec![b'2', b':', 0u8, 255u8]);

    case(Value::Str(b"spam".to_vec()), b"4:spam");
    case(Value::Bytes(vec![]), b"0:");
}

#[test]
fn floats_are_little_endian_byte_strings() {
    let mut s = Serializer::new();
    s.serialize_f32(1.0f32.to_le_bytes()).unwrap();
    let mut want32 = vec![b'4', b':'];
    want32.extend_from_slice(&[0u8, 0u8, 128u8, 63u8]);
    assert_eq!(s.finish().unwrap(), want32);

    let mut d = Serializer::new();
    d.serialize_f64(1.0f64.to_le_bytes()).unwrap();
    let mut want64 = vec![b'8', b':'];
    want64.extend_from_slice(&[0u8, 0u8, 0u8, 0u8, 0u8, 0u8, 240u8, 63u8]);
    assert_eq!(d.finish().unwrap(), want64);

    case(Value::F32Le((-2.5f32).to_le_bytes()), &{
        let mut want = vec![b'4', b':'];
        want.extend_from_slice(&(-2.5f32).to_le_bytes());
        want
    });
}

#[test]
fn absence_and_unit_are_the_empty_list() {
    case(Value::Opt(None), b"le");
    case(Value::Unit, b"le");
    case(Value::UnitStruct, b"le");

    let mut s = Serializer::new();
    s.serialize_none().unwrap();
    assert_eq!(s.finish().unwrap().as_slice(), b"le");

    let mut u = Serializer::new();
    u.serialize_unit().unwrap();
    assert_eq!(u.finish().unwrap().as_slice(), b"le");

    let mut n = Serializer::new();
    n.serialize_unit_struct("Marker").unwrap();
    assert_eq!(n.finish().unwrap().as_slice(), b"le");
}

#[test]
fn some_is_a_one_element_list() {
    case(Value::Opt(Some(Box::new(Value::U8(1)))), b"li1ee");
    case(
        Value::Opt(Some(Box::new(Value::Opt(Some(Box::new(Value::U8(2))))))),
        b"lli2eee",
    );

    let mut s = Serializer::new();
    s.serialize_some(&Value::Str(b"ok".to_vec())).unwrap();
    assert_eq!(s.finish().unwrap().as_slice(), b"l2:oke");
}

#[test]
fn unit_variant_is_its_name() {
    let mut s = Serializer::new();
    s.serialize_unit_variant("Direction", 0, "North").unwrap();
    assert_eq!(s.finish().unwrap().as_slice(), b"5:North");

    case(Value::UnitVariant(b"North".to_vec()), b"5:North");
}

#[test]
fn newtype_struct_is_transparent() {
    let mut s = Serializer::new();
    s.serialize_newtype_struct("Wrapper", &Value::U8(7)).unwrap();
    assert_eq!(s.finish().unwrap().as_slice(), b"i7e");

    case(Value::NewtypeStruct(Box::new(Value::Bool(true))), b"i1e");
}

#[test]
fn newtype_variant_nests() {
    case(
        Value::NewtypeVariant(
            b"Outer".to_vec(),
            Box::new(Value::NewtypeVariant(b"Inner".to_vec(), Box::new(Value::U8(3)))),
        ),
        b"d5:Outerd5:Inneri3eee",
    );
    case(
        Value::NewtypeVariant(b"Zz".to_vec(), Box::new(Value::Str(b"spam".to_vec()))),
        b"d2:Zz4:spame",
    );
    case(
        Value::NewtypeVariant(b"Opt".to_vec(), Box::new(Value::Opt(None))),
        b"d3:Optlee",
    );
}

#[test]
fn emit_list_keeps_order() {
    let mut s = Serializer::new();
    let items = vec![Value::U8(1), Value::U8(2), Value::U8(3)];
    s.emit_list(&items).unwrap();
    assert_eq!(s.finish().unwrap().as_slice(), b"li1ei2ei3ee");
}

#[test]
fn emit_dict_single_pair() {
    let mut s = Serializer::new();
    s.emit_dict(b"k", &Value::U8(1)).unwrap();
    assert_eq!(s.finish().unwrap().as_slice(), b"d1:ki1ee");
}

#[test]
fn shared_mode_streams_many_values() {
    let mut s = Serializer::new();
    s.serialize_u8(1).unwrap();
    s.serialize_u8(2).unwrap();
    s.serialize_bool(true).unwrap();
    assert_eq!(s.finish().unwrap().as_slice(), b"i1ei2ei1e");
}

#[test]
fn single_sink_consumes_on_first_emit() {
    let mut s = Serializer::new_single();
    assert!(s.is_available());
    s.serialize_u8(5).unwrap();
    assert!(!s.is_available());
    assert_eq!(s.finish().unwrap().as_slice(), b"i5e");
}

#[test]
fn serializing_twice_is_byte_identical() {
    let value = Value::NewtypeVariant(
        b"Pair".to_vec(),
        Box::new(Value::Opt(Some(Box::new(Value::I32(-42))))),
    );
    let first = to_bytes(&value).unwrap();
    let second = to_bytes(&value).unwrap();
    assert_eq!(first, second);
    assert_eq!(first.as_slice(), b"d4:Pairli-42eee");
}

#[test]
fn deep_nesting_still_encodes() {
    let mut value = Value::U8(9);
    for _ in 0..2500 {
        value = Value::Opt(Some(Box::new(value)));
    }
    let out = to_bytes(&value).unwrap();
    assert_eq!(out.len(), 2500 * 2 + 3);
    assert_eq!(out[0], b'l');
    assert_eq!(&out[2500..2503], b"i9e");
    assert_eq!(out[out.len() - 1], b'e');
}

#[test]
fn error_custom_keeps_the_message() {
    let err = Error::custom(String::from("boom"));
    assert_eq!(err.description(), "boom");
    assert!(matches!(err, Error::Message(_)));
}

#[test]
fn error_wraps_encoder_failures() {
    let bendy_err = bendy::encoding::Encoder::new()
        .emit_with(|_| Ok(()))
        .unwrap_err();
    let err = Error::from(bendy_err);
    assert!(matches!(err, Error::Encoding(_)));
    assert_eq!(err.description(), "encoding");
}

#[test]
fn strings_use_utf8_bytes() {
    let mut s = Serializer::new();
    s.serialize_str("caf\u{e9}").unwrap();
    let mut want = vec![b'5', b':'];
    want.extend_from_slice("caf\u{e9}".as_bytes());
    assert_eq!(s.finish().unwrap(), want);
    assert_eq!(want, vec![b'5', b':', b'c', b'a', b'f', 195u8, 169u8]);
}
