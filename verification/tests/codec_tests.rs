//! End-to-end checks of the wire codec: round trips, exact byte images,
//! and each decode error on the input that provokes it.

use uniffi_dart::codec::lift;
use uniffi_dart::codec::lower;
use uniffi_dart::codec::read_value;
use uniffi_dart::codec::size_value;
use uniffi_dart::codec::DecodeError;
use uniffi_dart::interface::FieldDesc;
use uniffi_dart::interface::ObjectImplKind;
use uniffi_dart::interface::TypeDesc;
use uniffi_dart::interface::VariantDesc;
use uniffi_dart::value::WireValue;

fn roundtrip(t: &TypeDesc, v: WireValue) {
    let bytes = lower(&v);
    assert_eq!(size_value(&v), bytes.len());
    let (back, used) = read_value(t, &bytes, 0).expect("decode");
    assert_eq!(back, v);
    assert_eq!(used, bytes.len());
}

#[test]
fn primitive_round_trips() {
    roundtrip(&TypeDesc::Boolean, WireValue::Bool(true));
    roundtrip(&TypeDesc::Boolean, WireValue::Bool(false));
    roundtrip(&TypeDesc::UInt8, WireValue::U8(0xab));
    roundtrip(&TypeDesc::Int8, WireValue::I8(-5));
    roundtrip(&TypeDesc::UInt16, WireValue::U16(0xbeef));
    roundtrip(&TypeDesc::Int16, WireValue::I16(-12345));
    roundtrip(&TypeDesc::UInt32, WireValue::U32(0xdead_beef));
    roundtrip(&TypeDesc::Int32, WireValue::I32(-123456789));
    roundtrip(&TypeDesc::UInt64, WireValue::U64(0x0123_4567_89ab_cdef));
    roundtrip(&TypeDesc::Int64, WireValue::I64(i64::MIN));
    roundtrip(&TypeDesc::Float32, WireValue::F32Bits(0x3f80_0000));
    roundtrip(&TypeDesc::Float64, WireValue::F64Bits(0x3ff0_0000_0000_0000));
    roundtrip(&TypeDesc::Str, WireValue::Text(String::from("grüß dich")));
    roundtrip(&TypeDesc::Bytes, WireValue::Blob(vec![0, 1, 2, 255]));
    roundtrip(&TypeDesc::Duration, WireValue::Dur { secs: 7, nanos: 999_999_999 });
}

#[test]
fn string_scenario_hello() {
    let bytes = lower(&WireValue::Text(String::from("hello")));
    assert_eq!(bytes, vec![0, 0, 0, 5, b'h', b'e', b'l', b'l', b'o']);
    let (v, used) = read_value(&TypeDesc::Str, &bytes, 0).expect("decode");
    assert_eq!(v, WireValue::Text(String::from("hello")));
    assert_eq!(used, 9);
}

#[test]
fn int32_sequence_scenario() {
    let t = TypeDesc::Sequence { inner: Box::new(TypeDesc::Int32) };
    let bytes = vec![0, 0, 0, 3, 0, 0, 0, 1, 0, 0, 0, 2, 0, 0, 0, 3];
    let (v, used) = lift(&t, &bytes).expect("decode");
    assert_eq!(
        v,
        WireValue::ListV(vec![WireValue::I32(1), WireValue::I32(2), WireValue::I32(3)])
    );
    assert_eq!(used, 16);
}

#[test]
fn optional_absent_consumes_one_byte() {
    let t = TypeDesc::Optional { inner: Box::new(TypeDesc::UInt32) };
    // Payload bytes after the tag must stay untouched.
    let bytes = vec![0, 9, 9, 9, 9];
    let (v, used) = read_value(&t, &bytes, 0).expect("decode");
    assert_eq!(v, WireValue::Absent);
    assert_eq!(used, 1);
}

#[test]
fn optional_present_round_trip() {
    let t = TypeDesc::Optional { inner: Box::new(TypeDesc::UInt16) };
    roundtrip(&t, WireValue::Present(Box::new(WireValue::U16(4660))));
    let bytes = lower(&WireValue::Present(Box::new(WireValue::U16(4660))));
    assert_eq!(bytes, vec![1, 0x12, 0x34]);
}

#[test]
fn optional_bad_tag() {
    let t = TypeDesc::Optional { inner: Box::new(TypeDesc::UInt16) };
    let bytes = vec![2, 0, 0];
    assert_eq!(read_value(&t, &bytes, 0), Err(DecodeError::UnexpectedOptionalTag));
}

#[test]
fn empty_sequence_round_trip() {
    let t = TypeDesc::Sequence { inner: Box::new(TypeDesc::Str) };
    let v = WireValue::ListV(vec![]);
    let bytes = lower(&v);
    assert_eq!(bytes, vec![0, 0, 0, 0]);
    roundtrip(&t, WireValue::ListV(vec![]));
}

#[test]
fn sequence_preserves_order_and_count() {
    let t = TypeDesc::Sequence { inner: Box::new(TypeDesc::UInt16) };
    roundtrip(
        &t,
        WireValue::ListV(vec![
            WireValue::U16(3),
            WireValue::U16(1),
            WireValue::U16(2),
            WireValue::U16(1),
        ]),
    );
}

#[test]
fn map_round_trip() {
    let t = TypeDesc::MapOf { key: Box::new(TypeDesc::Str), value: Box::new(TypeDesc::Int32) };
    roundtrip(
        &t,
        WireValue::MapV(vec![
            (WireValue::Text(String::from("one")), WireValue::I32(1)),
            (WireValue::Text(String::from("two")), WireValue::I32(2)),
        ]),
    );
}

fn point_record() -> TypeDesc {
    TypeDesc::Record {
        name: String::from("point"),
        fields: vec![
            FieldDesc { name: String::from("x"), ty: TypeDesc::Int32 },
            FieldDesc { name: String::from("y"), ty: TypeDesc::Int32 },
        ],
    }
}

#[test]
fn record_round_trip() {
    let t = point_record();
    let v = WireValue::RecordV(vec![WireValue::I32(-1), WireValue::I32(2)]);
    let bytes = lower(&v);
    assert_eq!(bytes, vec![0xff, 0xff, 0xff, 0xff, 0, 0, 0, 2]);
    roundtrip(&t, v);
}

fn flat_enum() -> TypeDesc {
    TypeDesc::Enum {
        name: String::from("animal"),
        variants: vec![
            VariantDesc { name: String::from("dog"), fields: vec![] },
            VariantDesc { name: String::from("cat"), fields: vec![] },
            VariantDesc { name: String::from("koala"), fields: vec![] },
        ],
        flat: true,
    }
}

#[test]
fn flat_enum_discriminant_is_index_plus_one() {
    let t = flat_enum();
    for index in 0..3usize {
        let v = WireValue::EnumV { index, fields: vec![] };
        let bytes = lower(&v);
        assert_eq!(bytes, vec![0, 0, 0, (index + 1) as u8]);
        roundtrip(&t, WireValue::EnumV { index, fields: vec![] });
    }
}

#[test]
fn enum_discriminant_zero_is_a_fault() {
    let t = flat_enum();
    let bytes = vec![0, 0, 0, 0];
    assert_eq!(read_value(&t, &bytes, 0), Err(DecodeError::UnexpectedEnumCase));
}

#[test]
fn enum_discriminant_out_of_range_is_a_fault() {
    let t = flat_enum();
    let bytes = vec![0, 0, 0, 4];
    assert_eq!(read_value(&t, &bytes, 0), Err(DecodeError::UnexpectedEnumCase));
}

fn tagged_enum() -> TypeDesc {
    TypeDesc::Enum {
        name: String::from("shape"),
        variants: vec![
            VariantDesc { name: String::from("dot"), fields: vec![] },
            VariantDesc {
                name: String::from("line"),
                fields: vec![
                    FieldDesc { name: String::from("len"), ty: TypeDesc::UInt32 },
                    FieldDesc { name: String::from("label"), ty: TypeDesc::Str },
                ],
            },
        ],
        flat: false,
    }
}

#[test]
fn tagged_enum_round_trip() {
    let t = tagged_enum();
    roundtrip(&t, WireValue::EnumV { index: 0, fields: vec![] });
    roundtrip(
        &t,
        WireValue::EnumV {
            index: 1,
            fields: vec![WireValue::U32(9), WireValue::Text(String::from("diag"))],
        },
    );
}

#[test]
fn object_handle_round_trip() {
    let t = TypeDesc::Object { name: String::from("thing"), imp: ObjectImplKind::Struct };
    roundtrip(&t, WireValue::Handle(0xfeed_f00d_dead_beef));
}

#[test]
fn custom_alias_delegates() {
    let t = TypeDesc::Custom { name: String::from("Guid"), underlying: Box::new(TypeDesc::Str) };
    roundtrip(&t, WireValue::Text(String::from("abc-123")));
}

#[test]
fn negative_length_is_incomplete_data() {
    let bytes = vec![0x80, 0, 0, 1, 0];
    assert_eq!(read_value(&TypeDesc::Str, &bytes, 0), Err(DecodeError::IncompleteData));
    assert_eq!(read_value(&TypeDesc::Bytes, &bytes, 0), Err(DecodeError::IncompleteData));
}

#[test]
fn truncated_reads_overflow() {
    let bytes = vec![0, 0, 0, 9, b'x'];
    assert_eq!(read_value(&TypeDesc::Str, &bytes, 0), Err(DecodeError::BufferOverflow));
    assert_eq!(read_value(&TypeDesc::UInt64, &bytes, 0), Err(DecodeError::BufferOverflow));
    assert_eq!(
        read_value(&TypeDesc::UInt32, &vec![1, 2, 3], 0),
        Err(DecodeError::BufferOverflow)
    );
}

#[test]
fn invalid_text_is_rejected() {
    let bytes = vec![0, 0, 0, 2, 0xff, 0xfe];
    assert_eq!(read_value(&TypeDesc::Str, &bytes, 0), Err(DecodeError::InvalidStringData));
}

#[test]
fn overlong_nanoseconds_are_rejected() {
    let mut bytes = vec![0, 0, 0, 0, 0, 0, 0, 1];
    bytes.extend_from_slice(&[0x3b, 0x9a, 0xca, 0x00]);
    assert_eq!(read_value(&TypeDesc::Duration, &bytes, 0), Err(DecodeError::InvalidDuration));
}

#[test]
fn positional_read_consumes_exactly() {
    let t = point_record();
    let v = WireValue::RecordV(vec![WireValue::I32(7), WireValue::I32(8)]);
    let mut bytes = vec![0xaa, 0xbb];
    bytes.extend_from_slice(&lower(&v));
    bytes.push(0xcc);
    let (back, used) = read_value(&t, &bytes, 2).expect("decode");
    assert_eq!(back, v);
    assert_eq!(used, 8);
}
