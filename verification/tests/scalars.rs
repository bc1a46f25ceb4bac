use grower_jsni::value::JSNIKind;
use grower_jsni::value::JSNIValue;

#[test]
fn null_value() {
    let t = JSNIValue::null();
    assert_eq!(t.kind, JSNIKind::Null);
    assert_eq!(t.value, 0);
}

#[test]
fn round_trip_i8() {
    for v in [0i8, 1, -1, -5, i8::MIN, i8::MAX] {
        let t = JSNIValue::from_i8(v);
        assert_eq!(t.kind, JSNIKind::I8);
        assert_eq!(t.as_i8(), v);
    }
    // sign extension fills the high payload bits
    assert_eq!(JSNIValue::from_i8(-1).value, u64::MAX);
}

#[test]
fn round_trip_i16() {
    for v in [0i16, -300, i16::MIN, i16::MAX] {
        assert_eq!(JSNIValue::from_i16(v).as_i16(), v);
    }
}

#[test]
fn round_trip_i32() {
    for v in [0i32, -70000, i32::MIN, i32::MAX] {
        assert_eq!(JSNIValue::from_i32(v).as_i32(), v);
    }
}

#[test]
fn round_trip_i64() {
    for v in [0i64, -1, i64::MIN, i64::MAX] {
        assert_eq!(JSNIValue::from_i64(v).as_i64(), v);
    }
}

#[test]
fn round_trip_unsigned() {
    assert_eq!(JSNIValue::from_u8(255).as_u8(), 255);
    assert_eq!(JSNIValue::from_u16(65535).as_u16(), 65535);
    assert_eq!(JSNIValue::from_u32(0xDEAD_BEEF).as_u32(), 0xDEAD_BEEF);
    assert_eq!(JSNIValue::from_u64(u64::MAX).as_u64(), u64::MAX);
    // zero extension: high bits stay clear
    assert_eq!(JSNIValue::from_u8(255).value, 255);
}

#[test]
fn round_trip_bool() {
    assert!(JSNIValue::from_bool(true).as_bool());
    assert!(!JSNIValue::from_bool(false).as_bool());
    assert_eq!(JSNIValue::from_bool(true).value, 1);
    assert_eq!(JSNIValue::from_bool(false).value, 0);
}

#[test]
fn round_trip_char() {
    for c in ['a', 'é', '\u{1D11E}', '\0'] {
        let t = JSNIValue::from_char(c);
        assert_eq!(t.kind, JSNIKind::Char);
        assert_eq!(t.value, c as u64);
        assert_eq!(t.as_char(), Some(c));
    }
}

#[test]
fn char_decode_rejects_surrogate() {
    // a host could hand back a Char-tagged payload that is no scalar value
    let t = JSNIValue { kind: JSNIKind::Char, value: 0xD800 };
    assert_eq!(t.as_char(), None);
    let t = JSNIValue { kind: JSNIKind::Char, value: 0x11_0000 };
    assert_eq!(t.as_char(), None);
}

#[test]
fn round_trip_f32_bits() {
    for v in [0.0f32, 1.5, -3.25, f32::MAX, f32::MIN_POSITIVE, f32::INFINITY] {
        let t = JSNIValue::from_f32_bits(v.to_bits());
        assert_eq!(t.kind, JSNIKind::F32);
        assert_eq!(f32::from_bits(t.as_f32_bits()), v);
    }
    // the packed payload is the little-endian bytes assembled into the low bits
    let bytes = 1.5f32.to_le_bytes();
    let assembled = (bytes[0] as u64)
        | ((bytes[1] as u64) << 8)
        | ((bytes[2] as u64) << 16)
        | ((bytes[3] as u64) << 24);
    assert_eq!(JSNIValue::from_f32_bits(1.5f32.to_bits()).value, assembled);
}

#[test]
fn round_trip_f64_bits() {
    for v in [0.0f64, 2.5, -1.0e300, f64::NAN] {
        let t = JSNIValue::from_f64_bits(v.to_bits());
        assert_eq!(t.kind, JSNIKind::F64);
        assert_eq!(t.as_f64_bits(), v.to_bits());
    }
    let bytes = 2.5f64.to_le_bytes();
    let mut assembled = 0u64;
    for (i, b) in bytes.iter().enumerate() {
        assembled |= (*b as u64) << (8 * i);
    }
    assert_eq!(JSNIValue::from_f64_bits(2.5f64.to_bits()).value, assembled);
}
