//! Round-trip checks for every semantic kind of the boxed value.

use nanbox_core::boxed::JsBigInt;
use nanbox_core::boxed::JsObject;
use nanbox_core::boxed::JsString;
use nanbox_core::boxed::JsSymbol;
use nanbox_core::boxed::JsVariant;
use nanbox_core::boxed::NanBoxedValue;
use nanbox_core::boxed::PrimitiveTag;
use nanbox_core::heap::RefCounts;

fn assert_kind_flags(
    v: &NanBoxedValue,
    undefined: bool,
    null: bool,
    boolean: bool,
    integer: bool,
    float: bool,
    bigint: bool,
    string: bool,
    object: bool,
    symbol: bool,
) {
    assert_eq!(undefined, v.is_undefined());
    assert_eq!(null, v.is_null());
    assert_eq!(boolean, v.is_bool());
    assert_eq!(integer, v.is_integer32());
    assert_eq!(float, v.is_float64());
    assert_eq!(bigint, v.is_bigint());
    assert_eq!(string, v.is_string());
    assert_eq!(object, v.is_object());
    assert_eq!(symbol, v.is_symbol());
}

fn assert_other_accessors_none(
    v: &NanBoxedValue,
    boolean: bool,
    integer: bool,
    float: bool,
    bigint: bool,
    string: bool,
    object: bool,
    symbol: bool,
) {
    if !boolean {
        assert_eq!(v.as_bool(), None);
    }
    if !integer {
        assert_eq!(v.as_integer32(), None);
    }
    if !float {
        assert_eq!(v.as_float64(), None);
    }
    if !bigint {
        assert_eq!(v.as_bigint(), None);
    }
    if !string {
        assert_eq!(v.as_string(), None);
    }
    if !object {
        assert_eq!(v.as_object(), None);
    }
    if !symbol {
        assert_eq!(v.as_symbol(), None);
    }
}

#[test]
fn null() {
    let v = NanBoxedValue::null();
    assert_kind_flags(&v, false, true, false, false, false, false, false, false, false);
    assert_other_accessors_none(&v, false, false, false, false, false, false, false);
    assert_eq!(v.as_variant(), JsVariant::Null);
}

#[test]
fn undefined() {
    let v = NanBoxedValue::undefined();
    assert_kind_flags(&v, true, false, false, false, false, false, false, false, false);
    assert_other_accessors_none(&v, false, false, false, false, false, false, false);
    assert_eq!(v.as_variant(), JsVariant::Undefined);
}

#[test]
fn boolean() {
    for b in [true, false] {
        let v = NanBoxedValue::boolean(b);
        assert_kind_flags(&v, false, false, true, false, false, false, false, false, false);
        assert_other_accessors_none(&v, true, false, false, false, false, false, false);
        assert_eq!(v.as_bool(), Some(b));
        assert_eq!(v.as_variant(), JsVariant::Boolean(b));
    }
}

#[test]
fn integer() {
    for i in [0, 1, -1, 42, -42, i32::MAX, i32::MIN, i32::MAX - 1, i32::MIN + 1] {
        let v = NanBoxedValue::integer32(i);
        assert_kind_flags(&v, false, false, false, true, false, false, false, false, false);
        assert_other_accessors_none(&v, false, true, false, false, false, false, false);
        assert_eq!(v.as_integer32(), Some(i));
        assert_eq!(v.as_variant(), JsVariant::Integer32(i));
    }
}

#[test]
#[allow(clippy::float_cmp)]
fn float() {
    let mut counts = RefCounts::new();
    for f in [
        0.0f64,
        -0.0,
        0.1 + 0.2,
        -42.123,
        f64::INFINITY,
        f64::NEG_INFINITY,
    ] {
        let v = NanBoxedValue::float64(f.to_bits());
        assert_kind_flags(&v, false, false, false, false, true, false, false, false, false);
        assert_other_accessors_none(&v, false, false, true, false, false, false, false);
        let out = f64::from_bits(v.as_float64().unwrap());
        assert_eq!(Some(f), Some(out));
        // Parity: a signed zero keeps its sign.
        assert_eq!(1.0 / f, 1.0 / out);
        assert_eq!(v.as_variant(), JsVariant::Float64(f.to_bits()));

        // A clone of a float is the same bit pattern and touches no ledger.
        let c = v.clone_with(&mut counts);
        assert_eq!(c.as_float64(), v.as_float64());
        assert_eq!(1.0 / f64::from_bits(c.as_float64().unwrap()), 1.0 / f);
    }
    assert_eq!(counts.held.len(), 0);

    // Edge cases around zeroes.
    let neg_zero = NanBoxedValue::float64((-0.0f64).to_bits());
    assert!(f64::from_bits(neg_zero.as_float64().unwrap()).is_sign_negative());
    assert_eq!(0.0f64, f64::from_bits(neg_zero.as_float64().unwrap()));

    let pos_zero = NanBoxedValue::float64(0.0f64.to_bits());
    assert!(!f64::from_bits(pos_zero.as_float64().unwrap()).is_sign_negative());
    assert_eq!(0.0f64, f64::from_bits(pos_zero.as_float64().unwrap()));

    let nan = NanBoxedValue::float64(f64::NAN.to_bits());
    assert!(nan.is_float64());
    assert!(f64::from_bits(nan.as_float64().unwrap()).is_nan());
}

#[test]
fn nan_signs_survive_boxing() {
    let pos = NanBoxedValue::float64(f64::NAN.to_bits());
    let out = f64::from_bits(pos.as_float64().unwrap());
    assert!(out.is_nan() && out.is_sign_positive());

    let neg = NanBoxedValue::float64((-f64::NAN).to_bits());
    let out = f64::from_bits(neg.as_float64().unwrap());
    assert!(out.is_nan() && out.is_sign_negative());
}

#[test]
fn integer_scenario() {
    let v = NanBoxedValue::integer32(42);
    assert!(v.is_integer32());
    assert_eq!(v.as_integer32(), Some(42));
    assert_eq!(v.as_float64(), None);
}

#[test]
fn bigint() {
    let handle = JsBigInt::from_addr(0x1000);
    let v = NanBoxedValue::bigint(handle);
    assert_kind_flags(&v, false, false, false, false, false, true, false, false, false);
    assert_other_accessors_none(&v, false, false, false, true, false, false, false);
    assert_eq!(v.as_bigint(), Some(handle));
    assert_eq!(v.as_variant(), JsVariant::BigInt(handle));
}

#[test]
fn object() {
    let handle = JsObject::from_addr(0x2340);
    let v = NanBoxedValue::object(handle);
    assert_kind_flags(&v, false, false, false, false, false, false, false, true, false);
    assert_other_accessors_none(&v, false, false, false, false, false, true, false);
    assert_eq!(v.as_object(), Some(handle));
    assert_eq!(v.as_variant(), JsVariant::Object(handle));
    // Only an object is traced and finalized.
    assert_eq!(v.trace(), Some(handle));
    assert_eq!(v.finalize(), Some(handle));
    assert_eq!(NanBoxedValue::null().trace(), None);
    assert_eq!(NanBoxedValue::bigint(JsBigInt::from_addr(0x1000)).trace(), None);
}

#[test]
fn string() {
    let handle = JsString::from_addr(0xFFFF_FFFF_F000);
    let v = NanBoxedValue::string(handle);
    assert_kind_flags(&v, false, false, false, false, false, false, true, false, false);
    assert_other_accessors_none(&v, false, false, false, false, true, false, false);
    assert_eq!(v.as_string(), Some(handle));
    assert_eq!(v.as_variant(), JsVariant::String(handle));
}

#[test]
fn symbol() {
    let handle = JsSymbol::from_addr(0x8_0000_0008);
    let v = NanBoxedValue::symbol(handle);
    assert_kind_flags(&v, false, false, false, false, false, false, false, false, true);
    assert_other_accessors_none(&v, false, false, false, false, false, false, true);
    assert_eq!(v.as_symbol(), Some(handle));
    assert_eq!(v.as_variant(), JsVariant::Symbol(handle));
}

#[test]
fn primitive_tag_mapping_round_trips() {
    let tags = [
        PrimitiveTag::Null,
        PrimitiveTag::Undefined,
        PrimitiveTag::Boolean,
        PrimitiveTag::Integer32,
        PrimitiveTag::BigInt,
        PrimitiveTag::Object,
        PrimitiveTag::Symbol,
        PrimitiveTag::String,
    ];
    for tag in tags {
        assert_eq!(PrimitiveTag::of_raw(tag.raw()), Some(tag));
    }
    // The six reserved raw tags map to no semantic tag.
    for (neg, val) in [(false, 5), (false, 6), (false, 7), (true, 5), (true, 6), (true, 7)] {
        let raw = nanbox_core::raw::RawTag::new_unchecked(neg, val);
        assert_eq!(PrimitiveTag::of_raw(raw), None);
    }
}
