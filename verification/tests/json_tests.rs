//! JSON conversions of the scalar kinds.

use nanbox_core::boxed::JsBigInt;
use nanbox_core::boxed::JsObject;
use nanbox_core::boxed::JsSymbol;
use nanbox_core::json::JsonError;
use nanbox_core::try_from_js::TryFromJsError;
use nanbox_core::value::JsValue;

#[test]
fn integer_ops_to_json() {
    let cases: [(i32, i64); 6] = [
        (1_000_000 + 500, 1_000_500),
        (1_000_000 - 500, 999_500),
        (1_000_000 * 500, 500_000_000),
        (1_000_000 / 500, 2_000),
        (233_894 % 500, 394),
        (36_i32.pow(5), 60_466_176),
    ];
    for (computed, expected) in cases {
        let v = JsValue::integer32(computed);
        assert_eq!(v.to_json().unwrap(), serde_json::Value::from(expected));
    }
}

#[test]
fn scalars_to_json() {
    assert_eq!(JsValue::null().to_json().unwrap(), serde_json::Value::Null);
    assert_eq!(
        JsValue::boolean(true).to_json().unwrap(),
        serde_json::Value::from(true)
    );
    assert_eq!(
        JsValue::integer32(-45).to_json().unwrap(),
        serde_json::Value::from(-45_i64)
    );
}

#[test]
fn unconvertible_to_json() {
    assert_eq!(
        JsValue::bigint(JsBigInt::from_addr(0x100)).to_json(),
        Err(JsonError::BigInt)
    );
    assert_eq!(
        JsValue::symbol(JsSymbol::from_addr(0x200)).to_json(),
        Err(JsonError::Symbol)
    );
    assert_eq!(
        JsValue::float64(2.5_f64.to_bits()).to_json(),
        Err(JsonError::Float64)
    );
}

#[test]
fn scalars_from_json() {
    let v = JsValue::from_json(&serde_json::Value::Null).unwrap();
    assert!(v.is_null());

    let v = JsValue::from_json(&serde_json::Value::from(false)).unwrap();
    assert_eq!(v.variant(), nanbox_core::boxed::JsVariant::Boolean(false));

    let v = JsValue::from_json(&serde_json::Value::from(43_i64)).unwrap();
    assert_eq!(v.variant(), nanbox_core::boxed::JsVariant::Integer32(43));

    let v = JsValue::from_json(&serde_json::Value::from(-2147483648_i64)).unwrap();
    assert_eq!(v.variant(), nanbox_core::boxed::JsVariant::Integer32(i32::MIN));
}

#[test]
fn out_of_range_from_json() {
    assert_eq!(
        JsValue::from_json(&serde_json::Value::from(2147483648_i64)),
        Err(JsonError::NumberOutOfRange)
    );
    assert_eq!(
        JsValue::from_json(&serde_json::Value::from(-2147483649_i64)),
        Err(JsonError::NumberOutOfRange)
    );
}

#[test]
fn heap_kinds_from_json_are_reported() {
    let s = serde_json::Value::from("John Doe");
    assert_eq!(JsValue::from_json(&s), Err(JsonError::NeedsHeap));
    let arr = serde_json::Value::Array(Vec::new());
    assert_eq!(JsValue::from_json(&arr), Err(JsonError::NeedsHeap));
    let obj = serde_json::Value::Object(serde_json::Map::new());
    assert_eq!(JsValue::from_json(&obj), Err(JsonError::NeedsHeap));
}

#[test]
fn json_round_trip_scalars() {
    for j in [
        serde_json::Value::Null,
        serde_json::Value::from(true),
        serde_json::Value::from(false),
        serde_json::Value::from(0_i64),
        serde_json::Value::from(1_000_500_i64),
        serde_json::Value::from(-45_i64),
    ] {
        let v = JsValue::from_json(&j).unwrap();
        assert_eq!(v.to_json().unwrap(), j);
    }
}

#[test]
fn typed_extraction() {
    let v = JsValue::integer32(7);
    assert_eq!(v.try_js_into::<i32>(), Ok(7));
    assert_eq!(v.try_js_into::<bool>(), Err(TryFromJsError::WrongType));
    let b = JsValue::boolean(true);
    assert_eq!(b.try_js_into::<bool>(), Ok(true));
    assert_eq!(b.try_js_into::<i32>(), Err(TryFromJsError::WrongType));
}

#[test]
fn typed_extraction_ranges() {
    let v = JsValue::integer32(300);
    assert_eq!(v.try_js_into::<u8>(), Err(TryFromJsError::OutOfRange));
    assert_eq!(v.try_js_into::<i16>(), Ok(300_i16));
    assert_eq!(v.try_js_into::<u16>(), Ok(300_u16));
    assert_eq!(v.try_js_into::<u64>(), Ok(300_u64));

    let neg = JsValue::integer32(-5);
    assert_eq!(neg.try_js_into::<u32>(), Err(TryFromJsError::OutOfRange));
    assert_eq!(neg.try_js_into::<i8>(), Ok(-5_i8));
    assert_eq!(neg.try_js_into::<i64>(), Ok(-5_i64));
    assert_eq!(neg.try_js_into::<usize>(), Err(TryFromJsError::OutOfRange));
}

#[test]
fn typed_extraction_options_and_handles() {
    assert_eq!(JsValue::null().try_js_into::<Option<i32>>(), Ok(None));
    assert_eq!(JsValue::undefined().try_js_into::<Option<i32>>(), Ok(None));
    assert_eq!(JsValue::integer32(3).try_js_into::<Option<i32>>(), Ok(Some(3)));
    assert_eq!(
        JsValue::boolean(true).try_js_into::<Option<i32>>(),
        Err(TryFromJsError::WrongType)
    );

    let h = JsBigInt::from_addr(0x300);
    assert_eq!(JsValue::bigint(h).try_js_into::<JsBigInt>(), Ok(h));
    let o = JsObject::from_addr(0x400);
    assert_eq!(JsValue::object(o).try_js_into::<JsObject>(), Ok(o));
    assert_eq!(
        JsValue::object(o).try_js_into::<JsBigInt>(),
        Err(TryFromJsError::WrongType)
    );
}
