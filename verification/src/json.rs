//! Conversions between runtime values and JSON documents.
//!
//! The value core converts exactly the kinds it can carry without an
//! allocator: `null`, booleans and 32-bit integers. Everything that needs
//! the runtime heap — strings, arrays, objects — and every float is
//! reported to the embedder, which holds the allocator and the float
//! conversions, with an error naming what was left to it. The decision of
//! which input goes which way is made by [`json_scalar_decision`] and
//! proved exact; the JSON values themselves are built and inspected by
//! `serde_json` behind the trusted wrappers below.

use crate::boxed::NanBoxedValue;
use crate::value::JsValue;
use serde_json::Value as SerdeJsonValue;
use vstd::prelude::*;

verus! {

/// `serde_json`'s document type, opaque to the verifier: values of it are
/// built and inspected only through the trusted wrappers below.
#[verifier::external_type_specification]
#[verifier::external_body]
pub struct ExJsonValue(SerdeJsonValue);

/// Why a value or a JSON document was not converted here.
#[derive(Clone, Copy, Debug, PartialEq, Eq, Structural)]
pub enum JsonError {
    /// The JSON number lies outside the 32-bit integer range this core
    /// carries losslessly; the embedder converts it through its float
    /// path.
    NumberOutOfRange,
    /// The conversion needs the runtime heap (a string, array or object);
    /// the embedder performs it.
    NeedsHeap,
    /// A float value; the embedder converts it from its bits.
    Float64,
    /// A big integer cannot be converted to JSON.
    BigInt,
    /// A symbol cannot be converted to JSON.
    Symbol,
}

/// Relies on serde_json::Value::Null: the unit constructor of the JSON
/// null document.
#[verifier::external_body]
fn json_null() -> serde_json::Value {
    serde_json::Value::Null
}

/// Relies on serde_json's From for bool: builds the JSON boolean with
/// that value.
#[verifier::external_body]
fn json_from_bool(b: bool) -> serde_json::Value {
    serde_json::Value::from(b)
}

/// Relies on serde_json's From for i64: builds the JSON number with that
/// value.
#[verifier::external_body]
fn json_from_i64(i: i64) -> serde_json::Value {
    serde_json::Value::from(i)
}

/// Relies on serde_json::Value::is_null: whether the document is the JSON
/// null.
#[verifier::external_body]
fn json_is_null(v: &serde_json::Value) -> bool {
    v.is_null()
}

/// Relies on serde_json::Value::as_bool: the boolean, if the document is
/// a JSON boolean.
#[verifier::external_body]
fn json_as_bool(v: &serde_json::Value) -> Option<bool> {
    v.as_bool()
}

/// Relies on serde_json::Value::as_i64: the integer, if the document is a
/// JSON number representable as an `i64`.
#[verifier::external_body]
fn json_as_i64(v: &serde_json::Value) -> Option<i64> {
    v.as_i64()
}

/// Relies on serde_json::Value::is_number: whether the document is a JSON
/// number of any width.
#[verifier::external_body]
fn json_is_number(v: &serde_json::Value) -> bool {
    v.is_number()
}

/// What a JSON scalar probe decides: the first of null, boolean and
/// `i32`-ranged integer that applies becomes a value; any other number is
/// out of range here, and everything else needs the heap.
pub open spec fn json_scalar_decision(
    is_null: bool,
    as_bool: Option<bool>,
    as_i64: Option<i64>,
    is_number: bool,
) -> Result<JsValue, JsonError> {
    if is_null {
        Ok(JsValue { inner: NanBoxedValue::null_spec() })
    } else {
        match as_bool {
            Some(b) => Ok(JsValue { inner: NanBoxedValue::boolean_spec(b) }),
            None => match as_i64 {
                Some(i) => if -0x8000_0000 <= i <= 0x7FFF_FFFF {
                    Ok(JsValue { inner: NanBoxedValue::integer32_spec(i as i32) })
                } else {
                    Err(JsonError::NumberOutOfRange)
                },
                None => if is_number {
                    Err(JsonError::NumberOutOfRange)
                } else {
                    Err(JsonError::NeedsHeap)
                },
            },
        }
    }
}

/// Decide what a JSON document converts to, given what the probes of it
/// returned. This is the whole conversion logic; the probes themselves
/// only read the document.
pub fn from_json_parts(is_null: bool, as_bool: Option<bool>, as_i64: Option<i64>, is_number: bool) -> (r:
    Result<JsValue, JsonError>)
    ensures
        r == json_scalar_decision(is_null, as_bool, as_i64, is_number),
        r matches Ok(v) ==> v.wf(),
{
    if is_null {
        Ok(JsValue::null())
    } else if let Some(b) = as_bool {
        Ok(JsValue::boolean(b))
    } else if let Some(i) = as_i64 {
        if -0x8000_0000 <= i && i <= 0x7FFF_FFFF {
            Ok(JsValue::integer32(i as i32))
        } else {
            Err(JsonError::NumberOutOfRange)
        }
    } else if is_number {
        Err(JsonError::NumberOutOfRange)
    } else {
        Err(JsonError::NeedsHeap)
    }
}

impl JsValue {
    /// Convert a JSON document to a value, for the kinds this core
    /// carries: null, booleans and integers in the 32-bit range. The
    /// outcome follows [`json_scalar_decision`] applied to what the
    /// probes of the document returned.
    pub fn from_json(json: &serde_json::Value) -> (r: Result<JsValue, JsonError>)
        ensures
            r matches Ok(v) ==> v.wf(),
    {
        let is_null = json_is_null(json);
        let as_bool = json_as_bool(json);
        let as_i64 = json_as_i64(json);
        let is_number = json_is_number(json);
        from_json_parts(is_null, as_bool, as_i64, is_number)
    }

    /// Convert the value to a JSON document. Null, booleans and 32-bit
    /// integers convert here; a float is reported to the embedder with
    /// `Float64`, big integers and symbols are not convertible at all,
    /// and object and string values need the heap. The value must not be
    /// `undefined`, which has no JSON form.
    pub fn to_json(&self) -> (r: Result<serde_json::Value, JsonError>)
        requires
            self.wf(),
            !(self.model() is Undefined),
        ensures
            r is Ok <==> (self.model() is Null || self.model() is Boolean || self.model()
                is Integer32),
            self.model() is Float64 <==> r == Err::<serde_json::Value, JsonError>(
                JsonError::Float64,
            ),
            self.model() is BigInt <==> r == Err::<serde_json::Value, JsonError>(JsonError::BigInt),
            self.model() is Symbol <==> r == Err::<serde_json::Value, JsonError>(JsonError::Symbol),
            (self.model() is Object || self.model() is String) <==> r == Err::<
                serde_json::Value,
                JsonError,
            >(JsonError::NeedsHeap),
    {
        match self.variant() {
            crate::boxed::JsVariant::Null => Ok(json_null()),
            crate::boxed::JsVariant::Undefined => Err(JsonError::NeedsHeap),
            crate::boxed::JsVariant::Boolean(b) => Ok(json_from_bool(b)),
            crate::boxed::JsVariant::Integer32(i) => Ok(json_from_i64(i as i64)),
            crate::boxed::JsVariant::Float64(_) => Err(JsonError::Float64),
            crate::boxed::JsVariant::BigInt(_) => Err(JsonError::BigInt),
            crate::boxed::JsVariant::Object(_) => Err(JsonError::NeedsHeap),
            crate::boxed::JsVariant::Symbol(_) => Err(JsonError::Symbol),
            crate::boxed::JsVariant::String(_) => Err(JsonError::NeedsHeap),
        }
    }
}

} // verus!
