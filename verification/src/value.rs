//! The engine-facing value type: a thin wrapper over the NaN-boxed word.
//!
//! Consumers of the value core — property tables, binding slots, the
//! conversion layers — handle values through this type rather than the box
//! itself, so the box's invariant never leaks into their hands.

use crate::boxed::JsBigInt;
use crate::boxed::JsObject;
use crate::boxed::JsString;
use crate::boxed::JsSymbol;
use crate::boxed::JsVariant;
use crate::boxed::NanBoxedValue;
use crate::heap::RefCounts;
use crate::raw::canonical_float_bits;
use vstd::prelude::*;

verus! {

/// A runtime value: any of the nine semantic kinds in one 8-byte word.
#[derive(Debug, PartialEq, Eq, Structural)]
pub struct JsValue {
    /// The boxed word.
    pub inner: NanBoxedValue,
}

impl JsValue {
    /// What this value means, kind by kind.
    pub open spec fn model(self) -> JsVariant {
        self.inner.model()
    }

    /// Every constructed value satisfies the box's invariant.
    pub open spec fn wf(self) -> bool {
        self.inner.wf()
    }

    /// The `undefined` value.
    pub fn undefined() -> (r: JsValue)
        ensures
            r.wf(),
            r.model() == JsVariant::Undefined,
            r == (JsValue { inner: NanBoxedValue::undefined_spec() }),
    {
        JsValue { inner: NanBoxedValue::undefined() }
    }

    /// The `null` value.
    pub fn null() -> (r: JsValue)
        ensures
            r.wf(),
            r.model() == JsVariant::Null,
            r == (JsValue { inner: NanBoxedValue::null_spec() }),
    {
        JsValue { inner: NanBoxedValue::null() }
    }

    /// A boolean value.
    pub fn boolean(value: bool) -> (r: JsValue)
        ensures
            r.wf(),
            r.model() == JsVariant::Boolean(value),
            r == (JsValue { inner: NanBoxedValue::boolean_spec(value) }),
    {
        JsValue { inner: NanBoxedValue::boolean(value) }
    }

    /// A 32-bit integer value.
    pub fn integer32(value: i32) -> (r: JsValue)
        ensures
            r.wf(),
            r.model() == JsVariant::Integer32(value),
            r == (JsValue { inner: NanBoxedValue::integer32_spec(value) }),
    {
        JsValue { inner: NanBoxedValue::integer32(value) }
    }

    /// A float value, given as its bits; a NaN is canonicalized.
    pub fn float64(bits: u64) -> (r: JsValue)
        ensures
            r.wf(),
            r.model() == JsVariant::Float64(canonical_float_bits(bits)),
    {
        JsValue { inner: NanBoxedValue::float64(bits) }
    }

    /// A big-integer value, consuming the handle's ownership unit.
    pub fn bigint(value: JsBigInt) -> (r: JsValue)
        requires
            value.wf(),
        ensures
            r.wf(),
            r.model() == JsVariant::BigInt(value),
    {
        JsValue { inner: NanBoxedValue::bigint(value) }
    }

    /// An object value, consuming the handle's ownership unit.
    pub fn object(value: JsObject) -> (r: JsValue)
        requires
            value.wf(),
        ensures
            r.wf(),
            r.model() == JsVariant::Object(value),
    {
        JsValue { inner: NanBoxedValue::object(value) }
    }

    /// A symbol value, consuming the handle's ownership unit.
    pub fn symbol(value: JsSymbol) -> (r: JsValue)
        requires
            value.wf(),
        ensures
            r.wf(),
            r.model() == JsVariant::Symbol(value),
    {
        JsValue { inner: NanBoxedValue::symbol(value) }
    }

    /// A string value, consuming the handle's ownership unit.
    pub fn string(value: JsString) -> (r: JsValue)
        requires
            value.wf(),
        ensures
            r.wf(),
            r.model() == JsVariant::String(value),
    {
        JsValue { inner: NanBoxedValue::string(value) }
    }

    /// The exhaustive projection of this value.
    pub fn variant(&self) -> (r: JsVariant)
        requires
            self.wf(),
        ensures
            r == self.model(),
    {
        self.inner.as_variant()
    }

    /// Returns true if the value is `null`.
    pub fn is_null(&self) -> (r: bool)
        requires
            self.wf(),
        ensures
            r == (self.model() is Null),
    {
        self.inner.is_null()
    }

    /// Returns true if the value is `undefined`.
    pub fn is_undefined(&self) -> (r: bool)
        requires
            self.wf(),
        ensures
            r == (self.model() is Undefined),
    {
        self.inner.is_undefined()
    }

    /// Copy this value, acquiring one more ledger reference for a heap
    /// kind.
    pub fn clone_with(&self, counts: &mut RefCounts) -> (r: JsValue)
        requires
            self.wf(),
        ensures
            r == *self,
            r.wf(),
            final(counts).counts() =~= (match self.inner.heap_addr() {
                Some(a) => old(counts).counts().insert(a),
                None => old(counts).counts(),
            }),
    {
        JsValue { inner: self.inner.clone_with(counts) }
    }

    /// Consume this value, releasing its ledger reference for a heap kind.
    pub fn release_with(self, counts: &mut RefCounts) -> (freed: bool)
        requires
            self.wf(),
            self.inner.heap_addr() matches Some(a) ==> old(counts).counts().count(a) > 0,
        ensures
            final(counts).counts() =~= (match self.inner.heap_addr() {
                Some(a) => old(counts).counts().remove(a),
                None => old(counts).counts(),
            }),
            freed == (match self.inner.heap_addr() {
                Some(a) => old(counts).counts().count(a) == 1,
                None => false,
            }),
    {
        self.inner.release_with(counts)
    }
}

} // verus!
