//! The typed NaN-boxed runtime value.
//!
//! [`NanBoxedValue`] layers the eight semantic kinds of the language —
//! null, undefined, boolean, 32-bit integer, 64-bit float, big integer,
//! object, symbol and string — over the raw box. Each non-float kind maps
//! to exactly one tag; the heap kinds store the 48-bit address of a managed
//! allocation in the payload, and the explicit reference ledger
//! ([`crate::heap::RefCounts`]) accounts for the ownership unit each such
//! value holds.

use crate::heap::RefCounts;
use crate::raw::is_float_bits;
use crate::raw::canonical_float_bits;
use crate::raw::lemma_word_data_of_value;
use crate::raw::lemma_value_is_not_float;
use crate::raw::word_data;
use crate::raw::Header;
use crate::raw::RawAddr;
use crate::raw::RawBox;
use crate::raw::RawStore;
use crate::raw::RawTag;
use crate::raw::Value;
use crate::raw::NEG_QUIET_NAN;
use crate::raw::QUIET_NAN;
use vstd::multiset::Multiset;
use vstd::prelude::*;

verus! {

/// The semantic tag of a non-float value, mapped onto the raw tag space.
/// Six of the fourteen raw tags are left as headroom.
#[derive(Clone, Copy, Debug, PartialEq, Eq, Structural)]
pub enum PrimitiveTag {
    /// The `null` value.
    Null,
    /// The `undefined` value.
    Undefined,
    /// A boolean.
    Boolean,
    /// A 32-bit integer.
    Integer32,
    /// A managed arbitrary-precision integer.
    BigInt,
    /// A managed object.
    Object,
    /// A managed symbol.
    Symbol,
    /// A managed string.
    String,
}

impl PrimitiveTag {
    /// The raw tag this semantic tag is stored as.
    pub open spec fn raw_spec(self) -> RawTag {
        match self {
            PrimitiveTag::Null => RawTag { neg: false, val: 1 },
            PrimitiveTag::Undefined => RawTag { neg: false, val: 2 },
            PrimitiveTag::Boolean => RawTag { neg: false, val: 3 },
            PrimitiveTag::Integer32 => RawTag { neg: false, val: 4 },
            PrimitiveTag::BigInt => RawTag { neg: true, val: 1 },
            PrimitiveTag::Object => RawTag { neg: true, val: 2 },
            PrimitiveTag::Symbol => RawTag { neg: true, val: 3 },
            PrimitiveTag::String => RawTag { neg: true, val: 4 },
        }
    }

    /// Map this semantic tag to its raw tag.
    pub fn raw(self) -> (r: RawTag)
        ensures
            r == self.raw_spec(),
            r.wf(),
    {
        match self {
            PrimitiveTag::Null => RawTag::new_unchecked(false, 1),
            PrimitiveTag::Undefined => RawTag::new_unchecked(false, 2),
            PrimitiveTag::Boolean => RawTag::new_unchecked(false, 3),
            PrimitiveTag::Integer32 => RawTag::new_unchecked(false, 4),
            PrimitiveTag::BigInt => RawTag::new_unchecked(true, 1),
            PrimitiveTag::Object => RawTag::new_unchecked(true, 2),
            PrimitiveTag::Symbol => RawTag::new_unchecked(true, 3),
            PrimitiveTag::String => RawTag::new_unchecked(true, 4),
        }
    }

    /// The semantic tag a raw tag decodes to, if it is one of the eight in
    /// use.
    pub open spec fn of_raw_spec(t: RawTag) -> Option<PrimitiveTag> {
        if t == (RawTag { neg: false, val: 1u8 }) {
            Some(PrimitiveTag::Null)
        } else if t == (RawTag { neg: false, val: 2u8 }) {
            Some(PrimitiveTag::Undefined)
        } else if t == (RawTag { neg: false, val: 3u8 }) {
            Some(PrimitiveTag::Boolean)
        } else if t == (RawTag { neg: false, val: 4u8 }) {
            Some(PrimitiveTag::Integer32)
        } else if t == (RawTag { neg: true, val: 1u8 }) {
            Some(PrimitiveTag::BigInt)
        } else if t == (RawTag { neg: true, val: 2u8 }) {
            Some(PrimitiveTag::Object)
        } else if t == (RawTag { neg: true, val: 3u8 }) {
            Some(PrimitiveTag::Symbol)
        } else if t == (RawTag { neg: true, val: 4u8 }) {
            Some(PrimitiveTag::String)
        } else {
            None
        }
    }

    /// Decode a raw tag back into a semantic tag, if it is in use.
    pub fn of_raw(t: RawTag) -> (r: Option<PrimitiveTag>)
        ensures
            r == Self::of_raw_spec(t),
    {
        let (neg, val) = t.neg_val();
        match (neg, val) {
            (false, 1) => Some(PrimitiveTag::Null),
            (false, 2) => Some(PrimitiveTag::Undefined),
            (false, 3) => Some(PrimitiveTag::Boolean),
            (false, 4) => Some(PrimitiveTag::Integer32),
            (true, 1) => Some(PrimitiveTag::BigInt),
            (true, 2) => Some(PrimitiveTag::Object),
            (true, 3) => Some(PrimitiveTag::Symbol),
            (true, 4) => Some(PrimitiveTag::String),
            _ => None,
        }
    }
}

/// The address bound every managed handle obeys: the allocation's address
/// fits in the 48 payload bits and is never null.
pub open spec fn valid_handle_addr(addr: u64) -> bool {
    0 < addr < 0x1_0000_0000_0000
}

/// A handle to a managed arbitrary-precision integer, identified by the
/// address of its allocation. Holding a handle stands for one ownership
/// unit of the allocation; the ledger tracks how many are held.
#[derive(Clone, Copy, Debug, PartialEq, Eq, Structural, Hash)]
pub struct JsBigInt {
    /// The allocation's address.
    pub addr: u64,
}

/// A handle to a managed object allocation, traced by the collector.
#[derive(Clone, Copy, Debug, PartialEq, Eq, Structural, Hash)]
pub struct JsObject {
    /// The allocation's address.
    pub addr: u64,
}

/// A handle to a managed symbol allocation.
#[derive(Clone, Copy, Debug, PartialEq, Eq, Structural, Hash)]
pub struct JsSymbol {
    /// The allocation's address.
    pub addr: u64,
}

/// A handle to a managed string allocation.
#[derive(Clone, Copy, Debug, PartialEq, Eq, Structural, Hash)]
pub struct JsString {
    /// The allocation's address.
    pub addr: u64,
}

impl JsBigInt {
    /// Whether the handle's address is representable in the box.
    pub open spec fn wf(self) -> bool {
        valid_handle_addr(self.addr)
    }

    /// Rebuild a handle from the address an allocator handed out. An
    /// address outside the 48-bit budget is unrepresentable and must be
    /// refused by the embedder before it gets here.
    pub fn from_addr(addr: u64) -> (r: JsBigInt)
        requires
            valid_handle_addr(addr),
        ensures
            r.addr == addr,
            r.wf(),
    {
        JsBigInt { addr }
    }
}

impl JsObject {
    /// Whether the handle's address is representable in the box.
    pub open spec fn wf(self) -> bool {
        valid_handle_addr(self.addr)
    }

    /// Rebuild a handle from the address an allocator handed out.
    pub fn from_addr(addr: u64) -> (r: JsObject)
        requires
            valid_handle_addr(addr),
        ensures
            r.addr == addr,
            r.wf(),
    {
        JsObject { addr }
    }
}

impl JsSymbol {
    /// Whether the handle's address is representable in the box.
    pub open spec fn wf(self) -> bool {
        valid_handle_addr(self.addr)
    }

    /// Rebuild a handle from the address an allocator handed out.
    pub fn from_addr(addr: u64) -> (r: JsSymbol)
        requires
            valid_handle_addr(addr),
        ensures
            r.addr == addr,
            r.wf(),
    {
        JsSymbol { addr }
    }
}

impl JsString {
    /// Whether the handle's address is representable in the box.
    pub open spec fn wf(self) -> bool {
        valid_handle_addr(self.addr)
    }

    /// Rebuild a handle from the address an allocator handed out.
    pub fn from_addr(addr: u64) -> (r: JsString)
        requires
            valid_handle_addr(addr),
        ensures
            r.addr == addr,
            r.wf(),
    {
        JsString { addr }
    }
}

/// The exhaustive projection of a boxed value: one variant per semantic
/// kind. Inspecting a value through this sum keeps every call site
/// exhaustive under the compiler's eyes, where a chain of `is_` tests would
/// not be.
#[derive(Clone, Copy, Debug, PartialEq, Eq, Structural)]
pub enum JsVariant {
    /// The `null` value.
    Null,
    /// The `undefined` value.
    Undefined,
    /// A boolean.
    Boolean(bool),
    /// A 32-bit integer.
    Integer32(i32),
    /// The bits of a 64-bit float.
    Float64(u64),
    /// A managed arbitrary-precision integer.
    BigInt(JsBigInt),
    /// A managed object.
    Object(JsObject),
    /// A managed symbol.
    Symbol(JsSymbol),
    /// A managed string.
    String(JsString),
}

/// A NaN-boxed runtime value: one 8-byte word for any of the nine kinds.
#[derive(Debug, PartialEq, Eq, Structural)]
pub struct NanBoxedValue(pub RawBox);

impl NanBoxedValue {
    /// What the stored word means, kind by kind. A float keeps its own
    /// (canonical) bit pattern; every other kind is read out of the tag and
    /// the payload.
    pub open spec fn model(self) -> JsVariant {
        let bits = self.0.bits;
        if is_float_bits(bits) {
            JsVariant::Float64(bits)
        } else {
            let t = (Header { bits: (bits >> 48) as u16 }).tag_spec();
            let d = word_data(bits);
            if t == (RawTag { neg: false, val: 1u8 }) {
                JsVariant::Null
            } else if t == (RawTag { neg: false, val: 2u8 }) {
                JsVariant::Undefined
            } else if t == (RawTag { neg: false, val: 3u8 }) {
                JsVariant::Boolean(<bool as RawStore>::decoded(d))
            } else if t == (RawTag { neg: false, val: 4u8 }) {
                JsVariant::Integer32(<i32 as RawStore>::decoded(d))
            } else if t == (RawTag { neg: true, val: 1u8 }) {
                JsVariant::BigInt(JsBigInt { addr: <RawAddr as RawStore>::decoded(d).addr })
            } else if t == (RawTag { neg: true, val: 2u8 }) {
                JsVariant::Object(JsObject { addr: <RawAddr as RawStore>::decoded(d).addr })
            } else if t == (RawTag { neg: true, val: 3u8 }) {
                JsVariant::Symbol(JsSymbol { addr: <RawAddr as RawStore>::decoded(d).addr })
            } else if t == (RawTag { neg: true, val: 4u8 }) {
                JsVariant::String(JsString { addr: <RawAddr as RawStore>::decoded(d).addr })
            } else {
                // Reserved tag space; excluded by well-formedness.
                JsVariant::Undefined
            }
        }
    }

    /// The address of the managed allocation this value holds a reference
    /// on, if it is of a heap kind.
    pub open spec fn heap_addr(self) -> Option<u64> {
        match self.model() {
            JsVariant::BigInt(h) => Some(h.addr),
            JsVariant::Object(h) => Some(h.addr),
            JsVariant::Symbol(h) => Some(h.addr),
            JsVariant::String(h) => Some(h.addr),
            _ => None,
        }
    }

    /// Every constructed value satisfies this: the word is a float or a
    /// well-formed tagged value whose tag is one of the eight in use, and a
    /// heap kind's payload holds a valid allocation address.
    pub open spec fn wf(self) -> bool {
        let bits = self.0.bits;
        &&& self.0.wf()
        &&& (!is_float_bits(bits) ==> {
            let t = (Header { bits: (bits >> 48) as u16 }).tag_spec();
            &&& 1 <= t.val <= 4
            &&& (t.neg ==> valid_handle_addr(<RawAddr as RawStore>::decoded(word_data(bits)).addr))
        })
    }

    /// The exact word of the `null` value: the null tag over an all-zero
    /// payload.
    pub open spec fn null_spec() -> Self {
        NanBoxedValue(RawBox { bits: 0x7FF9_0000_0000_0000u64 })
    }

    /// The exact word of the `undefined` value: the undefined tag over an
    /// all-zero payload.
    pub open spec fn undefined_spec() -> Self {
        NanBoxedValue(RawBox { bits: 0x7FFA_0000_0000_0000u64 })
    }

    /// The exact word of a boxed boolean: the boolean tag over a payload
    /// whose first byte is 1 for `true` and 0 for `false`.
    pub open spec fn boolean_spec(value: bool) -> Self {
        NanBoxedValue(
            RawBox {
                bits: 0x7FFB_0000_0000_0000u64 | (if value {
                    1u64
                } else {
                    0u64
                }),
            },
        )
    }

    /// The exact word of a boxed 32-bit integer: the integer tag over the
    /// integer's little-endian bytes.
    pub open spec fn integer32_spec(value: i32) -> Self {
        NanBoxedValue(RawBox { bits: 0x7FFC_0000_0000_0000u64 | ((value as u32) as u64) })
    }

    /// Build the value for a payload-free kind.
    fn from_empty(tag: PrimitiveTag) -> (r: Self)
        requires
            tag == PrimitiveTag::Null || tag == PrimitiveTag::Undefined,
        ensures
            r.wf(),
            tag == PrimitiveTag::Null ==> r.model() == JsVariant::Null && r == Self::null_spec(),
            tag == PrimitiveTag::Undefined ==> r.model() == JsVariant::Undefined && r
                == Self::undefined_spec(),
    {
        let v = Value::empty(tag.raw());
        let b = RawBox::from_value(v);
        proof {
            lemma_value_is_not_float(v);
            let h = v.header.bits;
            assert(((h as u64) << 48) | ((0u8 as u64) | ((0u8 as u64) << 8) | ((0u8 as u64) << 16)
                | ((0u8 as u64) << 24) | ((0u8 as u64) << 32) | ((0u8 as u64) << 40)) == ((
            h as u64) << 48)) by (bit_vector);
            assert((0x7FF8u16 | 0u16 | (1u8 as u16)) == 0x7FF9u16 && (0x7FF8u16 | 0u16 | (
            2u8 as u16)) == 0x7FFAu16 && ((0x7FF9u16 as u64) << 48) == 0x7FF9_0000_0000_0000u64
                && ((0x7FFAu16 as u64) << 48) == 0x7FFA_0000_0000_0000u64) by (bit_vector);
        }
        NanBoxedValue(b)
    }

    /// The `null` value.
    pub fn null() -> (r: Self)
        ensures
            r.wf(),
            r.model() == JsVariant::Null,
            r == Self::null_spec(),
    {
        Self::from_empty(PrimitiveTag::Null)
    }

    /// The `undefined` value.
    pub fn undefined() -> (r: Self)
        ensures
            r.wf(),
            r.model() == JsVariant::Undefined,
            r == Self::undefined_spec(),
    {
        Self::from_empty(PrimitiveTag::Undefined)
    }

    /// Box the bits of a 64-bit float. A NaN is reduced to the canonical
    /// quiet NaN of its sign, so every float the box hands back is either
    /// no NaN or canonical.
    pub fn float64(bits: u64) -> (r: Self)
        ensures
            r.wf(),
            r.model() == JsVariant::Float64(canonical_float_bits(bits)),
    {
        NanBoxedValue(RawBox::from_float(bits))
    }

    /// Box a boolean.
    pub fn boolean(value: bool) -> (r: Self)
        ensures
            r.wf(),
            r.model() == JsVariant::Boolean(value),
            r == Self::boolean_spec(value),
    {
        let v = Value::store(PrimitiveTag::Boolean.raw(), value);
        let b = RawBox::from_value(v);
        proof {
            lemma_value_is_not_float(v);
            lemma_word_data_of_value(v);
            value.lemma_roundtrip();
            let h = v.header.bits;
            let x: u8 = if value {
                1u8
            } else {
                0u8
            };
            assert((0x7FF8u16 | 0u16 | (3u8 as u16)) == 0x7FFBu16) by (bit_vector);
            assert(((0x7FFBu16 as u64) << 48) | ((x as u64) | ((0u8 as u64) << 8) | ((
            0u8 as u64) << 16) | ((0u8 as u64) << 24) | ((0u8 as u64) << 32) | ((0u8 as u64) << 40))
                == 0x7FFB_0000_0000_0000u64 | (x as u64)) by (bit_vector);
        }
        NanBoxedValue(b)
    }

    /// Box a 32-bit integer.
    pub fn integer32(value: i32) -> (r: Self)
        ensures
            r.wf(),
            r.model() == JsVariant::Integer32(value),
            r == Self::integer32_spec(value),
    {
        let v = Value::store(PrimitiveTag::Integer32.raw(), value);
        let b = RawBox::from_value(v);
        proof {
            lemma_value_is_not_float(v);
            lemma_word_data_of_value(v);
            value.lemma_roundtrip();
            let x = value;
            assert((0x7FF8u16 | 0u16 | (4u8 as u16)) == 0x7FFCu16) by (bit_vector);
            assert(((0x7FFCu16 as u64) << 48) | ((((x as u32) & 0xFF) as u8 as u64) | ((((x
                as u32 >> 8) & 0xFF) as u8 as u64) << 8) | ((((x as u32 >> 16) & 0xFF) as u8
                as u64) << 16) | ((((x as u32 >> 24) & 0xFF) as u8 as u64) << 24) | ((
            0u8 as u64) << 32) | ((0u8 as u64) << 40)) == 0x7FFC_0000_0000_0000u64 | ((
            x as u32) as u64)) by (bit_vector);
        }
        NanBoxedValue(b)
    }

    /// Box a big-integer handle, consuming its ownership unit: the unit now
    /// lives in this value and is given back when the value is released.
    pub fn bigint(value: JsBigInt) -> (r: Self)
        requires
            value.wf(),
        ensures
            r.wf(),
            r.model() == JsVariant::BigInt(value),
    {
        let v = Value::store(PrimitiveTag::BigInt.raw(), RawAddr { addr: value.addr });
        let b = RawBox::from_value(v);
        proof {
            lemma_value_is_not_float(v);
            lemma_word_data_of_value(v);
            (RawAddr { addr: value.addr }).lemma_roundtrip();
        }
        NanBoxedValue(b)
    }

    /// Box an object handle, consuming its ownership unit.
    pub fn object(value: JsObject) -> (r: Self)
        requires
            value.wf(),
        ensures
            r.wf(),
            r.model() == JsVariant::Object(value),
    {
        let v = Value::store(PrimitiveTag::Object.raw(), RawAddr { addr: value.addr });
        let b = RawBox::from_value(v);
        proof {
            lemma_value_is_not_float(v);
            lemma_word_data_of_value(v);
            (RawAddr { addr: value.addr }).lemma_roundtrip();
        }
        NanBoxedValue(b)
    }

    /// Box a symbol handle, consuming its ownership unit.
    pub fn symbol(value: JsSymbol) -> (r: Self)
        requires
            value.wf(),
        ensures
            r.wf(),
            r.model() == JsVariant::Symbol(value),
    {
        let v = Value::store(PrimitiveTag::Symbol.raw(), RawAddr { addr: value.addr });
        let b = RawBox::from_value(v);
        proof {
            lemma_value_is_not_float(v);
            lemma_word_data_of_value(v);
            (RawAddr { addr: value.addr }).lemma_roundtrip();
        }
        NanBoxedValue(b)
    }

    /// Box a string handle, consuming its ownership unit.
    pub fn string(value: JsString) -> (r: Self)
        requires
            value.wf(),
        ensures
            r.wf(),
            r.model() == JsVariant::String(value),
    {
        let v = Value::store(PrimitiveTag::String.raw(), RawAddr { addr: value.addr });
        let b = RawBox::from_value(v);
        proof {
            lemma_value_is_not_float(v);
            lemma_word_data_of_value(v);
            (RawAddr { addr: value.addr }).lemma_roundtrip();
        }
        NanBoxedValue(b)
    }

    /// Whether the stored tag equals the given raw sign and magnitude.
    fn tag_is(&self, neg: bool, val: u8) -> (r: bool)
        requires
            self.0.wf(),
        ensures
            r == (!is_float_bits(self.0.bits) && (Header {
                bits: (self.0.bits >> 48) as u16,
            }).tag_spec() == (RawTag { neg, val })),
    {
        match self.0.tag() {
            Some(t) => {
                let (n, v) = t.neg_val();
                n == neg && v == val
            },
            None => false,
        }
    }

    /// Returns true if the value is `null`.
    pub fn is_null(&self) -> (r: bool)
        requires
            self.wf(),
        ensures
            r == (self.model() is Null),
    {
        self.tag_is(false, 1)
    }

    /// Returns true if the value is `undefined`.
    pub fn is_undefined(&self) -> (r: bool)
        requires
            self.wf(),
        ensures
            r == (self.model() is Undefined),
    {
        self.tag_is(false, 2)
    }

    /// Returns true if the value is a boolean.
    pub fn is_bool(&self) -> (r: bool)
        requires
            self.wf(),
        ensures
            r == (self.model() is Boolean),
    {
        self.tag_is(false, 3)
    }

    /// Returns true if the value is a 32-bit integer.
    pub fn is_integer32(&self) -> (r: bool)
        requires
            self.wf(),
        ensures
            r == (self.model() is Integer32),
    {
        self.tag_is(false, 4)
    }

    /// Returns true if the value is a 64-bit float. A boxed NaN answers
    /// true here like any other float; a tagged value never does.
    pub fn is_float64(&self) -> (r: bool)
        requires
            self.wf(),
        ensures
            r == (self.model() is Float64),
    {
        self.0.is_float()
    }

    /// Returns true if the value is a managed big integer.
    pub fn is_bigint(&self) -> (r: bool)
        requires
            self.wf(),
        ensures
            r == (self.model() is BigInt),
    {
        self.tag_is(true, 1)
    }

    /// Returns true if the value is a managed object.
    pub fn is_object(&self) -> (r: bool)
        requires
            self.wf(),
        ensures
            r == (self.model() is Object),
    {
        self.tag_is(true, 2)
    }

    /// Returns true if the value is a managed symbol.
    pub fn is_symbol(&self) -> (r: bool)
        requires
            self.wf(),
        ensures
            r == (self.model() is Symbol),
    {
        self.tag_is(true, 3)
    }

    /// Returns true if the value is a managed string.
    pub fn is_string(&self) -> (r: bool)
        requires
            self.wf(),
        ensures
            r == (self.model() is String),
    {
        self.tag_is(true, 4)
    }

    /// The float's bits, if the value is a float. Any NaN that comes out
    /// here is canonical, since any NaN that went in was normalized.
    pub fn as_float64(&self) -> (r: Option<u64>)
        requires
            self.wf(),
        ensures
            r == (match self.model() {
                JsVariant::Float64(b) => Some(b),
                _ => None::<u64>,
            }),
    {
        self.0.float()
    }

    /// The integer, if the value is a 32-bit integer.
    pub fn as_integer32(&self) -> (r: Option<i32>)
        requires
            self.wf(),
        ensures
            r == (match self.model() {
                JsVariant::Integer32(i) => Some(i),
                _ => None::<i32>,
            }),
    {
        if self.is_integer32() {
            let v = self.0.value().unwrap();
            proof {
                lemma_word_data_of_value(v);
            }
            Some(v.load::<i32>())
        } else {
            None
        }
    }

    /// The boolean, if the value is a boolean.
    pub fn as_bool(&self) -> (r: Option<bool>)
        requires
            self.wf(),
        ensures
            r == (match self.model() {
                JsVariant::Boolean(b) => Some(b),
                _ => None::<bool>,
            }),
    {
        if self.is_bool() {
            let v = self.0.value().unwrap();
            proof {
                lemma_word_data_of_value(v);
            }
            Some(v.load::<bool>())
        } else {
            None
        }
    }

    /// The payload address of a heap-kind value. Callers check the tag
    /// before calling.
    fn payload_addr(&self) -> (r: u64)
        requires
            self.wf(),
            !is_float_bits(self.0.bits),
        ensures
            r == <RawAddr as RawStore>::decoded(word_data(self.0.bits)).addr,
    {
        let v = self.0.value().unwrap();
        proof {
            lemma_word_data_of_value(v);
        }
        v.load::<RawAddr>().addr
    }

    /// The big-integer handle, if the value holds one. The handle that
    /// comes back names the same allocation; the caller that keeps it must
    /// acquire its own reference on the ledger.
    pub fn as_bigint(&self) -> (r: Option<JsBigInt>)
        requires
            self.wf(),
        ensures
            r == (match self.model() {
                JsVariant::BigInt(h) => Some(h),
                _ => None::<JsBigInt>,
            }),
            r matches Some(h) ==> h.wf(),
    {
        if self.is_bigint() {
            Some(JsBigInt { addr: self.payload_addr() })
        } else {
            None
        }
    }

    /// The object handle, if the value holds one.
    pub fn as_object(&self) -> (r: Option<JsObject>)
        requires
            self.wf(),
        ensures
            r == (match self.model() {
                JsVariant::Object(h) => Some(h),
                _ => None::<JsObject>,
            }),
            r matches Some(h) ==> h.wf(),
    {
        if self.is_object() {
            Some(JsObject { addr: self.payload_addr() })
        } else {
            None
        }
    }

    /// The symbol handle, if the value holds one.
    pub fn as_symbol(&self) -> (r: Option<JsSymbol>)
        requires
            self.wf(),
        ensures
            r == (match self.model() {
                JsVariant::Symbol(h) => Some(h),
                _ => None::<JsSymbol>,
            }),
            r matches Some(h) ==> h.wf(),
    {
        if self.is_symbol() {
            Some(JsSymbol { addr: self.payload_addr() })
        } else {
            None
        }
    }

    /// The string handle, if the value holds one.
    pub fn as_string(&self) -> (r: Option<JsString>)
        requires
            self.wf(),
        ensures
            r == (match self.model() {
                JsVariant::String(h) => Some(h),
                _ => None::<JsString>,
            }),
            r matches Some(h) ==> h.wf(),
    {
        if self.is_string() {
            Some(JsString { addr: self.payload_addr() })
        } else {
            None
        }
    }

    /// The exhaustive projection of this value. This is the canonical way
    /// to inspect a value: the returned sum is exactly the value's model.
    pub fn as_variant(&self) -> (r: JsVariant)
        requires
            self.wf(),
        ensures
            r == self.model(),
    {
        match self.0.tag() {
            None => JsVariant::Float64(self.0.float().unwrap()),
            Some(t) => {
                let v = self.0.value().unwrap();
                proof {
                    lemma_word_data_of_value(v);
                }
                let (neg, val) = t.neg_val();
                match (neg, val) {
                    (false, 1) => JsVariant::Null,
                    (false, 2) => JsVariant::Undefined,
                    (false, 3) => JsVariant::Boolean(v.load::<bool>()),
                    (false, 4) => JsVariant::Integer32(v.load::<i32>()),
                    (true, 1) => JsVariant::BigInt(JsBigInt { addr: v.load::<RawAddr>().addr }),
                    (true, 2) => JsVariant::Object(JsObject { addr: v.load::<RawAddr>().addr }),
                    (true, 3) => JsVariant::Symbol(JsSymbol { addr: v.load::<RawAddr>().addr }),
                    (true, 4) => JsVariant::String(JsString { addr: v.load::<RawAddr>().addr }),
                    _ => {
                        // Reserved tag space; excluded by well-formedness.
                        proof {
                            assert(false);
                        }
                        JsVariant::Undefined
                    },
                }
            },
        }
    }

    /// Copy this value, acquiring one more reference for a heap kind. A
    /// non-heap kind is a plain bit copy; a heap kind is the same bit copy
    /// plus one more ownership unit on its allocation, so the copy owns a
    /// reference of its own and the double-release trap of a naive bit
    /// copy cannot arise.
    pub fn clone_with(&self, counts: &mut RefCounts) -> (r: Self)
        requires
            self.wf(),
        ensures
            r == *self,
            r.wf(),
            final(counts).counts() =~= (match self.heap_addr() {
                Some(a) => old(counts).counts().insert(a),
                None => old(counts).counts(),
            }),
    {
        let is_heap = self.is_bigint() || self.is_object() || self.is_symbol()
            || self.is_string();
        if is_heap {
            let addr = self.payload_addr();
            counts.retain(addr);
        }
        NanBoxedValue(self.0)
    }

    /// Consume this value, releasing its reference for a heap kind.
    /// Returns whether that release freed the allocation, i.e. whether it
    /// was the last reference held. A non-heap kind releases nothing.
    pub fn release_with(self, counts: &mut RefCounts) -> (freed: bool)
        requires
            self.wf(),
            self.heap_addr() matches Some(a) ==> old(counts).counts().count(a) > 0,
        ensures
            final(counts).counts() =~= (match self.heap_addr() {
                Some(a) => old(counts).counts().remove(a),
                None => old(counts).counts(),
            }),
            freed == (match self.heap_addr() {
                Some(a) => old(counts).counts().count(a) == 1,
                None => false,
            }),
    {
        let is_heap = self.is_bigint() || self.is_object() || self.is_symbol()
            || self.is_string();
        if is_heap {
            let addr = self.payload_addr();
            counts.release(addr)
        } else {
            false
        }
    }

    /// The handle whose finalizer the collector must run for this value:
    /// the object handle iff the value is an object. The refcounted kinds
    /// are released through [`Self::release_with`], not finalized.
    pub fn finalize(&self) -> (r: Option<JsObject>)
        requires
            self.wf(),
        ensures
            r == (match self.model() {
                JsVariant::Object(h) => Some(h),
                _ => None::<JsObject>,
            }),
    {
        self.as_object()
    }

    /// The handle the collector must mark when tracing through this value:
    /// the object handle iff the value is an object. No other kind is
    /// traced.
    pub fn trace(&self) -> (r: Option<JsObject>)
        requires
            self.wf(),
        ensures
            r == (match self.model() {
                JsVariant::Object(h) => Some(h),
                _ => None::<JsObject>,
            }),
    {
        self.as_object()
    }
}

/// Law: no bit pattern a tagged construction produces is ever a float
/// pattern, canonical quiet NaNs included, and a float construction never
/// produces a pattern a tagged value can hold.
pub proof fn lemma_tag_space_disjoint(v: NanBoxedValue, f: u64)
    requires
        v.wf(),
        !(v.model() is Float64),
    ensures
        v.0.bits != canonical_float_bits(f),
        v.0.bits != QUIET_NAN,
        v.0.bits != NEG_QUIET_NAN,
        !is_float_bits(v.0.bits),
        is_float_bits(canonical_float_bits(f)),
{
    crate::singlenan::lemma_canonicalization(f);
    assert((QUIET_NAN & 0x7FFF_FFFF_FFFF_FFFFu64 == QUIET_NAN) && (NEG_QUIET_NAN
        & 0x7FFF_FFFF_FFFF_FFFFu64 == QUIET_NAN)) by (bit_vector);
}

/// Law: a value is of exactly one semantic kind: whichever variant its
/// model takes, the projections of the other eight kinds are all false,
/// so a value built by one constructor answers false to every other
/// kind's predicate.
pub proof fn lemma_kind_exclusive(m: JsVariant)
    ensures
        1 == (if m is Null {
            1int
        } else {
            0int
        }) + (if m is Undefined {
            1int
        } else {
            0int
        }) + (if m is Boolean {
            1int
        } else {
            0int
        }) + (if m is Integer32 {
            1int
        } else {
            0int
        }) + (if m is Float64 {
            1int
        } else {
            0int
        }) + (if m is BigInt {
            1int
        } else {
            0int
        }) + (if m is Object {
            1int
        } else {
            0int
        }) + (if m is Symbol {
            1int
        } else {
            0int
        }) + (if m is String {
            1int
        } else {
            0int
        }),
{
}

/// Law: cloning and then releasing both copies of a heap value leaves the
/// ledger exactly where it started, and the allocation is freed exactly
/// when the last held reference is released. Stated over the ledger
/// multiset that `clone_with` and `release_with` update.
pub proof fn lemma_clone_release_balanced(m: Multiset<u64>, a: u64)
    ensures
        m.insert(a).count(a) == m.count(a) + 1,
        m.insert(a).remove(a) =~= m,
        m.count(a) > 0 ==> m.remove(a).count(a) == m.count(a) - 1,
{
}

} // verus!
