//! The untyped layer of the NaN box: tags, headers and the 8-byte word.
//!
//! A non-float value occupies the bit pattern of a quiet NaN whose top two
//! bytes (the header) carry the sign bit, the quiet-NaN exponent pattern and
//! a nonzero 3-bit tag magnitude, and whose low six bytes carry the payload.
//! Everything here is expressed over the 64-bit pattern of the word, so the
//! discrimination and packing rules are stated and proved exactly.

use vstd::prelude::*;

verus! {

/// Mask that clears the sign bit of a 64-bit float pattern.
pub const SIGN_MASK: u64 = 0x7FFF_FFFF_FFFF_FFFF;

/// The canonical positive quiet NaN.
pub const QUIET_NAN: u64 = 0x7FF8_0000_0000_0000;

/// The canonical negative quiet NaN.
pub const NEG_QUIET_NAN: u64 = 0xFFF8_0000_0000_0000;

/// Whether the 64-bit pattern `bits`, read as an IEEE-754 double, is a NaN:
/// all eleven exponent bits set and a nonzero 52-bit significand.
pub open spec fn is_nan_bits(bits: u64) -> bool {
    &&& bits & 0x7FF0_0000_0000_0000 == 0x7FF0_0000_0000_0000
    &&& bits & 0x000F_FFFF_FFFF_FFFF != 0
}

/// The pattern actually stored for the float `bits`: a NaN collapses to the
/// canonical quiet NaN of its sign, every other float is stored verbatim.
pub open spec fn canonical_float_bits(bits: u64) -> u64 {
    if !is_nan_bits(bits) {
        bits
    } else if bits >> 63 == 0 {
        QUIET_NAN
    } else {
        NEG_QUIET_NAN
    }
}

/// The sole discriminator between the two halves of the box: a word holds a
/// float exactly when it is not a NaN, or is one of the two canonical quiet
/// NaNs (which only differ in the sign bit).
pub open spec fn is_float_bits(bits: u64) -> bool {
    !is_nan_bits(bits) || bits & SIGN_MASK == QUIET_NAN
}

/// The low six bytes of a word, assembled from a little-endian byte sequence.
pub open spec fn le_bytes_6(d: Seq<u8>) -> u64
    recommends
        d.len() == 6,
{
    (d[0] as u64) | ((d[1] as u64) << 8) | ((d[2] as u64) << 16) | ((d[3] as u64) << 24) | ((
    d[4] as u64) << 32) | ((d[5] as u64) << 40)
}

/// The 'tag' of a boxed non-float value: the sign bit of the word together
/// with a magnitude in `1..=7` held in the three lowest header bits. The
/// magnitude is never 0, so no tagged word can collide with the canonical
/// quiet NaN patterns.
#[derive(Clone, Copy, Debug, PartialEq, Eq, Structural)]
pub struct RawTag {
    /// The sign bit of the boxed word.
    pub neg: bool,
    /// The 3-bit tag magnitude, kept in `1..=7`.
    pub val: u8,
}

impl RawTag {
    /// A tag is well formed when its magnitude lies in `1..=7`.
    pub open spec fn wf(self) -> bool {
        1 <= self.val <= 7
    }

    /// Create a new tag from a sign bit and a trailing tag value. If the
    /// provided value is outside the range `1..8`, `None` is returned.
    pub fn new_checked(neg: bool, val: u8) -> (r: Option<RawTag>)
        ensures
            1 <= val <= 7 <==> r == Some(RawTag { neg, val }),
            !(1 <= val <= 7) <==> r is None,
    {
        if 1 <= val && val <= 7 {
            Some(RawTag { neg, val })
        } else {
            None
        }
    }

    /// Create a new tag from a sign bit and a trailing tag value already
    /// known to lie in the range `1..8`.
    pub fn new_unchecked(neg: bool, val: u8) -> (r: RawTag)
        requires
            1 <= val <= 7,
        ensures
            r == (RawTag { neg, val }),
            r.wf(),
    {
        RawTag { neg, val }
    }

    /// Return the sign bit of this tag.
    pub fn is_neg(self) -> (r: bool)
        ensures
            r == self.neg,
    {
        self.neg
    }

    /// Return the trailing value of this tag.
    pub fn val(self) -> (r: u8)
        ensures
            r == self.val,
    {
        self.val
    }

    /// Return the combined sign bit and trailing value of this tag.
    pub fn neg_val(self) -> (r: (bool, u8))
        ensures
            r == (self.neg, self.val),
    {
        (self.neg, self.val)
    }
}

/// The bit pattern of the header for a given tag: the quiet-NaN exponent
/// pattern `0x7FF8`, the sign bit, and the tag magnitude in the low bits.
pub open spec fn header_bits(tag: RawTag) -> u16 {
    0x7FF8u16 | (if tag.neg {
        0x8000u16
    } else {
        0u16
    }) | (tag.val as u16)
}

/// The top two bytes of a boxed non-float value.
#[derive(Clone, Copy, Debug, PartialEq, Eq, Structural)]
pub struct Header {
    /// The raw 16-bit pattern.
    pub bits: u16,
}

impl Header {
    /// A header is well formed when it carries the quiet-NaN pattern and a
    /// nonzero tag magnitude.
    pub open spec fn wf(self) -> bool {
        &&& self.bits & 0x7FF8 == 0x7FF8
        &&& self.bits & 0x0007 != 0
    }

    /// The tag a header decodes to.
    pub open spec fn tag_spec(self) -> RawTag {
        RawTag { neg: self.bits & 0x8000 != 0, val: (self.bits & 0x0007) as u8 }
    }

    /// Build the header for a tag.
    pub fn new(tag: RawTag) -> (r: Header)
        requires
            tag.wf(),
        ensures
            r.bits == header_bits(tag),
            r.wf(),
            r.tag_spec() == tag,
    {
        let s: u16 = if tag.neg {
            0x8000
        } else {
            0
        };
        let v: u16 = tag.val as u16;
        let h: u16 = 0x7FF8u16 | s | v;
        proof {
            let val0 = tag.val;
            assert(h & 0x7FF8 == 0x7FF8 && h & 0x0007 == v && h & 0x8000 == s && (h
                & 0x0007) as u8 == val0) by (bit_vector)
                requires
                    h == 0x7FF8u16 | s | v,
                    1 <= v <= 7,
                    v == val0 as u16,
                    s == 0 || s == 0x8000u16,
            ;
        }
        Header { bits: h }
    }

    /// Decode the tag of a well-formed header.
    pub fn tag(self) -> (r: RawTag)
        requires
            self.wf(),
        ensures
            r == self.tag_spec(),
            r.wf(),
    {
        let b = self.bits;
        proof {
            assert(b & 0x0007 != 0 ==> 1 <= (b & 0x0007) as u8 <= 7) by (bit_vector);
        }
        RawTag { neg: b & 0x8000 != 0, val: (b & 0x0007) as u8 }
    }

    /// The sign bit of the header.
    pub fn get_sign(self) -> (r: bool)
        ensures
            r == (self.bits & 0x8000 != 0),
    {
        self.bits & 0x8000 != 0
    }

    /// The tag magnitude held in the low three bits.
    pub fn get_tag(self) -> (r: u8)
        ensures
            r == (self.bits & 0x0007) as u8,
    {
        (self.bits & 0x0007) as u8
    }

    /// The raw 16-bit pattern of the header.
    pub fn into_raw(self) -> (r: u16)
        ensures
            r == self.bits,
    {
        self.bits
    }
}

/// A non-float value stored in a NaN box: the tag header in the top two
/// bytes and a 6-byte stored payload.
#[derive(Clone, Copy, Debug, PartialEq, Eq)]
pub struct Value {
    /// The tag header.
    pub header: Header,
    /// The 6 payload bytes, in little-endian significance order.
    pub data: [u8; 6],
}

/// The 64-bit word a `Value` occupies: header in the top 16 bits, payload in
/// the low 48.
pub open spec fn value_bits(v: Value) -> u64 {
    ((v.header.bits as u64) << 48) | le_bytes_6(v.data@)
}

/// A well-formed `Value`'s word is never read as a float: its header forces
/// the NaN exponent pattern with a nonzero tag magnitude, which no canonical
/// quiet NaN has.
pub proof fn lemma_value_is_not_float(v: Value)
    requires
        v.wf(),
    ensures
        !is_float_bits(value_bits(v)),
        value_bits(v) != QUIET_NAN,
        value_bits(v) != NEG_QUIET_NAN,
        (value_bits(v) >> 48) as u16 == v.header.bits,
{
    let h = v.header.bits;
    let d = v.data@;
    let b0 = d[0];
    let b1 = d[1];
    let b2 = d[2];
    let b3 = d[3];
    let b4 = d[4];
    let b5 = d[5];
    let w = value_bits(v);
    assert(w == ((h as u64) << 48) | ((b0 as u64) | ((b1 as u64) << 8) | ((b2 as u64) << 16) | ((
    b3 as u64) << 24) | ((b4 as u64) << 32) | ((b5 as u64) << 40)));
    assert((w & 0x7FF0_0000_0000_0000 == 0x7FF0_0000_0000_0000) && (w & 0x000F_FFFF_FFFF_FFFF != 0)
        && (w & 0x7FFF_FFFF_FFFF_FFFF != 0x7FF8_0000_0000_0000) && (w != 0x7FF8_0000_0000_0000) && (
    w != 0xFFF8_0000_0000_0000) && ((w >> 48) as u16 == h)) by (bit_vector)
        requires
            w == ((h as u64) << 48) | ((b0 as u64) | ((b1 as u64) << 8) | ((b2 as u64) << 16) | ((
            b3 as u64) << 24) | ((b4 as u64) << 32) | ((b5 as u64) << 40)),
            h & 0x7FF8 == 0x7FF8,
            h & 0x0007 != 0,
    ;
}

impl Value {
    /// A value is well formed when its header is.
    pub open spec fn wf(self) -> bool {
        self.header.wf()
    }

    /// Create a new `Value` with the specified tag and contained data.
    pub fn new(tag: RawTag, data: [u8; 6]) -> (r: Value)
        requires
            tag.wf(),
        ensures
            r.header.bits == header_bits(tag),
            r.header.tag_spec() == tag,
            r.data == data,
            r.wf(),
    {
        Value { header: Header::new(tag), data }
    }

    /// Create a new `Value` with the specified tag and all-zero data.
    pub fn empty(tag: RawTag) -> (r: Value)
        requires
            tag.wf(),
        ensures
            r.header.bits == header_bits(tag),
            r.header.tag_spec() == tag,
            r.wf(),
            r.data@ =~= seq![0u8, 0u8, 0u8, 0u8, 0u8, 0u8],
    {
        Value::new(tag, [0, 0, 0, 0, 0, 0])
    }

    /// Create a new `Value` with the specified tag, containing the provided
    /// payload.
    pub fn store<T: RawStore>(tag: RawTag, val: T) -> (r: Value)
        requires
            tag.wf(),
            val.storable(),
        ensures
            r.header.bits == header_bits(tag),
            r.header.tag_spec() == tag,
            r.wf(),
            r.data@ == val.encoded(),
    {
        let mut v = Value::new(tag, [0, 0, 0, 0, 0, 0]);
        T::to_val(val, &mut v);
        v
    }

    /// Load the specified type out of this `Value`. This performs no checking
    /// of the tag: the caller decides what the payload means.
    pub fn load<T: RawStore>(self) -> (r: T)
        ensures
            r == T::decoded(self.data@),
    {
        T::from_val(&self)
    }

    /// Retrieve the tag of this `Value`. Callers should generally check this
    /// before calling [`load`](Self::load).
    pub fn tag(&self) -> (r: RawTag)
        requires
            self.wf(),
        ensures
            r == self.header.tag_spec(),
            r.wf(),
    {
        self.header.tag()
    }

    /// The payload bytes of this value.
    pub fn data(&self) -> (r: &[u8; 6])
        ensures
            r == self.data,
    {
        &self.data
    }

    /// Replace the payload bytes of this value. The header, and with it the
    /// tag, is untouched, so a well-formed value stays well formed whatever
    /// is written.
    pub fn set_data(&mut self, val: [u8; 6])
        ensures
            final(self).header == old(self).header,
            final(self).data == val,
    {
        self.data = val;
    }
}

/// Types that can be stored in the 6-byte payload of a [`Value`]. Each
/// implementation fixes an encoding into little-endian payload bytes and the
/// decoding applied when the payload is read back.
pub trait RawStore: Sized {
    /// Which values of the type may be stored. Everything but an address
    /// wider than 48 bits is storable.
    spec fn storable(self) -> bool;

    /// The 6 payload bytes this value is stored as.
    spec fn encoded(self) -> Seq<u8>;

    /// The value read back out of the payload bytes `data`.
    spec fn decoded(data: Seq<u8>) -> Self;

    /// Encoding then decoding returns the stored value.
    proof fn lemma_roundtrip(self)
        requires
            self.storable(),
        ensures
            Self::decoded(self.encoded()) == self,
            self.encoded().len() == 6,
    ;

    /// Store an instance of this type into a [`Value`]'s payload.
    fn to_val(self, value: &mut Value)
        requires
            self.storable(),
        ensures
            final(value).header == old(value).header,
            final(value).data@ == self.encoded(),
    ;

    /// Read an instance of this type out of a [`Value`]'s payload. This must
    /// be total: it returns some value even if the payload was stored as a
    /// different type.
    fn from_val(value: &Value) -> (r: Self)
        ensures
            r == Self::decoded(value.data@),
    ;
}

impl RawStore for bool {
    open spec fn storable(self) -> bool {
        true
    }

    open spec fn encoded(self) -> Seq<u8> {
        seq![
            if self {
                1u8
            } else {
                0u8
            },
            0u8,
            0u8,
            0u8,
            0u8,
            0u8,
        ]
    }

    open spec fn decoded(data: Seq<u8>) -> bool {
        data[0] == 1
    }

    proof fn lemma_roundtrip(self) {
    }

    fn to_val(self, value: &mut Value) {
        let b: u8 = if self {
            1
        } else {
            0
        };
        value.set_data([b, 0, 0, 0, 0, 0]);
        proof {
            assert(value.data@ =~= self.encoded());
        }
    }

    fn from_val(value: &Value) -> (r: bool) {
        value.data()[0] == 1
    }
}

impl RawStore for u32 {
    open spec fn storable(self) -> bool {
        true
    }

    open spec fn encoded(self) -> Seq<u8> {
        seq![
            (self & 0xFF) as u8,
            ((self >> 8) & 0xFF) as u8,
            ((self >> 16) & 0xFF) as u8,
            ((self >> 24) & 0xFF) as u8,
            0u8,
            0u8,
        ]
    }

    open spec fn decoded(data: Seq<u8>) -> u32 {
        (data[0] as u32) | ((data[1] as u32) << 8) | ((data[2] as u32) << 16) | ((
        data[3] as u32) << 24)
    }

    proof fn lemma_roundtrip(self) {
        let x = self;
        assert(((x & 0xFF) as u8 as u32) | (((x >> 8) & 0xFF) as u8 as u32) << 8 | (((x >> 16)
            & 0xFF) as u8 as u32) << 16 | (((x >> 24) & 0xFF) as u8 as u32) << 24 == x)
            by (bit_vector);
    }

    fn to_val(self, value: &mut Value) {
        let b0: u8 = (self & 0xFF) as u8;
        let b1: u8 = #[verifier::truncate] ((self >> 8) as u8);
        let b2: u8 = #[verifier::truncate] ((self >> 16) as u8);
        let b3: u8 = #[verifier::truncate] ((self >> 24) as u8);
        proof {
            let x = self;
            assert((x >> 8) as u8 == ((x >> 8) & 0xFF) as u8 && (x >> 16) as u8 == ((x >> 16)
                & 0xFF) as u8 && (x >> 24) as u8 == ((x >> 24) & 0xFF) as u8) by (bit_vector);
        }
        value.set_data([b0, b1, b2, b3, 0, 0]);
        proof {
            assert(value.data@ =~= self.encoded());
        }
    }

    fn from_val(value: &Value) -> (r: u32) {
        let d = value.data();
        (d[0] as u32) | ((d[1] as u32) << 8) | ((d[2] as u32) << 16) | ((d[3] as u32) << 24)
    }
}

impl RawStore for i32 {
    open spec fn storable(self) -> bool {
        true
    }

    open spec fn encoded(self) -> Seq<u8> {
        (self as u32).encoded()
    }

    open spec fn decoded(data: Seq<u8>) -> i32 {
        <u32 as RawStore>::decoded(data) as i32
    }

    proof fn lemma_roundtrip(self) {
        (self as u32).lemma_roundtrip();
        assert(self as u32 as i32 == self) by (bit_vector);
    }

    fn to_val(self, value: &mut Value) {
        let x: u32 = #[verifier::truncate] (self as u32);
        x.to_val(value);
    }

    fn from_val(value: &Value) -> (r: i32) {
        let x: u32 = u32::from_val(value);
        #[verifier::truncate] (x as i32)
    }
}

impl RawStore for u16 {
    open spec fn storable(self) -> bool {
        true
    }

    open spec fn encoded(self) -> Seq<u8> {
        seq![(self & 0xFF) as u8, ((self >> 8) & 0xFF) as u8, 0u8, 0u8, 0u8, 0u8]
    }

    open spec fn decoded(data: Seq<u8>) -> u16 {
        (data[0] as u16) | ((data[1] as u16) << 8)
    }

    proof fn lemma_roundtrip(self) {
        let x = self;
        assert(((x & 0xFF) as u8 as u16) | (((x >> 8) & 0xFF) as u8 as u16) << 8 == x)
            by (bit_vector);
    }

    fn to_val(self, value: &mut Value) {
        let b0: u8 = (self & 0xFF) as u8;
        let b1: u8 = #[verifier::truncate] ((self >> 8) as u8);
        proof {
            let x = self;
            assert((x >> 8) as u8 == ((x >> 8) & 0xFF) as u8) by (bit_vector);
        }
        value.set_data([b0, b1, 0, 0, 0, 0]);
        proof {
            assert(value.data@ =~= self.encoded());
        }
    }

    fn from_val(value: &Value) -> (r: u16) {
        let d = value.data();
        (d[0] as u16) | ((d[1] as u16) << 8)
    }
}

impl RawStore for i16 {
    open spec fn storable(self) -> bool {
        true
    }

    open spec fn encoded(self) -> Seq<u8> {
        (self as u16).encoded()
    }

    open spec fn decoded(data: Seq<u8>) -> i16 {
        <u16 as RawStore>::decoded(data) as i16
    }

    proof fn lemma_roundtrip(self) {
        (self as u16).lemma_roundtrip();
        assert(self as u16 as i16 == self) by (bit_vector);
    }

    fn to_val(self, value: &mut Value) {
        let x: u16 = #[verifier::truncate] (self as u16);
        x.to_val(value);
    }

    fn from_val(value: &Value) -> (r: i16) {
        let x: u16 = u16::from_val(value);
        #[verifier::truncate] (x as i16)
    }
}

impl RawStore for u8 {
    open spec fn storable(self) -> bool {
        true
    }

    open spec fn encoded(self) -> Seq<u8> {
        seq![self, 0u8, 0u8, 0u8, 0u8, 0u8]
    }

    open spec fn decoded(data: Seq<u8>) -> u8 {
        data[0]
    }

    proof fn lemma_roundtrip(self) {
    }

    fn to_val(self, value: &mut Value) {
        value.set_data([self, 0, 0, 0, 0, 0]);
        proof {
            assert(value.data@ =~= self.encoded());
        }
    }

    fn from_val(value: &Value) -> (r: u8) {
        value.data()[0]
    }
}

impl RawStore for i8 {
    open spec fn storable(self) -> bool {
        true
    }

    open spec fn encoded(self) -> Seq<u8> {
        (self as u8).encoded()
    }

    open spec fn decoded(data: Seq<u8>) -> i8 {
        <u8 as RawStore>::decoded(data) as i8
    }

    proof fn lemma_roundtrip(self) {
        (self as u8).lemma_roundtrip();
        assert(self as u8 as i8 == self) by (bit_vector);
    }

    fn to_val(self, value: &mut Value) {
        let x: u8 = #[verifier::truncate] (self as u8);
        x.to_val(value);
    }

    fn from_val(value: &Value) -> (r: i8) {
        let x: u8 = u8::from_val(value);
        #[verifier::truncate] (x as i8)
    }
}

/// A machine address stored in a NaN box. On 64-bit targets an address must
/// fit in 48 bits to be representable at all; an address that does not is
/// rejected at handle construction, never silently truncated.
#[derive(Clone, Copy, Debug, PartialEq, Eq, Structural)]
pub struct RawAddr {
    /// The address, below `2^48`.
    pub addr: u64,
}

impl RawStore for RawAddr {
    open spec fn storable(self) -> bool {
        self.addr < 0x1_0000_0000_0000
    }

    open spec fn encoded(self) -> Seq<u8> {
        seq![
            (self.addr & 0xFF) as u8,
            ((self.addr >> 8) & 0xFF) as u8,
            ((self.addr >> 16) & 0xFF) as u8,
            ((self.addr >> 24) & 0xFF) as u8,
            ((self.addr >> 32) & 0xFF) as u8,
            ((self.addr >> 40) & 0xFF) as u8,
        ]
    }

    open spec fn decoded(data: Seq<u8>) -> RawAddr {
        RawAddr {
            addr: (data[0] as u64) | ((data[1] as u64) << 8) | ((data[2] as u64) << 16) | ((
            data[3] as u64) << 24) | ((data[4] as u64) << 32) | ((data[5] as u64) << 40),
        }
    }

    proof fn lemma_roundtrip(self) {
        let x = self.addr;
        assert(((x & 0xFF) as u8 as u64) | (((x >> 8) & 0xFF) as u8 as u64) << 8 | (((x >> 16)
            & 0xFF) as u8 as u64) << 16 | (((x >> 24) & 0xFF) as u8 as u64) << 24 | (((x >> 32)
            & 0xFF) as u8 as u64) << 32 | (((x >> 40) & 0xFF) as u8 as u64) << 40 == x)
            by (bit_vector)
            requires
                x < 0x1_0000_0000_0000,
        ;
    }

    fn to_val(self, value: &mut Value) {
        let x = self.addr;
        let b0: u8 = (x & 0xFF) as u8;
        let b1: u8 = #[verifier::truncate] ((x >> 8) as u8);
        let b2: u8 = #[verifier::truncate] ((x >> 16) as u8);
        let b3: u8 = #[verifier::truncate] ((x >> 24) as u8);
        let b4: u8 = #[verifier::truncate] ((x >> 32) as u8);
        let b5: u8 = #[verifier::truncate] ((x >> 40) as u8);
        proof {
            assert((x >> 8) as u8 == ((x >> 8) & 0xFF) as u8 && (x >> 16) as u8 == ((x >> 16)
                & 0xFF) as u8 && (x >> 24) as u8 == ((x >> 24) & 0xFF) as u8 && (x >> 32) as u8 == ((
            x >> 32) & 0xFF) as u8 && (x >> 40) as u8 == ((x >> 40) & 0xFF) as u8) by (bit_vector);
        }
        value.set_data([b0, b1, b2, b3, b4, b5]);
        proof {
            assert(value.data@ =~= self.encoded());
        }
    }

    fn from_val(value: &Value) -> (r: RawAddr) {
        let d = value.data();
        RawAddr {
            addr: (d[0] as u64) | ((d[1] as u64) << 8) | ((d[2] as u64) << 16) | ((
            d[3] as u64) << 24) | ((d[4] as u64) << 32) | ((d[5] as u64) << 40),
        }
    }
}

/// The low six bytes of a word, split back into the little-endian byte
/// sequence they were stored from.
pub open spec fn word_data(bits: u64) -> Seq<u8> {
    seq![
        (bits & 0xFF) as u8,
        ((bits >> 8) & 0xFF) as u8,
        ((bits >> 16) & 0xFF) as u8,
        ((bits >> 24) & 0xFF) as u8,
        ((bits >> 32) & 0xFF) as u8,
        ((bits >> 40) & 0xFF) as u8,
    ]
}

/// Splitting a value's word back into bytes returns exactly the payload
/// bytes the value stores.
pub proof fn lemma_word_data_of_value(v: Value)
    ensures
        word_data(value_bits(v)) =~= v.data@,
{
    let h = v.header.bits;
    let d = v.data@;
    let b0 = d[0];
    let b1 = d[1];
    let b2 = d[2];
    let b3 = d[3];
    let b4 = d[4];
    let b5 = d[5];
    let w = value_bits(v);
    assert(((w & 0xFF) as u8 == b0) && (((w >> 8) & 0xFF) as u8 == b1) && (((w >> 16) & 0xFF) as u8
        == b2) && (((w >> 24) & 0xFF) as u8 == b3) && (((w >> 32) & 0xFF) as u8 == b4) && (((w
        >> 40) & 0xFF) as u8 == b5)) by (bit_vector)
        requires
            w == ((h as u64) << 48) | ((b0 as u64) | ((b1 as u64) << 8) | ((b2 as u64) << 16) | ((
            b3 as u64) << 24) | ((b4 as u64) << 32) | ((b5 as u64) << 40)),
    ;
}

/// Packing a `Value` into its word loses nothing: two values with the same
/// word agree on the header and on every payload byte.
pub proof fn lemma_value_bits_injective(a: Value, b: Value)
    requires
        value_bits(a) == value_bits(b),
    ensures
        a.header == b.header,
        a.data@ =~= b.data@,
{
    let ha = a.header.bits;
    let hb = b.header.bits;
    let a0 = a.data@[0];
    let a1 = a.data@[1];
    let a2 = a.data@[2];
    let a3 = a.data@[3];
    let a4 = a.data@[4];
    let a5 = a.data@[5];
    let b0 = b.data@[0];
    let b1 = b.data@[1];
    let b2 = b.data@[2];
    let b3 = b.data@[3];
    let b4 = b.data@[4];
    let b5 = b.data@[5];
    assert(ha == hb && a0 == b0 && a1 == b1 && a2 == b2 && a3 == b3 && a4 == b4 && a5 == b5)
        by (bit_vector)
        requires
            ((ha as u64) << 48) | ((a0 as u64) | ((a1 as u64) << 8) | ((a2 as u64) << 16) | ((
            a3 as u64) << 24) | ((a4 as u64) << 32) | ((a5 as u64) << 40)) == ((hb as u64) << 48)
                | ((b0 as u64) | ((b1 as u64) << 8) | ((b2 as u64) << 16) | ((b3 as u64) << 24) | ((
            b4 as u64) << 32) | ((b5 as u64) << 40)),
    ;
    assert(a.data@.len() == 6 && b.data@.len() == 6);
}

/// A 'raw' NaN box: one 64-bit word holding either a float's own pattern or
/// a tagged [`Value`]. Reading the word as a float and testing it against
/// the canonical quiet NaNs is the sole discriminator between the two; no
/// separate discriminant exists.
///
/// A NaN float is normalized to `QUIET_NAN` or `NEG_QUIET_NAN` on the way
/// in, preserving only its sign, and a stored [`Value`]'s tag magnitude is
/// never 0: together these keep the two halves of the encoding disjoint.
#[derive(Clone, Copy, Debug, PartialEq, Eq, Structural)]
pub struct RawBox {
    /// The 8-byte word, as the bits of an IEEE-754 double.
    pub bits: u64,
}

impl RawBox {
    /// A box is well formed when it either reads as a float or decodes to a
    /// well-formed header. Both constructors establish this.
    pub open spec fn wf(self) -> bool {
        is_float_bits(self.bits) || (Header { bits: (self.bits >> 48) as u16 }).wf()
    }

    /// The tag this box decodes to, or `None` for a float.
    pub open spec fn tag_spec(self) -> Option<RawTag> {
        if is_float_bits(self.bits) {
            None
        } else {
            Some((Header { bits: (self.bits >> 48) as u16 }).tag_spec())
        }
    }

    /// Create a new box from the bits of a float. A NaN pattern is
    /// normalized to the canonical quiet NaN of its sign; every other
    /// pattern is stored verbatim.
    pub fn from_float(bits: u64) -> (r: RawBox)
        ensures
            r.bits == canonical_float_bits(bits),
            is_float_bits(r.bits),
            r.wf(),
    {
        let exp_nan = bits & 0x7FF0_0000_0000_0000 == 0x7FF0_0000_0000_0000;
        let frac = bits & 0x000F_FFFF_FFFF_FFFF != 0;
        if exp_nan && frac {
            proof {
                assert(QUIET_NAN & 0x7FFF_FFFF_FFFF_FFFFu64 == QUIET_NAN && NEG_QUIET_NAN
                    & 0x7FFF_FFFF_FFFF_FFFFu64 == QUIET_NAN) by (bit_vector);
            }
            if bits >> 63 == 0 {
                RawBox { bits: QUIET_NAN }
            } else {
                RawBox { bits: NEG_QUIET_NAN }
            }
        } else {
            RawBox { bits }
        }
    }

    /// Create a new box from a non-float value stored in a NaN pattern.
    pub fn from_value(value: Value) -> (r: RawBox)
        requires
            value.wf(),
        ensures
            r.bits == value_bits(value),
            !is_float_bits(r.bits),
            r.tag_spec() == Some(value.header.tag_spec()),
            r.wf(),
    {
        let h = value.header.bits;
        let d = value.data;
        let low: u64 = (d[0] as u64) | ((d[1] as u64) << 8) | ((d[2] as u64) << 16) | ((
        d[3] as u64) << 24) | ((d[4] as u64) << 32) | ((d[5] as u64) << 40);
        let bits: u64 = ((h as u64) << 48) | low;
        proof {
            lemma_value_is_not_float(value);
            let w = value_bits(value);
            assert((w >> 48) as u16 == h && (Header { bits: (w >> 48) as u16 }).wf());
        }
        RawBox { bits }
    }

    /// Whether the box holds a float.
    pub fn is_float(&self) -> (r: bool)
        ensures
            r == is_float_bits(self.bits),
    {
        let exp_nan = self.bits & 0x7FF0_0000_0000_0000 == 0x7FF0_0000_0000_0000;
        let frac = self.bits & 0x000F_FFFF_FFFF_FFFF != 0;
        !(exp_nan && frac) || self.bits & SIGN_MASK == QUIET_NAN
    }

    /// Whether the box holds a non-float value.
    pub fn is_value(&self) -> (r: bool)
        ensures
            r == !is_float_bits(self.bits),
    {
        !self.is_float()
    }

    /// The tag of the stored value, or `None` for a float.
    pub fn tag(&self) -> (r: Option<RawTag>)
        requires
            self.wf(),
        ensures
            r == self.tag_spec(),
            r matches Some(t) ==> t.wf(),
    {
        if self.is_value() {
            let h = Header { bits: #[verifier::truncate] ((self.bits >> 48) as u16) };
            Some(h.tag())
        } else {
            None
        }
    }

    /// The bits of the stored float, or `None` if the box holds a value.
    pub fn float(&self) -> (r: Option<u64>)
        ensures
            is_float_bits(self.bits) ==> r == Some(self.bits),
            !is_float_bits(self.bits) ==> r is None,
    {
        if self.is_float() {
            Some(self.bits)
        } else {
            None
        }
    }

    /// The stored [`Value`], or `None` if the box holds a float. The
    /// returned value decodes the word exactly: its header is the top two
    /// bytes and its payload the low six.
    pub fn value(&self) -> (r: Option<Value>)
        requires
            self.wf(),
        ensures
            !is_float_bits(self.bits) ==> (r matches Some(v) && v.wf() && v.header.bits == (
            self.bits >> 48) as u16 && value_bits(v) == self.bits),
            is_float_bits(self.bits) ==> r is None,
    {
        if self.is_value() {
            let w = self.bits;
            let h = Header { bits: #[verifier::truncate] ((w >> 48) as u16) };
            let d: [u8; 6] = [
                (w & 0xFF) as u8,
                #[verifier::truncate] ((w >> 8) as u8),
                #[verifier::truncate] ((w >> 16) as u8),
                #[verifier::truncate] ((w >> 24) as u8),
                #[verifier::truncate] ((w >> 32) as u8),
                #[verifier::truncate] ((w >> 40) as u8),
            ];
            let v = Value { header: h, data: d };
            proof {
                assert(((((w >> 48) as u16) as u64) << 48) | ((((w & 0xFF) as u8) as u64) | ((((w
                    >> 8) as u8) as u64) << 8) | ((((w >> 16) as u8) as u64) << 16) | ((((w
                    >> 24) as u8) as u64) << 24) | ((((w >> 32) as u8) as u64) << 32) | ((((w
                    >> 40) as u8) as u64) << 40)) == w) by (bit_vector);
                assert(value_bits(v) == w);
            }
            Some(v)
        } else {
            None
        }
    }

    /// Overwrite a float slot with new float bits, normalizing a NaN to its
    /// canonical pattern. Only a box that already holds a float may be
    /// written through this, so a box never silently changes halves.
    pub fn write_float(&mut self, bits: u64)
        requires
            is_float_bits(old(self).bits),
        ensures
            final(self).bits == canonical_float_bits(bits),
            is_float_bits(final(self).bits),
            final(self).wf(),
    {
        *self = RawBox::from_float(bits);
    }

    /// Convert this box into the bits of its float, if it holds one;
    /// otherwise hand the box back.
    pub fn into_float(self) -> (r: Result<u64, RawBox>)
        ensures
            is_float_bits(self.bits) ==> r == Ok::<u64, RawBox>(self.bits),
            !is_float_bits(self.bits) ==> r == Err::<u64, RawBox>(self),
    {
        if self.is_float() {
            Ok(self.bits)
        } else {
            Err(self)
        }
    }

    /// Convert this box into its stored [`Value`], if it holds one;
    /// otherwise hand the box back.
    pub fn into_value(self) -> (r: Result<Value, RawBox>)
        requires
            self.wf(),
        ensures
            !is_float_bits(self.bits) ==> (r matches Ok(v) && v.wf() && value_bits(v) == self.bits
                && v.header.bits == (self.bits >> 48) as u16),
            is_float_bits(self.bits) ==> r == Err::<Value, RawBox>(self),
    {
        match self.value() {
            Some(v) => Ok(v),
            None => Err(self),
        }
    }

    /// Read the word as float bits without checking which half it holds. A
    /// stored value reads as 'some NaN', poisoning later arithmetic rather
    /// than leaking a normal-looking float.
    pub fn into_float_unchecked(self) -> (r: u64)
        ensures
            r == self.bits,
    {
        self.bits
    }
}

/// The two halves of the encoding are disjoint: no well-formed tagged value
/// occupies a pattern the float side can produce, and canonicalization never
/// produces a pattern the value side can hold.
pub proof fn lemma_tag_float_disjoint(v: Value, f: u64)
    requires
        v.wf(),
    ensures
        value_bits(v) != canonical_float_bits(f),
        !is_float_bits(value_bits(v)),
        is_float_bits(canonical_float_bits(f)),
{
    lemma_value_is_not_float(v);
    if is_nan_bits(f) {
        assert(QUIET_NAN & 0x7FFF_FFFF_FFFF_FFFFu64 == QUIET_NAN && NEG_QUIET_NAN
            & 0x7FFF_FFFF_FFFF_FFFFu64 == QUIET_NAN) by (bit_vector);
    }
}

} // verus!
