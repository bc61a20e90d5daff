//! String slices over the two code-unit encodings.
//!
//! A [`JsStr`] holds a run of UTF-16 code units in one of two storages:
//! `Latin1`, one byte per unit for strings whose units all fit a byte, and
//! `Utf16`, the full two-byte form. Every operation is specified against
//! the unified unit sequence, so the two storages are observably the same
//! string whenever their units agree.

use vstd::prelude::*;

verus! {

/// The storage of a [`JsStr`].
#[derive(Debug, Clone)]
pub enum JsStrVariant {
    /// One byte per code unit; covers units up to `0xFF`.
    Latin1(Vec<u8>),
    /// The full two-byte form.
    Utf16(Vec<u16>),
}

/// A run of UTF-16 code units, stored in whichever of the two encodings
/// fits.
#[derive(Debug, Clone)]
pub struct JsStr {
    /// The stored units.
    pub inner: JsStrVariant,
}

/// A code point read out of a UTF-16 sequence: a Unicode scalar, or a
/// surrogate half with no partner.
#[derive(Clone, Copy, Debug, PartialEq, Eq, Structural)]
pub enum CodePoint {
    /// A Unicode scalar value.
    Unicode(char),
    /// A lead or trail surrogate with no matching partner.
    UnpairedSurrogate(u16),
}

/// Whether `c` is a lead (high) surrogate.
pub open spec fn is_lead_surrogate(c: u16) -> bool {
    0xD800 <= c < 0xDC00
}

/// Whether `c` is a trail (low) surrogate.
pub open spec fn is_trail_surrogate(c: u16) -> bool {
    0xDC00 <= c < 0xE000
}

/// The scalar value of a surrogate pair.
pub open spec fn combine_surrogates(lead: u16, trail: u16) -> u32 {
    (0x10000 + (((lead - 0xD800) * 0x400) + (trail - 0xDC00))) as u32
}

/// How many units the first code point of `s` spans: 2 for a lead
/// surrogate followed by a trail surrogate, 1 otherwise.
pub open spec fn first_code_point_len(s: Seq<u16>) -> int
    recommends
        s.len() > 0,
{
    if is_lead_surrogate(s[0]) && s.len() >= 2 && is_trail_surrogate(s[1]) {
        2
    } else {
        1
    }
}

/// The first code point of `s`: a paired surrogate combines into one
/// scalar, a lone surrogate half stays unpaired, anything else is itself.
pub open spec fn first_code_point(s: Seq<u16>) -> CodePoint
    recommends
        s.len() > 0,
{
    let c = s[0];
    if is_lead_surrogate(c) && s.len() >= 2 && is_trail_surrogate(s[1]) {
        CodePoint::Unicode(combine_surrogates(c, s[1]) as char)
    } else if is_lead_surrogate(c) || is_trail_surrogate(c) {
        CodePoint::UnpairedSurrogate(c)
    } else {
        CodePoint::Unicode((c as u32) as char)
    }
}

/// All code points of `s`, in order.
pub open spec fn code_points_spec(s: Seq<u16>) -> Seq<CodePoint>
    decreases s.len(),
{
    if s.len() == 0 {
        Seq::empty()
    } else {
        seq![first_code_point(s)] + code_points_spec(s.skip(first_code_point_len(s)))
    }
}

/// A code point as a `char`, with an unpaired surrogate replaced by the
/// replacement character.
pub open spec fn lossy_char(cp: CodePoint) -> char {
    match cp {
        CodePoint::Unicode(c) => c,
        CodePoint::UnpairedSurrogate(_) => '\u{FFFD}',
    }
}

/// Whether `needle` occurs in `haystack` at offset `i`.
pub open spec fn matches_at(haystack: Seq<u16>, needle: Seq<u16>, i: int) -> bool
    recommends
        0 <= i,
        i + needle.len() <= haystack.len(),
{
    haystack.subrange(i, i + needle.len()) == needle
}

/// Relies on char::from_u32: it returns the scalar with the given value
/// exactly for values that are scalars, i.e. everything below `0x110000`
/// except the surrogate range.
#[verifier::external_body]
fn char_from_u32(i: u32) -> (r: Option<char>)
    ensures
        (i < 0xD800 || (0xE000 <= i && i <= 0x10FFFF)) <==> (r matches Some(c) && c as u32 == i),
        !(i < 0xD800 || (0xE000 <= i && i <= 0x10FFFF)) <==> r is None,
{
    char::from_u32(i)
}

impl JsStr {
    /// The string as its sequence of UTF-16 code units, whichever storage
    /// holds them.
    pub open spec fn units(self) -> Seq<u16> {
        match self.inner {
            JsStrVariant::Latin1(v) => v@.map_values(|c: u8| c as u16),
            JsStrVariant::Utf16(v) => v@,
        }
    }

    /// Create a [`JsStr`] from code units that each fit in a byte.
    pub fn latin1(value: Vec<u8>) -> (r: JsStr)
        ensures
            r.inner == JsStrVariant::Latin1(value),
            r.units() == value@.map_values(|c: u8| c as u16),
    {
        JsStr { inner: JsStrVariant::Latin1(value) }
    }

    /// Create a [`JsStr`] from UTF-16 code units.
    pub fn utf16(value: Vec<u16>) -> (r: JsStr)
        ensures
            r.inner == JsStrVariant::Utf16(value),
            r.units() == value@,
    {
        JsStr { inner: JsStrVariant::Utf16(value) }
    }

    /// The number of code units.
    pub fn len(&self) -> (r: usize)
        ensures
            r == self.units().len(),
    {
        match &self.inner {
            JsStrVariant::Latin1(v) => v.len(),
            JsStrVariant::Utf16(v) => v.len(),
        }
    }

    /// The inner storage.
    pub fn variant(&self) -> (r: &JsStrVariant)
        ensures
            r == &self.inner,
    {
        &self.inner
    }

    /// Whether the string is byte-per-unit encoded.
    pub fn is_latin1(&self) -> (r: bool)
        ensures
            r == (self.inner is Latin1),
    {
        matches!(self.inner, JsStrVariant::Latin1(_))
    }

    /// The byte storage, if the string is byte-per-unit encoded.
    pub fn as_latin1(&self) -> (r: Option<&Vec<u8>>)
        ensures
            self.inner matches JsStrVariant::Latin1(v) ==> (r matches Some(x) && *x == v),
            self.inner is Utf16 ==> r is None,
    {
        match &self.inner {
            JsStrVariant::Latin1(v) => Some(v),
            JsStrVariant::Utf16(_) => None,
        }
    }

    /// Whether the string has no units.
    pub fn is_empty(&self) -> (r: bool)
        ensures
            r == (self.units().len() == 0),
    {
        self.len() == 0
    }

    /// The code unit at index `i`.
    fn unit_at(&self, i: usize) -> (r: u16)
        requires
            i < self.units().len(),
        ensures
            r == self.units()[i as int],
    {
        match &self.inner {
            JsStrVariant::Latin1(v) => v[i] as u16,
            JsStrVariant::Utf16(v) => v[i],
        }
    }

    /// The string's units, one by one. This materializes the iteration
    /// order: the unit sequence itself.
    pub fn iter(&self) -> (r: Vec<u16>)
        ensures
            r@ == self.units(),
    {
        self.to_vec()
    }

    /// Convert the string into its full two-byte form.
    pub fn to_vec(&self) -> (r: Vec<u16>)
        ensures
            r@ == self.units(),
    {
        let mut out: Vec<u16> = Vec::new();
        let n = self.len();
        let mut i: usize = 0;
        while i < n
            invariant
                0 <= i <= n == self.units().len(),
                out@ == self.units().subrange(0, i as int),
            decreases n - i,
        {
            out.push(self.unit_at(i));
            proof {
                assert(self.units().subrange(0, i + 1) =~= self.units().subrange(0, i as int).push(
                    self.units()[i as int],
                ));
            }
            i = i + 1;
        }
        proof {
            assert(self.units().subrange(0, n as int) =~= self.units());
        }
        out
    }

    /// Whether `needle` occurs at offset `at`.
    fn matches_at_idx(&self, needle: &JsStr, at: usize) -> (r: bool)
        requires
            at + needle.units().len() <= self.units().len(),
        ensures
            r == matches_at(self.units(), needle.units(), at as int),
    {
        let m = self.len();
        let n = needle.len();
        let mut k: usize = 0;
        while k < n
            invariant
                0 <= k <= n == needle.units().len(),
                at + n <= m == self.units().len(),
                forall|j: int| 0 <= j < k ==> self.units()[at + j] == needle.units()[j],
            decreases n - k,
        {
            if self.unit_at(at + k) != needle.unit_at(k) {
                proof {
                    assert(self.units().subrange(at as int, at + n)[k as int] != needle.units()[
                    k as int]);
                }
                return false;
            }
            k = k + 1;
        }
        proof {
            assert(self.units().subrange(at as int, at + n) =~= needle.units());
        }
        true
    }

    /// Returns true if `needle` is a prefix of the string.
    pub fn starts_with(&self, needle: &JsStr) -> (r: bool)
        ensures
            r == (needle.units().len() <= self.units().len() && matches_at(
                self.units(),
                needle.units(),
                0,
            )),
    {
        let n = needle.len();
        self.len() >= n && self.matches_at_idx(needle, 0)
    }

    /// Returns true if `needle` is a suffix of the string.
    pub fn ends_with(&self, needle: &JsStr) -> (r: bool)
        ensures
            r == (needle.units().len() <= self.units().len() && matches_at(
                self.units(),
                needle.units(),
                self.units().len() - needle.units().len(),
            )),
    {
        let m = self.len();
        let n = needle.len();
        m >= n && self.matches_at_idx(needle, m - n)
    }

    /// The first offset at or after `from_index` where `search_value`
    /// occurs, or `None` if it occurs nowhere in range. An empty search
    /// string occurs at `from_index` itself whenever that is within the
    /// string.
    pub fn index_of(&self, search_value: &JsStr, from_index: usize) -> (r: Option<usize>)
        ensures
            r matches Some(i) ==> from_index <= i && i + search_value.units().len()
                <= self.units().len() && matches_at(self.units(), search_value.units(), i as int)
                && (forall|j: int|
                from_index <= j < i ==> !matches_at(self.units(), search_value.units(), j)),
            r is None ==> forall|j: int|
                from_index <= j && j + search_value.units().len() <= self.units().len()
                    ==> !matches_at(self.units(), search_value.units(), j),
    {
        let len = self.len();
        let n = search_value.len();
        if n == 0 {
            if from_index <= len {
                proof {
                    assert(self.units().subrange(from_index as int, from_index as int)
                        =~= search_value.units());
                }
                return Some(from_index);
            }
            return None;
        }
        if n > len {
            return None;
        }
        let last = len - n;
        if from_index > last {
            return None;
        }
        let mut i: usize = from_index;
        while i <= last
            invariant
                from_index <= i <= last + 1,
                n == search_value.units().len(),
                len == self.units().len(),
                1 <= n <= len,
                last == len - n,
                forall|j: int|
                    from_index <= j < i ==> !matches_at(self.units(), search_value.units(), j),
            decreases last + 1 - i,
        {
            if self.matches_at_idx(search_value, i) {
                return Some(i);
            }
            i = i + 1;
        }
        None
    }

    /// The code point starting at unit index `position`: a whole surrogate
    /// pair if one starts there, otherwise the single unit, unpaired if it
    /// is a lone surrogate half.
    pub fn code_point_at(&self, position: usize) -> (r: CodePoint)
        requires
            position < self.units().len(),
        ensures
            r == first_code_point(self.units().skip(position as int)),
    {
        let len = self.len();
        let first = self.unit_at(position);
        let ghost rest = self.units().skip(position as int);
        proof {
            assert(rest[0] == self.units()[position as int]);
        }
        if 0xD800 <= first && first < 0xDC00 {
            if position + 1 < len {
                let second = self.unit_at(position + 1);
                proof {
                    assert(rest[1] == self.units()[position + 1]);
                }
                if 0xDC00 <= second && second < 0xE000 {
                    let scalar: u32 = 0x10000 + (((first - 0xD800) as u32) * 0x400) + ((second
                        - 0xDC00) as u32);
                    let c = char_from_u32(scalar);
                    match c {
                        Some(c) => {
                            proof {
                                vstd::utf8::char_u32_cast(c, scalar);
                            }
                            return CodePoint::Unicode(c);
                        },
                        None => {
                            proof {
                                assert(false);
                            }
                        },
                    }
                }
            }
            CodePoint::UnpairedSurrogate(first)
        } else if 0xDC00 <= first && first < 0xE000 {
            CodePoint::UnpairedSurrogate(first)
        } else {
            let c = char_from_u32(first as u32);
            match c {
                Some(c) => {
                    proof {
                        vstd::utf8::char_u32_cast(c, first as u32);
                    }
                    CodePoint::Unicode(c)
                },
                None => {
                    proof {
                        assert(false);
                    }
                    CodePoint::UnpairedSurrogate(first)
                },
            }
        }
    }

    /// All the code points of the string, in order.
    pub fn code_points(&self) -> (r: Vec<CodePoint>)
        ensures
            r@ == code_points_spec(self.units()),
    {
        let len = self.len();
        let mut out: Vec<CodePoint> = Vec::new();
        let mut pos: usize = 0;
        proof {
            assert(self.units().skip(0) =~= self.units());
            assert(Seq::<CodePoint>::empty() + code_points_spec(self.units()) =~= code_points_spec(
                self.units(),
            ));
        }
        while pos < len
            invariant
                0 <= pos <= len == self.units().len(),
                code_points_spec(self.units()) == out@ + code_points_spec(
                    self.units().skip(pos as int),
                ),
            decreases len - pos,
        {
            let ghost rest = self.units().skip(pos as int);
            let cp = self.code_point_at(pos);
            let first = self.unit_at(pos);
            let step: usize = if 0xD800 <= first && first < 0xDC00 && pos + 1 < len {
                let second = self.unit_at(pos + 1);
                proof {
                    assert(rest[1] == self.units()[pos + 1]);
                }
                if 0xDC00 <= second && second < 0xE000 {
                    2
                } else {
                    1
                }
            } else {
                1
            };
            proof {
                assert(rest[0] == self.units()[pos as int]);
                assert(step == first_code_point_len(rest));
                assert(rest.skip(step as int) =~= self.units().skip(pos + step));
                assert(code_points_spec(rest) == seq![first_code_point(rest)] + code_points_spec(
                    self.units().skip(pos + step),
                ));
                assert((out@ + seq![cp]) + code_points_spec(self.units().skip(pos + step)) =~= out@
                    + code_points_spec(rest));
            }
            out.push(cp);
            pos = pos + step;
        }
        proof {
            assert(self.units().skip(len as int) =~= Seq::<u16>::empty());
            assert(out@ + Seq::<CodePoint>::empty() =~= out@);
        }
        out
    }

    /// All the code points of the string, with unpaired surrogates
    /// replaced by the replacement character.
    pub fn code_points_lossy(&self) -> (r: Vec<char>)
        ensures
            r@ == code_points_spec(self.units()).map_values(|cp: CodePoint| lossy_char(cp)),
    {
        let cps = self.code_points();
        let mut out: Vec<char> = Vec::new();
        let n = cps.len();
        let mut i: usize = 0;
        while i < n
            invariant
                0 <= i <= n == cps@.len(),
                cps@ == code_points_spec(self.units()),
                out@ == cps@.subrange(0, i as int).map_values(|cp: CodePoint| lossy_char(cp)),
            decreases n - i,
        {
            let c = match cps[i] {
                CodePoint::Unicode(c) => c,
                CodePoint::UnpairedSurrogate(_) => '\u{FFFD}',
            };
            out.push(c);
            proof {
                assert(cps@.subrange(0, i + 1) =~= cps@.subrange(0, i as int).push(cps@[i as int]));
                assert(cps@.subrange(0, i + 1).map_values(|cp: CodePoint| lossy_char(cp))
                    =~= cps@.subrange(0, i as int).map_values(|cp: CodePoint| lossy_char(cp)).push(
                    lossy_char(cps@[i as int]),
                ));
            }
            i = i + 1;
        }
        proof {
            assert(cps@.subrange(0, n as int) =~= cps@);
        }
        out
    }

    /// The sub-string spanning unit indices `start..end`, in the same
    /// storage as the whole string.
    pub fn slice(&self, start: usize, end: usize) -> (r: JsStr)
        requires
            start <= end <= self.units().len(),
        ensures
            r.units() == self.units().subrange(start as int, end as int),
            r.inner is Latin1 == self.inner is Latin1,
    {
        match &self.inner {
            JsStrVariant::Latin1(v) => {
                let mut out: Vec<u8> = Vec::new();
                let mut i: usize = start;
                while i < end
                    invariant
                        start <= i <= end <= v@.len(),
                        out@ == v@.subrange(start as int, i as int),
                    decreases end - i,
                {
                    out.push(v[i]);
                    proof {
                        assert(v@.subrange(start as int, i + 1) =~= v@.subrange(
                            start as int,
                            i as int,
                        ).push(v@[i as int]));
                    }
                    i = i + 1;
                }
                proof {
                    assert(out@.map_values(|c: u8| c as u16) =~= v@.map_values(
                        |c: u8| c as u16,
                    ).subrange(start as int, end as int));
                }
                JsStr { inner: JsStrVariant::Latin1(out) }
            },
            JsStrVariant::Utf16(v) => {
                let mut out: Vec<u16> = Vec::new();
                let mut i: usize = start;
                while i < end
                    invariant
                        start <= i <= end <= v@.len(),
                        out@ == v@.subrange(start as int, i as int),
                    decreases end - i,
                {
                    out.push(v[i]);
                    proof {
                        assert(v@.subrange(start as int, i + 1) =~= v@.subrange(
                            start as int,
                            i as int,
                        ).push(v@[i as int]));
                    }
                    i = i + 1;
                }
                JsStr { inner: JsStrVariant::Utf16(out) }
            },
        }
    }

    /// Every window of `size` consecutive units, in order: the window at
    /// offset `i` spans units `i..i + size`.
    pub fn windows(&self, size: usize) -> (r: Vec<JsStr>)
        requires
            size >= 1,
        ensures
            self.units().len() >= size ==> r@.len() == self.units().len() - size + 1,
            self.units().len() < size ==> r@.len() == 0,
            forall|i: int|
                0 <= i < r@.len() ==> r@[i].units() == self.units().subrange(i, i + size)
                    && (r@[i].inner is Latin1 == self.inner is Latin1),
    {
        let len = self.len();
        let mut out: Vec<JsStr> = Vec::new();
        if size > len {
            return out;
        }
        let count = len - size + 1;
        let mut i: usize = 0;
        while i < count
            invariant
                0 <= i <= count,
                count == self.units().len() - size + 1,
                size >= 1,
                len == self.units().len(),
                out@.len() == i,
                forall|j: int|
                    0 <= j < i ==> out@[j].units() == self.units().subrange(j, j + size) && (
                    out@[j].inner is Latin1 == self.inner is Latin1),
            decreases count - i,
        {
            out.push(self.slice(i, i + size));
            i = i + 1;
        }
        out
    }

    /// An element or sub-string at the given index, or `None` when the
    /// index is out of bounds.
    pub fn get<I: JsSliceIndex>(&self, index: I) -> (r: Option<I::Value>)
        ensures
            r matches Some(v) ==> I::valid(self.units(), index) && I::describes(
                self.units(),
                index,
                v,
            ),
            r is None ==> !I::valid(self.units(), index),
    {
        I::get(self, index)
    }

    /// An element or sub-string at the given index, which must be in
    /// bounds.
    pub fn get_expect<I: JsSliceIndex>(&self, index: I) -> (r: I::Value)
        requires
            I::valid(self.units(), index),
        ensures
            I::describes(self.units(), index, r),
    {
        match self.get(index) {
            Some(v) => v,
            None => unreached(),
        }
    }

    /// Whether the string contains the byte's unit value.
    pub fn contains(&self, element: u8) -> (r: bool)
        ensures
            r == self.units().contains(element as u16),
    {
        let n = self.len();
        let target = element as u16;
        let mut i: usize = 0;
        while i < n
            invariant
                0 <= i <= n == self.units().len(),
                target == element as u16,
                forall|j: int| 0 <= j < i ==> self.units()[j] != target,
            decreases n - i,
        {
            if self.unit_at(i) == target {
                return true;
            }
            i = i + 1;
        }
        false
    }
}

/// Index types that can look into a [`JsStr`]: a unit index yields a code
/// unit, a range yields a sub-string.
pub trait JsSliceIndex: Sized {
    /// What a lookup with this index yields.
    type Value;

    /// Whether the index lies within the string's units.
    spec fn valid(s: Seq<u16>, idx: Self) -> bool;

    /// How the yielded value relates to the string.
    spec fn describes(s: Seq<u16>, idx: Self, r: Self::Value) -> bool;

    /// Look up the index, or `None` when it is out of bounds.
    fn get(value: &JsStr, index: Self) -> (r: Option<Self::Value>)
        ensures
            r matches Some(v) ==> Self::valid(value.units(), index) && Self::describes(
                value.units(),
                index,
                v,
            ),
            r is None ==> !Self::valid(value.units(), index),
    ;
}

impl JsSliceIndex for usize {
    type Value = u16;

    open spec fn valid(s: Seq<u16>, idx: usize) -> bool {
        idx < s.len()
    }

    open spec fn describes(s: Seq<u16>, idx: usize, r: u16) -> bool {
        r == s[idx as int]
    }

    fn get(value: &JsStr, index: usize) -> (r: Option<u16>) {
        if index < value.len() {
            Some(value.unit_at(index))
        } else {
            None
        }
    }
}

impl JsSliceIndex for core::ops::Range<usize> {
    type Value = JsStr;

    open spec fn valid(s: Seq<u16>, idx: core::ops::Range<usize>) -> bool {
        idx.start <= idx.end <= s.len()
    }

    open spec fn describes(s: Seq<u16>, idx: core::ops::Range<usize>, r: JsStr) -> bool {
        r.units() == s.subrange(idx.start as int, idx.end as int)
    }

    fn get(value: &JsStr, index: core::ops::Range<usize>) -> (r: Option<JsStr>) {
        if index.start <= index.end && index.end <= value.len() {
            Some(value.slice(index.start, index.end))
        } else {
            None
        }
    }
}

} // verus!
