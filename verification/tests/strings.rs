//! String slice behavior over both encodings.

use nanbox_core::jsstr::CodePoint;
use nanbox_core::jsstr::JsStr;
use nanbox_core::jsstr::JsStrVariant;

fn latin1(s: &str) -> JsStr {
    JsStr::latin1(s.as_bytes().to_vec())
}

fn utf16(s: &str) -> JsStr {
    JsStr::utf16(s.encode_utf16().collect())
}

#[test]
fn lengths_and_emptiness() {
    assert_eq!(latin1("").len(), 0);
    assert!(latin1("").is_empty());
    assert_eq!(latin1("hello").len(), 5);
    assert_eq!(utf16("hello").len(), 5);
    assert!(!utf16("x").is_empty());
}

#[test]
fn variants_and_as_latin1() {
    let a = latin1("abc");
    assert!(a.is_latin1());
    assert!(matches!(a.variant(), JsStrVariant::Latin1(_)));
    assert_eq!(a.as_latin1().unwrap().as_slice(), b"abc");

    let b = utf16("abc");
    assert!(!b.is_latin1());
    assert!(b.as_latin1().is_none());
}

#[test]
fn units_agree_across_encodings() {
    let a = latin1("hello");
    let b = utf16("hello");
    assert_eq!(a.to_vec(), b.to_vec());
    assert_eq!(a.iter(), b.iter());
}

#[test]
fn get_by_index_and_range() {
    let s = latin1("hello");
    assert_eq!(s.get(0usize), Some(u16::from(b'h')));
    assert_eq!(s.get(4usize), Some(u16::from(b'o')));
    assert_eq!(s.get(5usize), None);
    assert_eq!(s.get_expect(1usize), u16::from(b'e'));

    let sub = s.get(1usize..4usize).unwrap();
    assert_eq!(sub.to_vec(), utf16("ell").to_vec());
    assert!(s.get(3usize..2usize).is_none());
    assert!(s.get(2usize..6usize).is_none());
}

#[test]
fn prefix_and_suffix() {
    let s = utf16("hello world");
    assert!(s.starts_with(&latin1("hello")));
    assert!(!s.starts_with(&latin1("world")));
    assert!(s.ends_with(&latin1("world")));
    assert!(!s.ends_with(&latin1("hello")));
    assert!(s.starts_with(&latin1("")));
    assert!(s.ends_with(&latin1("")));
}

#[test]
fn index_of_behavior() {
    let s = latin1("abcabc");
    assert_eq!(s.index_of(&latin1("abc"), 0), Some(0));
    assert_eq!(s.index_of(&latin1("abc"), 1), Some(3));
    assert_eq!(s.index_of(&latin1("abc"), 4), None);
    assert_eq!(s.index_of(&latin1("zzz"), 0), None);
    // The empty search string is found at the from-index while in range.
    assert_eq!(s.index_of(&latin1(""), 2), Some(2));
    assert_eq!(s.index_of(&latin1(""), 6), Some(6));
    assert_eq!(s.index_of(&latin1(""), 7), None);
}

#[test]
fn windows_enumerate_subslices() {
    let s = latin1("abcd");
    let w = s.windows(2);
    assert_eq!(w.len(), 3);
    assert_eq!(w[0].to_vec(), latin1("ab").to_vec());
    assert_eq!(w[1].to_vec(), latin1("bc").to_vec());
    assert_eq!(w[2].to_vec(), latin1("cd").to_vec());
    assert_eq!(s.windows(5).len(), 0);
}

#[test]
fn code_points_of_plain_text() {
    let s = latin1("hi");
    assert_eq!(s.code_point_at(0), CodePoint::Unicode('h'));
    assert_eq!(s.code_point_at(1), CodePoint::Unicode('i'));
    assert_eq!(
        s.code_points(),
        vec![CodePoint::Unicode('h'), CodePoint::Unicode('i')]
    );
}

#[test]
fn code_points_of_surrogate_pairs() {
    // '𝄞' (U+1D11E) encodes as the surrogate pair D834 DD1E.
    let s = JsStr::utf16(vec![0xD834, 0xDD1E, u16::from(b'!')]);
    assert_eq!(s.code_point_at(0), CodePoint::Unicode('\u{1D11E}'));
    assert_eq!(s.code_point_at(1), CodePoint::UnpairedSurrogate(0xDD1E));
    assert_eq!(s.code_point_at(2), CodePoint::Unicode('!'));
    assert_eq!(
        s.code_points(),
        vec![CodePoint::Unicode('\u{1D11E}'), CodePoint::Unicode('!')]
    );
}

#[test]
fn unpaired_surrogates_stay_unpaired() {
    let s = JsStr::utf16(vec![0xD834, u16::from(b'a'), 0xDD1E]);
    assert_eq!(s.code_point_at(0), CodePoint::UnpairedSurrogate(0xD834));
    assert_eq!(
        s.code_points(),
        vec![
            CodePoint::UnpairedSurrogate(0xD834),
            CodePoint::Unicode('a'),
            CodePoint::UnpairedSurrogate(0xDD1E),
        ]
    );
    assert_eq!(s.code_points_lossy(), vec!['\u{FFFD}', 'a', '\u{FFFD}']);
}

#[test]
fn contains_a_byte() {
    let s = utf16("hello");
    assert!(s.contains(b'e'));
    assert!(!s.contains(b'z'));
    assert!(latin1("hello").contains(b'o'));
    assert!(!latin1("").contains(b'a'));
}
