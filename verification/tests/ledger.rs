//! Reference accounting: clone and release balance on the ledger.

use nanbox_core::boxed::JsObject;
use nanbox_core::boxed::JsString;
use nanbox_core::boxed::NanBoxedValue;
use nanbox_core::heap::RefCounts;

#[test]
fn retain_release_counts() {
    let mut counts = RefCounts::new();
    assert_eq!(counts.count(0x1000), 0);
    assert!(counts.is_free(0x1000));

    counts.retain(0x1000);
    counts.retain(0x1000);
    counts.retain(0x2000);
    assert_eq!(counts.count(0x1000), 2);
    assert_eq!(counts.count(0x2000), 1);

    assert!(!counts.release(0x1000));
    assert_eq!(counts.count(0x1000), 1);
    assert!(counts.release(0x1000));
    assert!(counts.is_free(0x1000));
    assert_eq!(counts.count(0x2000), 1);
}

#[test]
fn clone_bumps_and_release_returns() {
    // Clone/drop balance: one clone adds one reference; releasing the
    // clone brings the count back to where it was.
    let mut counts = RefCounts::new();
    counts.retain(0x4200);
    let a = NanBoxedValue::string(JsString::from_addr(0x4200));

    let before = counts.count(0x4200);
    let b = a.clone_with(&mut counts);
    assert_eq!(counts.count(0x4200), before + 1);

    assert!(!b.release_with(&mut counts));
    assert_eq!(counts.count(0x4200), before);
    assert!(a.release_with(&mut counts));
    assert_eq!(counts.count(0x4200), 0);
}

#[test]
fn non_heap_clone_touches_no_counts() {
    let mut counts = RefCounts::new();
    let a = NanBoxedValue::integer32(7);
    let b = a.clone_with(&mut counts);
    assert_eq!(b.as_integer32(), Some(7));
    assert_eq!(counts.held.len(), 0);
    assert!(!a.release_with(&mut counts));
    assert!(!b.release_with(&mut counts));
    assert_eq!(counts.held.len(), 0);
}

#[test]
fn object_clones_release_exactly_once() {
    // Cloning an object value twice and dropping all three releases the
    // allocation exactly once, at the last drop.
    let mut counts = RefCounts::new();
    counts.retain(0x9000);
    let a = NanBoxedValue::object(JsObject::from_addr(0x9000));
    let b = a.clone_with(&mut counts);
    let c = a.clone_with(&mut counts);
    assert_eq!(counts.count(0x9000), 3);

    let mut freed = 0;
    for v in [a, b, c] {
        if v.release_with(&mut counts) {
            freed += 1;
        }
    }
    assert_eq!(freed, 1);
    assert!(counts.is_free(0x9000));
}
