//! Property descriptors, the builder, and index-key parsing.

use nanbox_core::boxed::JsString;
use nanbox_core::property::string_key;
use nanbox_core::property::DescriptorKind;
use nanbox_core::property::NonMaxU32;
use nanbox_core::property::PropertyDescriptor;
use nanbox_core::property::PropertyKey;
use nanbox_core::property::parse_u32_index;
use nanbox_core::value::JsValue;

#[test]
fn descriptor_flavors() {
    let d = PropertyDescriptor::default();
    assert!(d.is_generic_descriptor());
    assert!(!d.is_data_descriptor());
    assert!(!d.is_accessor_descriptor());
    assert!(d.is_empty());
    assert_eq!(d.enumerable(), None);
    assert_eq!(d.configurable(), None);
    assert_eq!(d.writable(), None);
    assert!(d.value().is_none());
    assert!(d.get().is_none());
    assert!(d.set().is_none());

    let data = PropertyDescriptor::builder()
        .value(JsValue::integer32(9))
        .writable(true)
        .enumerable(false)
        .build();
    assert!(data.is_data_descriptor());
    assert!(!data.is_empty());
    assert_eq!(data.writable(), Some(true));
    assert_eq!(data.expect_writable(), true);
    assert_eq!(data.value().unwrap(), &JsValue::integer32(9));
    assert_eq!(data.expect_value(), &JsValue::integer32(9));
    assert_eq!(data.enumerable(), Some(false));
    assert_eq!(data.expect_enumerable(), false);

    let accessor = PropertyDescriptor::builder()
        .get(JsValue::undefined())
        .set(JsValue::null())
        .configurable(true)
        .build();
    assert!(accessor.is_accessor_descriptor());
    assert_eq!(accessor.get().unwrap(), &JsValue::undefined());
    assert_eq!(accessor.expect_set(), &JsValue::null());
    assert_eq!(accessor.expect_configurable(), true);
    assert!(matches!(accessor.kind(), DescriptorKind::Accessor { .. }));
}

#[test]
fn builder_maybe_setters() {
    let d = PropertyDescriptor::builder()
        .maybe_value(Some(JsValue::boolean(true)))
        .maybe_writable(None)
        .maybe_enumerable(Some(true))
        .maybe_configurable(None)
        .build();
    assert!(d.is_data_descriptor());
    assert_eq!(d.value().unwrap(), &JsValue::boolean(true));
    assert_eq!(d.writable(), None);
    assert_eq!(d.enumerable(), Some(true));
    assert_eq!(d.configurable(), None);

    let a = PropertyDescriptor::builder()
        .maybe_get(Some(JsValue::undefined()))
        .maybe_set(None)
        .build();
    assert!(a.is_accessor_descriptor());
    assert!(a.get().is_some());
    assert!(a.set().is_none());
}

#[test]
fn defaulting_fills_missing_fields() {
    let d = PropertyDescriptor::builder()
        .value(JsValue::integer32(1))
        .build()
        .into_data_defaulted();
    assert_eq!(d.writable(), Some(false));
    assert_eq!(d.enumerable(), Some(false));
    assert_eq!(d.configurable(), Some(false));
    assert_eq!(d.value().unwrap(), &JsValue::integer32(1));

    let a = PropertyDescriptor::default().into_accessor_defaulted();
    assert!(a.is_accessor_descriptor());
    assert_eq!(a.get().unwrap(), &JsValue::undefined());
    assert_eq!(a.set().unwrap(), &JsValue::undefined());

    // Completing a generic descriptor defaults it to a data descriptor.
    let c = PropertyDescriptor::default().complete_property_descriptor();
    assert!(c.is_data_descriptor());
    assert_eq!(c.value().unwrap(), &JsValue::undefined());
    assert_eq!(c.writable(), Some(false));
    assert_eq!(c.enumerable(), Some(false));
    assert_eq!(c.configurable(), Some(false));
}

#[test]
fn fill_with_merges_set_fields() {
    let mut base = PropertyDescriptor::builder()
        .value(JsValue::integer32(1))
        .enumerable(true)
        .build();
    let patch = PropertyDescriptor::builder()
        .writable(false)
        .configurable(true)
        .build();
    base.fill_with(patch);
    assert_eq!(base.value().unwrap(), &JsValue::integer32(1));
    assert_eq!(base.writable(), Some(false));
    assert_eq!(base.enumerable(), Some(true));
    assert_eq!(base.configurable(), Some(true));

    // A generic patch only touches the shared attributes.
    let mut acc = PropertyDescriptor::builder().get(JsValue::undefined()).build();
    let generic = PropertyDescriptor::builder().enumerable(false).build();
    acc.fill_with(generic);
    assert!(acc.is_accessor_descriptor());
    assert_eq!(acc.enumerable(), Some(false));
}

#[test]
fn non_max_u32_bounds() {
    assert_eq!(NonMaxU32::new(0).map(|n| n.get()), Some(0));
    assert_eq!(NonMaxU32::new(4294967294).map(|n| n.get()), Some(4294967294));
    assert!(NonMaxU32::new(u32::MAX).is_none());
}

fn units(s: &str) -> Vec<u16> {
    s.encode_utf16().collect()
}

#[test]
fn parse_u32_index_accepts_canonical_indices() {
    assert_eq!(parse_u32_index(&units("0")).map(|n| n.get()), Some(0));
    assert_eq!(parse_u32_index(&units("1")).map(|n| n.get()), Some(1));
    assert_eq!(parse_u32_index(&units("42")).map(|n| n.get()), Some(42));
    assert_eq!(
        parse_u32_index(&units("4294967294")).map(|n| n.get()),
        Some(4294967294)
    );
}

#[test]
fn parse_u32_index_rejects_everything_else() {
    assert!(parse_u32_index(&units("")).is_none());
    assert!(parse_u32_index(&units("012345")).is_none());
    assert!(parse_u32_index(&units("00")).is_none());
    assert!(parse_u32_index(&units("4294967295")).is_none());
    assert!(parse_u32_index(&units("4294967296")).is_none());
    assert!(parse_u32_index(&units("99999999999")).is_none());
    assert!(parse_u32_index(&units("12a")).is_none());
    assert!(parse_u32_index(&units("-1")).is_none());
    assert!(parse_u32_index(&units("7.3")).is_none());
}

#[test]
fn property_keys_compare() {
    let a = PropertyKey::Index(NonMaxU32::new(7).unwrap());
    let b = PropertyKey::Index(NonMaxU32::new(7).unwrap());
    let c = PropertyKey::Index(NonMaxU32::new(8).unwrap());
    assert_eq!(a, b);
    assert_ne!(a, c);
    let s = PropertyKey::String(JsString { addr: 0x10 });
    assert_ne!(a, s);
}

#[test]
fn string_key_picks_index_or_string() {
    let handle = JsString { addr: 0x77 };
    assert_eq!(
        string_key(&units("42"), handle),
        PropertyKey::Index(NonMaxU32::new(42).unwrap())
    );
    assert_eq!(
        string_key(&units("0"), handle),
        PropertyKey::Index(NonMaxU32::new(0).unwrap())
    );
    assert_eq!(string_key(&units("041"), handle), PropertyKey::String(handle));
    assert_eq!(string_key(&units("name"), handle), PropertyKey::String(handle));
    assert_eq!(
        string_key(&units("4294967295"), handle),
        PropertyKey::String(handle)
    );
}
