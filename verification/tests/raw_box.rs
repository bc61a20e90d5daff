//! Checks of the raw box: size, float canonicalization, payload storage.

use nanbox_core::raw::RawAddr;
use nanbox_core::raw::RawBox;
use nanbox_core::raw::RawTag;
use nanbox_core::raw::Value;
use nanbox_core::raw::NEG_QUIET_NAN;
use nanbox_core::raw::QUIET_NAN;

#[test]
fn size_check() {
    assert_eq!(std::mem::size_of::<RawBox>(), 8);
}

#[test]
fn test_roundtrip_float() {
    let a = RawBox::from_float(1.0f64.to_bits());
    assert_eq!(a.into_float().ok().map(f64::from_bits), Some(1.0));

    let b = RawBox::from_float((-1.0f64).to_bits());
    assert_eq!(b.into_float().ok().map(f64::from_bits), Some(-1.0));

    let c = RawBox::from_float(f64::NAN.to_bits());
    assert!(c
        .into_float()
        .map(f64::from_bits)
        .is_ok_and(|val| val.is_nan() && val.is_sign_positive()));

    let d = RawBox::from_float((-f64::NAN).to_bits());
    assert!(d
        .into_float()
        .map(f64::from_bits)
        .is_ok_and(|val| val.is_nan() && val.is_sign_negative()));
}

#[test]
fn test_roundtrip_value() {
    let one = RawTag::new_unchecked(false, 1);
    let four = RawTag::new_unchecked(false, 4);
    let seven = RawTag::new_unchecked(false, 7);
    let neg_seven = RawTag::new_unchecked(true, 7);

    let a = RawBox::from_value(Value::empty(one));
    assert_eq!(a.into_value().ok(), Some(Value::empty(one)));

    let b = RawBox::from_value(Value::empty(neg_seven));
    assert_eq!(b.into_value().ok(), Some(Value::empty(neg_seven)));

    let c = RawBox::from_value(Value::new(seven, [0, 0, 0, 0, 0, 1]));
    assert_eq!(c.into_value().ok(), Some(Value::new(seven, [0, 0, 0, 0, 0, 1])));

    let d = RawBox::from_value(Value::new(four, [0x80, 0, 0, 0, 0, 0]));
    assert_eq!(d.into_value().ok(), Some(Value::new(four, [0x80, 0, 0, 0, 0, 0])));
}

#[test]
fn test_roundtrip_u32() {
    let one = RawTag::new_unchecked(false, 1);

    let a = RawBox::from_value(Value::store(one, 0u32));
    assert_eq!(a.into_value().unwrap().load::<u32>(), 0u32);

    let b = RawBox::from_value(Value::store(one, 1u32));
    assert_eq!(b.into_value().unwrap().load::<u32>(), 1u32);

    let c = RawBox::from_value(Value::store(one, 0xFFFF_FFFFu32));
    assert_eq!(c.into_value().unwrap().load::<u32>(), 0xFFFF_FFFFu32);
}

#[test]
fn test_roundtrip_i32() {
    let one = RawTag::new_unchecked(false, 1);

    let a = RawBox::from_value(Value::store(one, 0i32));
    assert_eq!(a.into_value().unwrap().load::<i32>(), 0i32);

    let b = RawBox::from_value(Value::store(one, 1i32));
    assert_eq!(b.into_value().unwrap().load::<i32>(), 1i32);

    let c = RawBox::from_value(Value::store(one, -1i32));
    assert_eq!(c.into_value().unwrap().load::<i32>(), -1i32);
}

#[test]
fn test_roundtrip_ptr() {
    // The 48-bit address packing: a stored address comes back exactly,
    // even when it overlaps the high payload bytes.
    let one = RawTag::new_unchecked(false, 1);
    for addr in [0x1u64, 0xDEAD_B000, 0xFFFF_FFFF_FFFF, 0x7F00_0012_3456] {
        let a = RawBox::from_value(Value::store(one, RawAddr { addr }));
        let back = a.into_value().unwrap().load::<RawAddr>();
        assert_eq!(back.addr, addr);
    }
}

#[test]
fn test_clone_ptr() {
    let one = RawTag::new_unchecked(false, 1);
    let a = RawBox::from_value(Value::store(one, RawAddr { addr: 0xABCD_0123 }));
    let b = a.clone();
    assert_eq!(b.into_value().unwrap().load::<RawAddr>().addr, 0xABCD_0123);
}

#[test]
fn test_clone_float() {
    let a = RawBox::from_float(1.0f64.to_bits());
    let b = a.clone();
    assert_eq!(b.into_float().ok().map(f64::from_bits), Some(1.0));
}

#[test]
fn tag_space_never_collides_with_floats() {
    // Every one of the 14 raw tags, over a spread of payloads: the stored
    // word is never either canonical quiet NaN, and always reads as a
    // tagged value.
    for neg in [false, true] {
        for val in 1u8..=7 {
            let tag = RawTag::new_unchecked(neg, val);
            for data in [
                [0u8; 6],
                [0xFF; 6],
                [1, 2, 3, 4, 5, 6],
                [0, 0, 0, 0, 0, 0x80],
            ] {
                let b = RawBox::from_value(Value::new(tag, data));
                assert!(b.is_value());
                assert!(!b.is_float());
                assert_ne!(b.bits, QUIET_NAN);
                assert_ne!(b.bits, NEG_QUIET_NAN);
                assert!(f64::from_bits(b.bits).is_nan());
                assert_eq!(b.tag(), Some(tag));
            }
        }
    }
    // And the two canonical NaNs themselves read as floats.
    assert!(RawBox::from_float(QUIET_NAN).is_float());
    assert!(RawBox::from_float(NEG_QUIET_NAN).is_float());
}

#[test]
fn nan_payloads_are_canonicalized() {
    // NaNs with arbitrary payloads collapse to the canonical quiet NaN of
    // their sign; other floats are stored verbatim.
    for payload in [1u64, 0x000F_FFFF_FFFF_FFFF, 0x0008_0000_0000_0001] {
        let pos = RawBox::from_float(0x7FF0_0000_0000_0000 | payload);
        assert_eq!(pos.bits, QUIET_NAN);
        let neg = RawBox::from_float(0xFFF0_0000_0000_0000 | payload);
        assert_eq!(neg.bits, NEG_QUIET_NAN);
    }
    let x = 12345.6789f64;
    assert_eq!(RawBox::from_float(x.to_bits()).bits, x.to_bits());
}

#[test]
fn checked_tags_reject_out_of_range() {
    assert!(RawTag::new_checked(false, 0).is_none());
    assert!(RawTag::new_checked(true, 8).is_none());
    for val in 1u8..=7 {
        let t = RawTag::new_checked(true, val).unwrap();
        assert_eq!(t.neg_val(), (true, val));
        assert_eq!(t.is_neg(), true);
        assert_eq!(t.val(), val);
    }
}

#[test]
fn write_float_keeps_slot_canonical() {
    let mut b = RawBox::from_float(2.5f64.to_bits());
    b.write_float(f64::NAN.to_bits());
    assert_eq!(b.bits, QUIET_NAN);
    b.write_float(7.25f64.to_bits());
    assert_eq!(f64::from_bits(b.bits), 7.25);
}
