//! The canonical-NaN float slot.

use nanbox_core::raw::NEG_QUIET_NAN;
use nanbox_core::raw::QUIET_NAN;
use nanbox_core::singlenan::SingleNaNF64;

#[test]
fn new_canonicalizes_nans() {
    assert_eq!(SingleNaNF64::new(f64::NAN.to_bits()).get(), QUIET_NAN);
    assert_eq!(SingleNaNF64::new((-f64::NAN).to_bits()).get(), NEG_QUIET_NAN);
    assert_eq!(
        SingleNaNF64::new(0x7FF0_0000_0000_0001).get(),
        QUIET_NAN
    );
    assert_eq!(SingleNaNF64::new(3.5f64.to_bits()).get(), 3.5f64.to_bits());
    assert_eq!(
        SingleNaNF64::new(f64::NEG_INFINITY.to_bits()).get(),
        f64::NEG_INFINITY.to_bits()
    );
}

#[test]
fn from_bits_refuses_non_canonical_nans() {
    assert!(SingleNaNF64::from_bits(0x7FF0_0000_0000_0001).is_none());
    assert!(SingleNaNF64::from_bits(0xFFF8_0000_0000_0001).is_none());
    assert!(SingleNaNF64::from_bits(QUIET_NAN).is_some());
    assert!(SingleNaNF64::from_bits(NEG_QUIET_NAN).is_some());
    assert!(SingleNaNF64::from_bits(1.25f64.to_bits()).is_some());
}

#[test]
fn writes_stay_canonical() {
    let mut slot = SingleNaNF64::new(0.0f64.to_bits());
    slot.write((0.0f64 / 0.0f64).to_bits());
    assert_eq!(slot.get(), QUIET_NAN);
    slot.write(2.0f64.to_bits());
    assert_eq!(f64::from_bits(slot.get()), 2.0);
}

#[test]
fn test_add_assign() {
    let mut a = SingleNaNF64::new(0.0f64.to_bits());
    a.write((f64::from_bits(a.get()) + 1.0).to_bits());
    assert_eq!(f64::from_bits(a.get()), 1.0);
}
