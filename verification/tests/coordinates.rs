//! Tests of the bit-level coordinate validation.

use sunrise::Coordinates;

#[test]
fn invalid() {
    assert!(Coordinates::new(f64::NAN.to_bits(), (10.0f64).to_bits()).is_none());
    assert!(Coordinates::new((10.0f64).to_bits(), f64::NAN.to_bits()).is_none());
    assert!(Coordinates::new((-120.0f64).to_bits(), (0.0f64).to_bits()).is_none());
    assert!(Coordinates::new((0.0f64).to_bits(), (-240.0f64).to_bits()).is_none());
}

#[test]
fn extract() {
    let coord = Coordinates::new((10.0f64).to_bits(), (36.35f64).to_bits()).unwrap();
    assert_eq!(coord.lat(), (10.0f64).to_bits());
    assert_eq!(coord.lon(), (36.35f64).to_bits());
}

#[test]
fn boundaries() {
    assert!(Coordinates::new((90.0f64).to_bits(), (180.0f64).to_bits()).is_some());
    assert!(Coordinates::new((-90.0f64).to_bits(), (-180.0f64).to_bits()).is_some());
    let above = 90.0f64 + 1e-13;
    assert!(above > 90.0);
    assert!(Coordinates::new(above.to_bits(), 0u64).is_none());
    assert!(Coordinates::new((0.0f64).to_bits(), (180.1f64).to_bits()).is_none());
    assert!(Coordinates::new(f64::INFINITY.to_bits(), 0u64).is_none());
    assert!(Coordinates::new(0u64, f64::NEG_INFINITY.to_bits()).is_none());
    // negative zero is a valid coordinate
    assert!(Coordinates::new((-0.0f64).to_bits(), (-0.0f64).to_bits()).is_some());
}
