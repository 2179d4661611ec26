use rust_engine::density::{
    DEFAULT_COMPOSITION, JOULES_PER_MEGATON, METERS_PER_KM, RISK_SATURATION_LOG10, RISK_SCORE_MAX,
};
use rust_engine::{AsteroidDensity, Binary64, DomainError, ErrorCategory};

#[test]
fn density_table() {
    assert_eq!(AsteroidDensity::CType.as_value(), 1300);
    assert_eq!(AsteroidDensity::SType.as_value(), 2700);
    assert_eq!(AsteroidDensity::MType.as_value(), 5300);
}

#[test]
fn default_composition_is_silicaceous() {
    assert_eq!(DEFAULT_COMPOSITION, AsteroidDensity::SType);
}

#[test]
fn calibration_constants() {
    assert_eq!(JOULES_PER_MEGATON as f64, 4.184e15);
    assert_eq!(METERS_PER_KM, 1000);
    assert_eq!(RISK_SATURATION_LOG10, 20);
    assert_eq!(RISK_SCORE_MAX, 100);
}

#[test]
fn every_variant_has_its_category() {
    let v = Binary64::from_bits(1.5f64.to_bits());
    let input = [
        DomainError::InvalidId,
        DomainError::InvalidDiameter(v),
        DomainError::InvalidVelocity(v),
        DomainError::InvalidField("name"),
    ];
    for e in input {
        assert_eq!(e.category(), ErrorCategory::InvalidInput);
        assert_eq!(e.category().status_code(), 400);
    }
    let domain = [
        DomainError::MissingCloseApproachData,
        DomainError::NonPhysicalValue { field: "mass", value: v },
    ];
    for e in domain {
        assert_eq!(e.category(), ErrorCategory::InvalidDomainData);
        assert_eq!(e.category().status_code(), 422);
        assert_eq!(e.category().label(), "invalid_domain_data");
    }
}

#[test]
fn binary64_predicates() {
    let b = |x: f64| Binary64::from_bits(x.to_bits());
    assert!(b(1.0).is_finite() && b(1.0).is_positive() && b(1.0).is_nonnegative());
    assert!(b(0.0).is_zero() && !b(0.0).is_positive() && b(0.0).is_nonnegative());
    assert!(b(-0.0).is_zero() && b(-0.0).is_nonnegative());
    assert!(!b(-2.0).is_nonnegative() && !b(-2.0).is_zero() && b(-2.0).is_finite());
    assert!(!b(f64::NAN).is_finite() && !b(f64::NAN).is_nonnegative());
    assert!(!b(f64::INFINITY).is_finite() && !b(f64::INFINITY).is_positive());
    assert!(b(f64::MAX).is_positive());
    assert_eq!(b(2.5).to_bits(), 2.5f64.to_bits());
}
