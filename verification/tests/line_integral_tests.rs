use multicalc::utils::error_codes::CalcError;
use multicalc::vector_field::line_integral::{check_limits, curve_point};

#[test]
fn curve_point_applies_each_transformation() {
    let transformations: [&dyn Fn(f64) -> f64; 3] = [&|t| 2.0 * t, &|t| t * t, &|t| -t];
    assert_eq!(curve_point(&transformations, 3.0), [6.0, 9.0, -3.0]);
}

#[test]
fn zero_iterations_rejected_first() {
    assert_eq!(check_limits(&[1.0, 0.0], 0), Err(CalcError::IterationsZero));
}

#[test]
fn reversed_equal_and_nan_limits_rejected() {
    assert_eq!(check_limits(&[1.0, 0.0], 10), Err(CalcError::IntegrationLimitsIllDefined));
    assert_eq!(check_limits(&[1.0, 1.0], 10), Err(CalcError::IntegrationLimitsIllDefined));
    assert_eq!(check_limits(&[f64::NAN, 1.0], 10), Err(CalcError::IntegrationLimitsIllDefined));
}

#[test]
fn ordered_limits_accepted() {
    assert_eq!(check_limits(&[0.0, 6.28], 120), Ok(()));
}
