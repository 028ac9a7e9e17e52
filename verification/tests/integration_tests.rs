use multicalc::numerical_integration::iterative_integration::{
    IterativeMulti, IterativeSingle, SingleVariableSolver, DEFAULT_TOTAL_ITERATIONS,
};
use multicalc::numerical_integration::gaussian_integration::{
    SingleVariableSolver as GaussianSolver, DEFAULT_QUADRATURE_ORDERS,
};
use multicalc::numerical_integration::mode::{GaussianQuadratureMethod, IterativeMethod};
use multicalc::numerical_integration::newton_cotes::{
    booles_weights, rule_scale, rule_weights, simpsons_weights, trapezoidal_weights,
};
use multicalc::utils::error_codes::CalcError;

/// Integrates `f` over `[lo, hi]` with the given rule, the way the iterative integrator does.
fn integrate(method: IterativeMethod, n: u64, lo: f64, hi: f64, f: impl Fn(f64) -> f64) -> f64 {
    let weights = rule_weights(method, n);
    let (num, den) = rule_scale(method);
    let delta = (hi - lo) / n as f64;
    let mut sum = 0.0;
    for (k, w) in weights.iter().enumerate() {
        let x = if k as u64 == n { hi } else { lo + k as f64 * delta };
        sum += *w as f64 * f(x);
    }
    num as f64 * delta * sum / den as f64
}

#[test]
fn booles_weights_one_panel() {
    assert_eq!(booles_weights(4), vec![7, 32, 12, 32, 7]);
}

#[test]
fn booles_weights_two_panels() {
    assert_eq!(booles_weights(8), vec![7, 32, 12, 32, 14, 32, 12, 32, 7]);
}

#[test]
fn booles_weights_single_step() {
    assert_eq!(booles_weights(1), vec![7, 7]);
}

#[test]
fn simpsons_weights_two_panels() {
    assert_eq!(simpsons_weights(6), vec![1, 3, 3, 2, 3, 3, 1]);
}

#[test]
fn trapezoidal_weights_three_steps() {
    assert_eq!(trapezoidal_weights(3), vec![1, 2, 2, 1]);
}

#[test]
fn rule_weights_dispatch() {
    assert_eq!(rule_weights(IterativeMethod::Booles, 4), booles_weights(4));
    assert_eq!(rule_weights(IterativeMethod::Simpsons, 3), vec![1, 3, 3, 1]);
    assert_eq!(rule_weights(IterativeMethod::Trapezoidal, 2), vec![1, 2, 1]);
}

#[test]
fn rule_scales() {
    assert_eq!(rule_scale(IterativeMethod::Booles), (2, 45));
    assert_eq!(rule_scale(IterativeMethod::Simpsons), (3, 8));
    assert_eq!(rule_scale(IterativeMethod::Trapezoidal), (1, 2));
}

#[test]
fn booles_exact_on_fifth_power() {
    // 2 * 6 * sum_k w_k k^5 == 45 * n^6 for n a multiple of 4
    let n: u64 = 12;
    let w = booles_weights(n);
    let sum: i128 = w.iter().enumerate().map(|(k, w)| *w as i128 * (k as i128).pow(5)).sum();
    assert_eq!(2 * 6 * sum, 45 * (n as i128).pow(6));
}

#[test]
fn simpsons_exact_on_cube() {
    let n: u64 = 9;
    let w = simpsons_weights(n);
    let sum: i128 = w.iter().enumerate().map(|(k, w)| *w as i128 * (k as i128).pow(3)).sum();
    assert_eq!(3 * 4 * sum, 8 * (n as i128).pow(4));
}

#[test]
fn trapezoidal_exact_on_line() {
    let n: u64 = 7;
    let w = trapezoidal_weights(n);
    let sum: i128 = w.iter().enumerate().map(|(k, w)| *w as i128 * k as i128).sum();
    assert_eq!(2 * sum, 2 * (n as i128).pow(2));
}

#[test]
fn weighted_sum_is_linear() {
    let w = booles_weights(8);
    let y1 = |k: i128| k * k;
    let y2 = |k: i128| 3 - k;
    let s = |y: &dyn Fn(i128) -> i128| -> i128 { w.iter().enumerate().map(|(k, w)| *w as i128 * y(k as i128)).sum() };
    assert_eq!(s(&|k| 5 * y1(k) - 2 * y2(k)), 5 * s(&y1) - 2 * s(&y2));
}

#[test]
fn integral_of_2x_over_0_2_is_4() {
    for method in [IterativeMethod::Booles, IterativeMethod::Simpsons, IterativeMethod::Trapezoidal] {
        let val = integrate(method, DEFAULT_TOTAL_ITERATIONS, 0.0, 2.0, |x| 2.0 * x);
        assert!((val - 4.0).abs() < 1e-9);
    }
}

#[test]
fn booles_integrates_quintic_exactly() {
    let val = integrate(IterativeMethod::Booles, 8, -1.0, 3.0, |x| x.powi(5) - 2.0 * x * x);
    let exact = (3.0f64.powi(6) - 1.0) / 6.0 - 2.0 * (27.0 + 1.0) / 3.0;
    assert!((val - exact).abs() < 1e-9);
}

#[test]
fn default_iterations_fill_panels() {
    assert_eq!(DEFAULT_TOTAL_ITERATIONS, 120);
    assert_eq!(DEFAULT_TOTAL_ITERATIONS % 4, 0);
    assert_eq!(DEFAULT_TOTAL_ITERATIONS % 3, 0);
}

#[test]
fn solver_default_and_accessors() {
    let mut solver = SingleVariableSolver::default();
    assert_eq!(solver.get_total_iterations(), 120);
    assert_eq!(solver.get_integration_method(), IterativeMethod::Booles);
    solver.set_total_iterations(30);
    solver.set_integration_method(IterativeMethod::Simpsons);
    assert_eq!(solver.get_total_iterations(), 30);
    assert_eq!(solver.get_integration_method(), IterativeMethod::Simpsons);
    let other = SingleVariableSolver::from_parameters(7, IterativeMethod::Trapezoidal);
    assert_eq!(other.get_total_iterations(), 7);
    assert_eq!(other.get_integration_method(), IterativeMethod::Trapezoidal);
}

#[test]
fn zero_iterations_reported_before_limits() {
    let solver = SingleVariableSolver::from_parameters(0, IterativeMethod::Booles);
    assert_eq!(solver.check_for_errors(&[[2.0, 1.0]]), Err(CalcError::IterationsZero));
}

#[test]
fn ill_defined_limits_rejected() {
    let solver = SingleVariableSolver::default();
    assert_eq!(solver.check_for_errors(&[[0.0, 1.0], [1.0, 1.0]]), Err(CalcError::IntegrationLimitsIllDefined));
    assert_eq!(solver.check_for_errors(&[[3.0, -1.0]]), Err(CalcError::IntegrationLimitsIllDefined));
}

#[test]
fn well_defined_limits_accepted() {
    let solver = SingleVariableSolver::default();
    assert_eq!(solver.check_for_errors(&[[0.0, 2.0], [-1.0, 1.0]]), Ok(()));
    assert_eq!(solver.check_for_errors::<f64, 0>(&[]), Ok(()));
}

#[test]
fn integrators_carry_settings() {
    let single = IterativeSingle::<f64>::default();
    assert_eq!(single.config().get_total_iterations(), DEFAULT_TOTAL_ITERATIONS);
    let multi = IterativeMulti::<f64>::from_parameters(60, IterativeMethod::Trapezoidal);
    assert_eq!(multi.config().get_total_iterations(), 60);
    assert_eq!(multi.config().get_integration_method(), IterativeMethod::Trapezoidal);
    let copy = multi.clone();
    assert_eq!(copy.config().get_total_iterations(), 60);
}

#[test]
fn gaussian_settings_default_to_four_legendre_nodes() {
    let solver = GaussianSolver::default();
    assert_eq!(solver.get_order(), DEFAULT_QUADRATURE_ORDERS);
    assert_eq!(solver.get_order(), 4);
    assert_eq!(solver.get_integration_method(), GaussianQuadratureMethod::GaussLegendre);
}

#[test]
fn gaussian_settings_are_kept_apart() {
    let mut solver = GaussianSolver::from_parameters(6, GaussianQuadratureMethod::GaussHermite);
    assert_eq!(solver.get_order(), 6);
    assert_eq!(solver.get_integration_method(), GaussianQuadratureMethod::GaussHermite);
    solver.set_order(9);
    assert_eq!(solver.get_order(), 9);
    assert_eq!(solver.get_integration_method(), GaussianQuadratureMethod::GaussHermite);
    solver.set_integration_method(GaussianQuadratureMethod::GaussLaguerre);
    assert_eq!(solver.get_order(), 9);
    assert_eq!(solver.get_integration_method(), GaussianQuadratureMethod::GaussLaguerre);
}

#[test]
fn gaussian_limits_follow_each_family_domain() {
    let (zero, inf, neg_inf) = (0.0_f64, f64::INFINITY, f64::NEG_INFINITY);
    let legendre = GaussianSolver::from_parameters(4, GaussianQuadratureMethod::GaussLegendre);
    assert_eq!(legendre.check_limits(&[[0.0, 2.0], [-1.0, 1.0]], &zero, &inf, &neg_inf), Ok(()));
    assert_eq!(legendre.check_limits::<f64, 0>(&[], &zero, &inf, &neg_inf), Ok(()));
    assert_eq!(
        legendre.check_limits(&[[0.0, 2.0], [1.0, 1.0]], &zero, &inf, &neg_inf),
        Err(CalcError::IntegrationLimitsIllDefined)
    );
    assert_eq!(
        legendre.check_limits(&[[0.0, inf]], &zero, &inf, &neg_inf),
        Err(CalcError::IntegrationLimitsIllDefined)
    );
    assert_eq!(
        legendre.check_limits(&[[f64::NAN, 1.0]], &zero, &inf, &neg_inf),
        Err(CalcError::IntegrationLimitsIllDefined)
    );

    let hermite = GaussianSolver::from_parameters(4, GaussianQuadratureMethod::GaussHermite);
    assert_eq!(hermite.check_limits(&[[neg_inf, inf]], &zero, &inf, &neg_inf), Ok(()));
    assert_eq!(
        hermite.check_limits(&[[0.0, inf]], &zero, &inf, &neg_inf),
        Err(CalcError::IntegrationLimitsIllDefined)
    );
    assert_eq!(
        hermite.check_limits(&[[-1.0, 1.0]], &zero, &inf, &neg_inf),
        Err(CalcError::IntegrationLimitsIllDefined)
    );

    let laguerre = GaussianSolver::from_parameters(4, GaussianQuadratureMethod::GaussLaguerre);
    assert_eq!(laguerre.check_limits(&[[0.0, inf]], &zero, &inf, &neg_inf), Ok(()));
    assert_eq!(
        laguerre.check_limits(&[[neg_inf, inf]], &zero, &inf, &neg_inf),
        Err(CalcError::IntegrationLimitsIllDefined)
    );
    assert_eq!(
        laguerre.check_limits(&[[0.0, 5.0]], &zero, &inf, &neg_inf),
        Err(CalcError::IntegrationLimitsIllDefined)
    );
}
