use multicalc::approximation::linear_approximation::LinearApproximator;
use multicalc::approximation::quadratic_approximation::QuadraticApproximator;
use multicalc::numerical_derivative::derivator::DerivatorMultiVariable;
use multicalc::numerical_derivative::finite_difference::{check_request, offsets};
use multicalc::numerical_derivative::hessian::Hessian;
use multicalc::numerical_derivative::jacobian::Jacobian;
use multicalc::numerical_derivative::mode::FiniteDifferenceMode;
use multicalc::utils::error_codes::CalcError;

/// Central differences with a fixed step; `fail_on` makes a chosen variable index fail.
#[derive(Default, Clone, Copy)]
struct Central {
    fail_on: Option<usize>,
}

const H: f64 = 1e-4;

impl DerivatorMultiVariable for Central {
    type Scalar = f64;

    fn get<F: Fn(&[f64; NUM_VARS]) -> f64, const NUM_VARS: usize, const NUM_ORDER: usize>(
        &self,
        func: &F,
        idx_to_differentiate: &[usize; NUM_ORDER],
        point: &[f64; NUM_VARS],
    ) -> Result<f64, CalcError> {
        match NUM_ORDER {
            1 => self.single(func, idx_to_differentiate[0], point),
            2 => self.double(func, idx_to_differentiate[0], idx_to_differentiate[1], point),
            _ => Err(CalcError::DerivativeOrderZero),
        }
    }
}

impl Central {
    fn single<F: Fn(&[f64; NUM_VARS]) -> f64, const NUM_VARS: usize>(
        &self,
        func: &F,
        idx: usize,
        point: &[f64; NUM_VARS],
    ) -> Result<f64, CalcError> {
        if Some(idx) == self.fail_on {
            return Err(CalcError::StepSizeZero);
        }
        let mut hi = *point;
        hi[idx] += H;
        let mut lo = *point;
        lo[idx] -= H;
        Ok((func(&hi) - func(&lo)) / (2.0 * H))
    }

    fn double<F: Fn(&[f64; NUM_VARS]) -> f64, const NUM_VARS: usize>(
        &self,
        func: &F,
        first: usize,
        second: usize,
        point: &[f64; NUM_VARS],
    ) -> Result<f64, CalcError> {
        if Some(second) == self.fail_on {
            return Err(CalcError::IndexOutOfRange);
        }
        let mut hi = *point;
        hi[second] += H;
        let mut lo = *point;
        lo[second] -= H;
        Ok((self.single(func, first, &hi)? - self.single(func, first, &lo)?) / (2.0 * H))
    }
}

#[test]
fn offsets_per_mode() {
    assert_eq!(offsets(FiniteDifferenceMode::Forward), (0, 1, 1));
    assert_eq!(offsets(FiniteDifferenceMode::Backward), (-1, 0, 1));
    assert_eq!(offsets(FiniteDifferenceMode::Central), (-1, 1, 2));
}

#[test]
fn request_checks_in_order() {
    assert_eq!(check_request(0, true, &[5], 2), Err(CalcError::DerivativeOrderZero));
    assert_eq!(check_request(1, true, &[5], 2), Err(CalcError::StepSizeZero));
    assert_eq!(check_request(2, false, &[0, 2], 2), Err(CalcError::IndexOutOfRange));
    assert_eq!(check_request(2, false, &[0, 1], 2), Ok(()));
    assert_eq!(check_request(1, false, &[], 0), Ok(()));
}

#[test]
fn jacobian_of_two_functions() {
    // the vector function (x*y*z, x^2 + y^2) at (1, 2, 3) has Jacobian [[6, 3, 2], [2, 4, 0]]
    let f1 = |a: &[f64; 3]| a[0] * a[1] * a[2];
    let f2 = |a: &[f64; 3]| a[0] * a[0] + a[1] * a[1];
    let funcs: [&dyn Fn(&[f64; 3]) -> f64; 2] = [&f1, &f2];
    let jacobian = Jacobian::<Central>::default();
    let result = jacobian.get_on_heap(&funcs, &[1.0, 2.0, 3.0]).unwrap();
    let expected = [[6.0, 3.0, 2.0], [2.0, 4.0, 0.0]];
    assert_eq!(result.len(), 2);
    for i in 0..2 {
        assert_eq!(result[i].len(), 3);
        for j in 0..3 {
            assert!((result[i][j] - expected[i][j]).abs() < 1e-6);
        }
    }
}

#[test]
fn jacobian_of_no_functions_is_an_error() {
    let funcs: [&dyn Fn(&[f64; 3]) -> f64; 0] = [];
    let jacobian = Jacobian::<Central>::default();
    assert_eq!(jacobian.get_on_heap(&funcs, &[1.0, 2.0, 3.0]), Err(CalcError::EmptyFunctionSet));
}

#[test]
fn hessian_is_symmetric() {
    // f(x, y) = x^2 * y + y^3 has Hessian [[2y, 2x], [2x, 6y]]
    let f = |a: &[f64; 2]| a[0] * a[0] * a[1] + a[1] * a[1] * a[1];
    let hessian = Hessian::<Central>::default();
    let result = hessian.get(&f, &[1.0, 2.0]).unwrap();
    assert_eq!(result.len(), 2);
    assert_eq!(result[0][1], result[1][0]);
    assert!((result[0][0] - 4.0).abs() < 1e-3);
    assert!((result[0][1] - 2.0).abs() < 1e-3);
    assert!((result[1][1] - 12.0).abs() < 1e-3);
}

/// A derivator that fails on variable 1.
struct FailsOnOne(Central);

impl Default for FailsOnOne {
    fn default() -> Self {
        FailsOnOne(Central { fail_on: Some(1) })
    }
}

impl DerivatorMultiVariable for FailsOnOne {
    type Scalar = f64;

    fn get<F: Fn(&[f64; NUM_VARS]) -> f64, const NUM_VARS: usize, const NUM_ORDER: usize>(
        &self,
        func: &F,
        idx_to_differentiate: &[usize; NUM_ORDER],
        point: &[f64; NUM_VARS],
    ) -> Result<f64, CalcError> {
        self.0.get(func, idx_to_differentiate, point)
    }
}

#[test]
fn hessian_reports_derivator_error() {
    let f = |a: &[f64; 2]| a[0] * a[1];
    let hessian = Hessian::<FailsOnOne>::default();
    assert_eq!(hessian.get(&f, &[1.0, 1.0]), Err(CalcError::IndexOutOfRange));
}

#[test]
fn jacobian_reports_derivator_error() {
    let f = |a: &[f64; 2]| a[0] * a[1];
    let funcs = [f];
    let jacobian = Jacobian::<FailsOnOne>::default();
    assert_eq!(jacobian.get_on_heap(&funcs, &[1.0, 1.0]), Err(CalcError::StepSizeZero));
}

#[test]
fn gradient_reports_derivator_error() {
    let f = |a: &[f64; 2]| a[0] * a[1];
    let approximator = LinearApproximator::from_derivator(Central { fail_on: Some(1) });
    assert_eq!(approximator.gradient(&f, &[1.0, 1.0]), Err(CalcError::StepSizeZero));
}

#[test]
fn gradient_of_linear_function() {
    // x + 2y + 3z has gradient (1, 2, 3) everywhere
    let f = |a: &[f64; 3]| a[0] + 2.0 * a[1] + 3.0 * a[2];
    let approximator = LinearApproximator::<Central>::default();
    let g = approximator.gradient(&f, &[1.0, 2.0, 3.0]).unwrap();
    assert_eq!(g.len(), 3);
    for (i, expected) in [1.0, 2.0, 3.0].iter().enumerate() {
        assert!((g[i] - expected).abs() < 1e-6);
    }
    assert!(approximator.derivator().fail_on.is_none());
}

/// Answers every request with a number that spells out the indices it was asked with:
/// `1000 * order + Σ (idx[k] + 1) * 10^k`, so a result shows which `get` produced it.
#[derive(Default, Clone, Copy)]
struct Echo;

fn echo_code(idx: &[usize]) -> f64 {
    let mut code = 1000.0 * idx.len() as f64;
    let mut scale = 1.0;
    for &i in idx {
        code += (i as f64 + 1.0) * scale;
        scale *= 10.0;
    }
    code
}

impl DerivatorMultiVariable for Echo {
    type Scalar = f64;

    fn get<F: Fn(&[f64; NUM_VARS]) -> f64, const NUM_VARS: usize, const NUM_ORDER: usize>(
        &self,
        _func: &F,
        idx_to_differentiate: &[usize; NUM_ORDER],
        _point: &[f64; NUM_VARS],
    ) -> Result<f64, CalcError> {
        Ok(echo_code(idx_to_differentiate))
    }
}

#[test]
fn gradient_entries_come_from_single_index_requests() {
    let f = |a: &[f64; 3]| a[0];
    let approximator = LinearApproximator::from_derivator(Echo);
    let g = approximator.gradient(&f, &[0.0, 0.0, 0.0]).unwrap();
    assert_eq!(g, vec![1001.0, 1002.0, 1003.0]);
}

#[test]
fn hessian_entries_come_from_index_pairs_and_mirror() {
    let f = |a: &[f64; 3]| a[0];
    let hessian = Hessian::from_derivator(Echo);
    let h = hessian.get(&f, &[0.0, 0.0, 0.0]).unwrap();
    // entry [i][j] with i <= j is get(&[i, j]) = 2000 + (i + 1) + 10 * (j + 1)
    let expected = vec![
        vec![2011.0, 2021.0, 2031.0],
        vec![2021.0, 2022.0, 2032.0],
        vec![2031.0, 2032.0, 2033.0],
    ];
    assert_eq!(h, expected);
}

#[test]
fn jacobian_rows_follow_functions_and_columns_follow_variables() {
    let f1 = |a: &[f64; 2]| a[0];
    let f2 = |a: &[f64; 2]| a[1];
    let funcs: [&dyn Fn(&[f64; 2]) -> f64; 2] = [&f1, &f2];
    let jacobian = Jacobian::from_derivator(Echo);
    let j = jacobian.get_on_heap(&funcs, &[0.0, 0.0]).unwrap();
    assert_eq!(j, vec![vec![1001.0, 1002.0], vec![1001.0, 1002.0]]);
}

#[test]
fn quadratic_derivatives_collect_gradient_and_hessian() {
    let f = |a: &[f64; 2]| a[0];
    let approximator = QuadraticApproximator::from_derivator(Echo);
    let (g, h) = approximator.derivatives(&f, &[0.0, 0.0]).unwrap();
    assert_eq!(g, vec![1001.0, 1002.0]);
    assert_eq!(h, vec![vec![2011.0, 2021.0], vec![2021.0, 2022.0]]);
}

#[test]
fn quadratic_derivatives_of_polynomial() {
    // f(x, y) = x^2 * y + y^3 at (1, 2): gradient (4, 13), Hessian [[4, 2], [2, 12]]
    let f = |a: &[f64; 2]| a[0] * a[0] * a[1] + a[1] * a[1] * a[1];
    let approximator = QuadraticApproximator::<Central>::default();
    let (g, h) = approximator.derivatives(&f, &[1.0, 2.0]).unwrap();
    assert!((g[0] - 4.0).abs() < 1e-6);
    assert!((g[1] - 13.0).abs() < 1e-6);
    assert!((h[0][0] - 4.0).abs() < 1e-3);
    assert!((h[0][1] - 2.0).abs() < 1e-3);
    assert_eq!(h[0][1], h[1][0]);
    assert!((h[1][1] - 12.0).abs() < 1e-3);
    assert!(approximator.derivator().fail_on.is_none());
}

#[test]
fn quadratic_derivatives_report_hessian_error_first() {
    // variable 1 fails in the Hessian (IndexOutOfRange) and in the gradient (StepSizeZero)
    let f = |a: &[f64; 2]| a[0] * a[1];
    let approximator = QuadraticApproximator::from_derivator(Central { fail_on: Some(1) });
    assert_eq!(approximator.derivatives(&f, &[1.0, 1.0]), Err(CalcError::IndexOutOfRange));
}

/// Echoes like `Echo`, but fails on one chosen request.
struct EchoFailsOn(&'static [usize]);

impl DerivatorMultiVariable for EchoFailsOn {
    type Scalar = f64;

    fn get<F: Fn(&[f64; NUM_VARS]) -> f64, const NUM_VARS: usize, const NUM_ORDER: usize>(
        &self,
        _func: &F,
        idx_to_differentiate: &[usize; NUM_ORDER],
        _point: &[f64; NUM_VARS],
    ) -> Result<f64, CalcError> {
        if idx_to_differentiate[..] == *self.0 {
            Err(CalcError::IndexOutOfRange)
        } else if NUM_ORDER == 1 && idx_to_differentiate[0] == 2 {
            Err(CalcError::StepSizeZero)
        } else {
            Ok(echo_code(idx_to_differentiate))
        }
    }
}

#[test]
fn first_error_is_reported() {
    let f = |a: &[f64; 3]| a[0];
    // the gradient asks [0], [1], [2] in turn: [1] fails before [2]
    let approximator = LinearApproximator::from_derivator(EchoFailsOn(&[1]));
    assert_eq!(approximator.gradient(&f, &[0.0; 3]), Err(CalcError::IndexOutOfRange));
    // only [2] fails
    let approximator = LinearApproximator::from_derivator(EchoFailsOn(&[]));
    assert_eq!(approximator.gradient(&f, &[0.0; 3]), Err(CalcError::StepSizeZero));
    // the Hessian succeeds when no pair fails; the gradient's error then comes out
    let quadratic = QuadraticApproximator::from_derivator(EchoFailsOn(&[]));
    assert_eq!(quadratic.derivatives(&f, &[0.0; 3]), Err(CalcError::StepSizeZero));
    // a failing pair comes out before the gradient's error
    let quadratic = QuadraticApproximator::from_derivator(EchoFailsOn(&[1, 2]));
    assert_eq!(quadratic.derivatives(&f, &[0.0; 3]), Err(CalcError::IndexOutOfRange));
    // the Jacobian walks row by row: the first function's [2] fails before anything else
    let funcs: [&dyn Fn(&[f64; 3]) -> f64; 2] = [&f, &f];
    let jacobian = Jacobian::from_derivator(EchoFailsOn(&[]));
    assert_eq!(jacobian.get_on_heap(&funcs, &[0.0; 3]), Err(CalcError::StepSizeZero));
}
