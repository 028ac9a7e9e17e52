use vstd::prelude::*;

use crate::utils::error_codes::CalcError;

verus! {

/// Builds the curve position `[transformations[0](t), ..., transformations[N - 1](t)]`.
pub fn curve_point<T: Copy, G: Fn(T) -> T, const N: usize>(transformations: &[G; N], t: T) -> (point: [T; N])
    requires
        forall|i: int| 0 <= i < N ==> call_requires(transformations[i], (t,)),
    ensures
        forall|i: int| 0 <= i < N ==> call_ensures(transformations[i], (t,), #[trigger] point[i]),
{
    let mut point = [t; N];
    let mut i: usize = 0;
    while i < N
        invariant
            i <= N,
            forall|k: int| 0 <= k < N ==> call_requires(transformations[k], (t,)),
            forall|k: int| 0 <= k < i ==> call_ensures(transformations[k], (t,), #[trigger] point[k]),
        decreases N - i,
    {
        let v = (transformations[i])(t);
        point[i] = v;
        i += 1;
    }
    point
}

/// `lower < upper` may answer `answer` for this pair of limits.
pub open spec fn lt_answers<T: PartialOrd>(lower: T, upper: T, answer: bool) -> bool {
    call_ensures(T::lt, (&lower, &upper), answer)
}

/// Checks a line-integral request: the step count must be non-zero, then the lower limit of
/// the parameter must be strictly below the upper one (which rejects equal, reversed and
/// unordered limits).
pub fn check_limits<T: PartialOrd>(integration_limit: &[T; 2], total_iterations: u64) -> (r: Result<(), CalcError>)
    ensures
        total_iterations == 0 <==> r == Err::<(), CalcError>(CalcError::IterationsZero),
        r is Ok || r == Err::<(), CalcError>(CalcError::IterationsZero) || r == Err::<(), CalcError>(
            CalcError::IntegrationLimitsIllDefined,
        ),
        r is Ok ==> lt_answers(integration_limit[0], integration_limit[1], true),
        r == Err::<(), CalcError>(CalcError::IntegrationLimitsIllDefined) ==> lt_answers(
            integration_limit[0],
            integration_limit[1],
            false,
        ),
{
    if total_iterations == 0 {
        return Err(CalcError::IterationsZero);
    }
    if !(integration_limit[0] < integration_limit[1]) {
        return Err(CalcError::IntegrationLimitsIllDefined);
    }
    Ok(())
}

} // verus!
