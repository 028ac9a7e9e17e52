use vstd::prelude::*;

use crate::numerical_derivative::derivator::DerivatorMultiVariable;
use crate::utils::error_codes::CalcError;
use crate::numerical_derivative::jacobian::{single_partial_answers, single_partial_succeeds};

verus! {

/// Builds linear (first-order Taylor) approximations of functions with the derivator `D`.
pub struct LinearApproximator<D> {
    derivator: D,
}

impl<D: DerivatorMultiVariable + Default> Default for LinearApproximator<D> {
    fn default() -> (r: Self)
        ensures
            call_ensures(D::default, (), r.spec_derivator()),
    {
        LinearApproximator { derivator: D::default() }
    }
}

impl<D: DerivatorMultiVariable> LinearApproximator<D> {
    /// The derivator the approximations are built with.
    pub closed spec fn spec_derivator(self) -> D {
        self.derivator
    }

    /// Builds an approximator from an explicit derivator.
    pub fn from_derivator(derivator: D) -> (r: Self)
        ensures
            r.spec_derivator() == derivator,
    {
        LinearApproximator { derivator }
    }

    /// The derivator the approximations are built with.
    pub fn derivator(&self) -> (r: &D)
        ensures
            *r == self.spec_derivator(),
    {
        &self.derivator
    }

    /// The gradient of `function` at `point`: entry `i` is the first partial derivative along
    /// variable `i`, asked of the derivator's `get` with the single index `[i]`, in order. These
    /// are the coefficients of the linear approximation about `point`.
    ///
    /// # Errors
    /// The first error the derivator reports.
    pub fn gradient<F: Fn(&[D::Scalar; NUM_VARS]) -> D::Scalar, const NUM_VARS: usize>(
        &self,
        function: &F,
        point: &[D::Scalar; NUM_VARS],
    ) -> (r: Result<Vec<D::Scalar>, CalcError>)
        ensures
            gradient_answers(self.spec_derivator(), *function, *point, r),
    {
        collect_gradient(&self.derivator, function, point)
    }
}

/// `r` is what collecting the gradient of `function` at `point` from `derivator` may give:
/// on `Ok`, entry `i` is an answer of the derivator's `get` with the single index `[i]`; on
/// `Err`, the first error in index order: the derivator gave that error for one index, and a
/// value for every index before it.
pub open spec fn gradient_answers<D: DerivatorMultiVariable, F: Fn(&[D::Scalar; NUM_VARS]) -> D::Scalar, const NUM_VARS: usize>(
    derivator: D,
    function: F,
    point: [D::Scalar; NUM_VARS],
    r: Result<Vec<D::Scalar>, CalcError>,
) -> bool {
    &&& r matches Ok(g) ==> {
        &&& g@.len() == NUM_VARS
        &&& forall|i: int|
            0 <= i < NUM_VARS ==> single_partial_answers(derivator, function, i as usize, point, Ok(#[trigger] g@[i]))
    }
    &&& r matches Err(e) ==> exists|i: int|
        #![trigger single_partial_answers(derivator, function, i as usize, point, Err(e))]
        {
            &&& 0 <= i < NUM_VARS
            &&& single_partial_answers(derivator, function, i as usize, point, Err(e))
            &&& forall|k: int| 0 <= k < i ==> #[trigger] single_partial_succeeds(derivator, function, k as usize, point)
        }
}

/// Asks `derivator` for the first partial derivative of `function` at `point` along each
/// variable in turn, stopping at the first error.
pub(crate) fn collect_gradient<D: DerivatorMultiVariable, F: Fn(&[D::Scalar; NUM_VARS]) -> D::Scalar, const NUM_VARS: usize>(
    derivator: &D,
    function: &F,
    point: &[D::Scalar; NUM_VARS],
) -> (r: Result<Vec<D::Scalar>, CalcError>)
    ensures
        gradient_answers(*derivator, *function, *point, r),
{
    let mut slopes: Vec<D::Scalar> = Vec::new();
    let mut i: usize = 0;
    while i < NUM_VARS
        invariant
            i <= NUM_VARS,
            slopes@.len() == i,
            forall|k: int|
                0 <= k < i ==> single_partial_answers(
                    *derivator,
                    *function,
                    k as usize,
                    *point,
                    Ok(#[trigger] slopes@[k]),
                ),
        decreases NUM_VARS - i,
    {
        match derivator.get(function, &[i], point) {
            Ok(v) => slopes.push(v),
            Err(e) => {
                assert forall|k: int| 0 <= k < i implies #[trigger] single_partial_succeeds(*derivator, *function, k as usize, *point) by {
                    let v = slopes@[k];
                    assert(single_partial_answers(*derivator, *function, k as usize, *point, Ok(v)));
                }
                assert(single_partial_answers(*derivator, *function, (i as int) as usize, *point, Err(e)));
                return Err(e);
            },
        }
        i += 1;
    }
    Ok(slopes)
}

} // verus!
