use vstd::prelude::*;

use crate::approximation::linear_approximation::{collect_gradient, gradient_answers};
use crate::numerical_derivative::derivator::DerivatorMultiVariable;
use crate::numerical_derivative::hessian::{
    collect_hessian, double_partial_answers, double_partial_succeeds, hessian_answers, hessian_succeeds,
};
use crate::utils::error_codes::CalcError;

verus! {

/// Builds quadratic (second-order Taylor) approximations of functions with the derivator `D`.
pub struct QuadraticApproximator<D> {
    derivator: D,
}

impl<D: DerivatorMultiVariable + Default> Default for QuadraticApproximator<D> {
    fn default() -> (r: Self)
        ensures
            call_ensures(D::default, (), r.spec_derivator()),
    {
        QuadraticApproximator { derivator: D::default() }
    }
}

impl<D: DerivatorMultiVariable> QuadraticApproximator<D> {
    /// The derivator the approximations are built with.
    pub closed spec fn spec_derivator(self) -> D {
        self.derivator
    }

    /// Builds an approximator from an explicit derivator.
    pub fn from_derivator(derivator: D) -> (r: Self)
        ensures
            r.spec_derivator() == derivator,
    {
        QuadraticApproximator { derivator }
    }

    /// The derivator the approximations are built with.
    pub fn derivator(&self) -> (r: &D)
        ensures
            *r == self.spec_derivator(),
    {
        &self.derivator
    }

    /// The derivatives a quadratic approximation of `function` about `point` is built from:
    /// first the Hessian (symmetric; diagonal and upper triangle asked of the derivator's `get`
    /// with `[i, j]`), then the gradient (entry `i` asked with `[i]`).
    ///
    /// # Errors
    /// The first error the derivator reports, Hessian first: an error of the gradient comes
    /// only once every Hessian entry was answered with a value.
    pub fn derivatives<F: Fn(&[D::Scalar; NUM_VARS]) -> D::Scalar, const NUM_VARS: usize>(
        &self,
        function: &F,
        point: &[D::Scalar; NUM_VARS],
    ) -> (r: Result<(Vec<D::Scalar>, Vec<Vec<D::Scalar>>), CalcError>)
        ensures
            r matches Ok((g, h)) ==> {
                &&& gradient_answers(self.spec_derivator(), *function, *point, Ok(g))
                &&& hessian_answers(self.spec_derivator(), *function, *point, Ok(h))
            },
            r matches Err(e) ==> {
                ||| hessian_answers(self.spec_derivator(), *function, *point, Err(e))
                ||| {
                    &&& hessian_succeeds(self.spec_derivator(), *function, *point)
                    &&& gradient_answers(self.spec_derivator(), *function, *point, Err(e))
                }
            },
    {
        let hessian = match collect_hessian(&self.derivator, function, point) {
            Ok(h) => h,
            Err(e) => return Err(e),
        };
        assert forall|k: int, l: int| 0 <= k <= l < NUM_VARS implies #[trigger] double_partial_succeeds(
            self.derivator,
            *function,
            k as usize,
            l as usize,
            *point,
        ) by {
            let v = hessian@[k]@[l];
            assert(double_partial_answers(self.derivator, *function, k as usize, l as usize, *point, Ok(v)));
        }
        let gradient = match collect_gradient(&self.derivator, function, point) {
            Ok(g) => g,
            Err(e) => return Err(e),
        };
        Ok((gradient, hessian))
    }
}

} // verus!
