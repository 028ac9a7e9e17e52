use vstd::prelude::*;

use crate::numerical_integration::mode::GaussianQuadratureMethod;
use crate::utils::error_codes::CalcError;
use crate::vector_field::line_integral::lt_answers;

verus! {

/// Default quadrature order (number of nodes).
pub const DEFAULT_QUADRATURE_ORDERS: usize = 4;

/// `left == right` may answer `answer`.
pub open spec fn eq_answers<T: PartialEq>(left: T, right: T, answer: bool) -> bool {
    call_ensures(T::eq, (&left, &right), answer)
}

/// The limit `[lower, upper]` was found to lie on the domain of `method`, every comparison it
/// takes answering `true`: for Gauss-Legendre both ends are finite (strictly between
/// `neg_infinity` and `infinity`) and `lower < upper`; for Gauss-Hermite the limit is
/// `[neg_infinity, infinity]`; for Gauss-Laguerre it is `[zero, infinity]`.
pub open spec fn limit_on_domain<T: PartialOrd>(
    method: GaussianQuadratureMethod,
    lower: T,
    upper: T,
    zero: T,
    infinity: T,
    neg_infinity: T,
) -> bool {
    match method {
        GaussianQuadratureMethod::GaussLegendre => {
            &&& lt_answers(neg_infinity, lower, true)
            &&& lt_answers(lower, infinity, true)
            &&& lt_answers(neg_infinity, upper, true)
            &&& lt_answers(upper, infinity, true)
            &&& lt_answers(lower, upper, true)
        },
        GaussianQuadratureMethod::GaussHermite => {
            &&& eq_answers(lower, neg_infinity, true)
            &&& eq_answers(upper, infinity, true)
        },
        GaussianQuadratureMethod::GaussLaguerre => {
            &&& eq_answers(lower, zero, true)
            &&& eq_answers(upper, infinity, true)
        },
    }
}

/// The limit `[lower, upper]` was found off the domain of `method`: one of the comparisons of
/// [`limit_on_domain`] answered `false`.
pub open spec fn limit_off_domain<T: PartialOrd>(
    method: GaussianQuadratureMethod,
    lower: T,
    upper: T,
    zero: T,
    infinity: T,
    neg_infinity: T,
) -> bool {
    match method {
        GaussianQuadratureMethod::GaussLegendre => {
            ||| lt_answers(neg_infinity, lower, false)
            ||| lt_answers(lower, infinity, false)
            ||| lt_answers(neg_infinity, upper, false)
            ||| lt_answers(upper, infinity, false)
            ||| lt_answers(lower, upper, false)
        },
        GaussianQuadratureMethod::GaussHermite => {
            ||| eq_answers(lower, neg_infinity, false)
            ||| eq_answers(upper, infinity, false)
        },
        GaussianQuadratureMethod::GaussLaguerre => {
            ||| eq_answers(lower, zero, false)
            ||| eq_answers(upper, infinity, false)
        },
    }
}

/// Settings of the Gaussian quadrature integrators: the number of nodes and the family.
#[derive(Clone, Copy, Debug)]
pub struct SingleVariableSolver {
    order: usize,
    integration_method: GaussianQuadratureMethod,
}

impl Default for SingleVariableSolver {
    /// Gauss-Legendre with [`DEFAULT_QUADRATURE_ORDERS`] nodes, suited to most polynomial integrands.
    fn default() -> (r: Self)
        ensures
            r.spec_order() == DEFAULT_QUADRATURE_ORDERS,
            r.spec_integration_method() == GaussianQuadratureMethod::GaussLegendre,
    {
        SingleVariableSolver { order: DEFAULT_QUADRATURE_ORDERS, integration_method: GaussianQuadratureMethod::GaussLegendre }
    }
}

impl SingleVariableSolver {
    pub closed spec fn spec_order(self) -> usize {
        self.order
    }

    pub closed spec fn spec_integration_method(self) -> GaussianQuadratureMethod {
        self.integration_method
    }

    /// Returns the number of nodes (the order) used for quadrature.
    pub fn get_order(&self) -> (r: usize)
        ensures
            r == self.spec_order(),
    {
        self.order
    }

    /// Sets the number of nodes (the order) used for quadrature.
    pub fn set_order(&mut self, order: usize)
        ensures
            final(self).spec_order() == order,
            final(self).spec_integration_method() == old(self).spec_integration_method(),
    {
        self.order = order;
    }

    /// Returns the chosen family: GaussLegendre, GaussHermite or GaussLaguerre.
    pub fn get_integration_method(&self) -> (r: GaussianQuadratureMethod)
        ensures
            r == self.spec_integration_method(),
    {
        self.integration_method
    }

    /// Sets the family.
    pub fn set_integration_method(&mut self, integration_method: GaussianQuadratureMethod)
        ensures
            final(self).spec_integration_method() == integration_method,
            final(self).spec_order() == old(self).spec_order(),
    {
        self.integration_method = integration_method;
    }

    /// Checks that every limit lies on the domain of the chosen family: a finite `[a, b]` with
    /// `a < b` for Gauss-Legendre, `(-inf, +inf)` for Gauss-Hermite, `[0, +inf)` for
    /// Gauss-Laguerre. The canonical domain is required, not ignored, so a mismatched limit
    /// cannot silently give a wrong result; a value that compares as neither smaller, equal
    /// nor greater (a `NaN`) is refused. `zero`, `infinity` and `neg_infinity` are the scalar
    /// type's own values.
    ///
    /// # Errors
    /// [`CalcError::IntegrationLimitsIllDefined`] if a limit is off the domain.
    pub fn check_limits<T: PartialOrd, const NUM_INTEGRATIONS: usize>(
        &self,
        integration_limit: &[[T; 2]; NUM_INTEGRATIONS],
        zero: &T,
        infinity: &T,
        neg_infinity: &T,
    ) -> (r: Result<(), CalcError>)
        ensures
            r is Ok || r == Err::<(), CalcError>(CalcError::IntegrationLimitsIllDefined),
            r is Ok ==> forall|i: int|
                0 <= i < NUM_INTEGRATIONS ==> limit_on_domain(
                    self.spec_integration_method(),
                    #[trigger] integration_limit[i][0],
                    integration_limit[i][1],
                    *zero,
                    *infinity,
                    *neg_infinity,
                ),
            r is Err ==> exists|i: int|
                0 <= i < NUM_INTEGRATIONS && limit_off_domain(
                    self.spec_integration_method(),
                    #[trigger] integration_limit[i][0],
                    integration_limit[i][1],
                    *zero,
                    *infinity,
                    *neg_infinity,
                ),
    {
        let mut i: usize = 0;
        while i < NUM_INTEGRATIONS
            invariant
                i <= NUM_INTEGRATIONS,
                forall|k: int|
                    0 <= k < i ==> limit_on_domain(
                        self.spec_integration_method(),
                        #[trigger] integration_limit[k][0],
                        integration_limit[k][1],
                        *zero,
                        *infinity,
                        *neg_infinity,
                    ),
            decreases NUM_INTEGRATIONS - i,
        {
            let lower = &integration_limit[i][0];
            let upper = &integration_limit[i][1];
            let on_domain = match self.integration_method {
                GaussianQuadratureMethod::GaussLegendre => {
                    neg_infinity.lt(lower) && lower.lt(infinity) && neg_infinity.lt(upper) && upper.lt(infinity)
                        && lower.lt(upper)
                },
                GaussianQuadratureMethod::GaussHermite => lower.eq(neg_infinity) && upper.eq(infinity),
                GaussianQuadratureMethod::GaussLaguerre => lower.eq(zero) && upper.eq(infinity),
            };
            if !on_domain {
                return Err(CalcError::IntegrationLimitsIllDefined);
            }
            i += 1;
        }
        Ok(())
    }

    /// Builds settings with an explicit order and family.
    pub fn from_parameters(order: usize, integration_method: GaussianQuadratureMethod) -> (r: Self)
        ensures
            r.spec_order() == order,
            r.spec_integration_method() == integration_method,
    {
        SingleVariableSolver { order, integration_method }
    }
}

} // verus!
