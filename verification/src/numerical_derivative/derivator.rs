use vstd::prelude::*;

use crate::utils::error_codes::CalcError;

verus! {

/// A numerical differentiator for functions of one variable.
pub trait DerivatorSingleVariable {
    type Scalar: Copy;

    /// The derivative of order `order` of `func` at `point`.
    fn get<F: Fn(Self::Scalar) -> Self::Scalar>(&self, order: usize, func: &F, point: Self::Scalar) -> Result<
        Self::Scalar,
        CalcError,
    >;
}

/// A numerical differentiator for functions of several variables.
pub trait DerivatorMultiVariable {
    type Scalar: Copy;

    /// The partial derivative of `func` at `point`, taken once along each variable in
    /// `idx_to_differentiate` (so its length is the order).
    fn get<F: Fn(&[Self::Scalar; NUM_VARS]) -> Self::Scalar, const NUM_VARS: usize, const NUM_ORDER: usize>(
        &self,
        func: &F,
        idx_to_differentiate: &[usize; NUM_ORDER],
        point: &[Self::Scalar; NUM_VARS],
    ) -> Result<Self::Scalar, CalcError>;
}

} // verus!
