use vstd::prelude::*;

verus! {

/// Every way a numerical request can be refused.
#[derive(Clone, Copy, Debug, PartialEq, Eq, Structural)]
pub enum CalcError {
    /// An integration was asked for with zero iterations.
    IterationsZero,
    /// An integration limit whose lower bound is not strictly below its upper bound.
    IntegrationLimitsIllDefined,
    /// A finite-difference step size of zero.
    StepSizeZero,
    /// A derivative of order zero.
    DerivativeOrderZero,
    /// A variable index that does not name a variable of the function.
    IndexOutOfRange,
    /// An empty set of functions.
    EmptyFunctionSet,
}

} // verus!
