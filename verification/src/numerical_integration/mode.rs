use vstd::prelude::*;

verus! {

/// The composite Newton-Cotes rule used by the iterative integrators.
#[derive(Clone, Copy, Debug, PartialEq, Eq, Structural)]
pub enum IterativeMethod {
    Booles,
    Simpsons,
    Trapezoidal,
}

/// The Gaussian quadrature family: Gauss-Legendre integrates over a finite interval,
/// Gauss-Hermite over the whole real line, Gauss-Laguerre over `[0, +inf)`.
#[derive(Clone, Copy, Debug, PartialEq, Eq, Structural)]
pub enum GaussianQuadratureMethod {
    GaussLegendre,
    GaussHermite,
    GaussLaguerre,
}

} // verus!
