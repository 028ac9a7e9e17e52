use vstd::prelude::*;

verus! {

/// Which samples a finite difference takes around the point.
#[derive(Clone, Copy, Debug, PartialEq, Eq, Structural)]
pub enum FiniteDifferenceMode {
    /// `(f(x + h) - f(x)) / h`
    Forward,
    /// `(f(x) - f(x - h)) / h`
    Backward,
    /// `(f(x + h) - f(x - h)) / (2h)`
    Central,
}

} // verus!
