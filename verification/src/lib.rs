//! Numerical calculus building blocks: composite integration rules, finite-difference
//! bookkeeping, Jacobian and Hessian assembly, linear approximation and line integrals.

pub mod approximation;
pub mod numerical_derivative;
pub mod numerical_integration;
pub mod utils;
pub mod vector_field;
