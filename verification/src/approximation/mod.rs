pub mod linear_approximation;
pub mod quadratic_approximation;
