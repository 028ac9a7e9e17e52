pub mod derivator;
pub mod finite_difference;
pub mod hessian;
pub mod jacobian;
pub mod mode;
