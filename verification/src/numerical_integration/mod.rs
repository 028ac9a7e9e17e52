pub mod gaussian_integration;
pub mod iterative_integration;
pub mod mode;
pub mod newton_cotes;
pub mod newton_cotes_laws;
