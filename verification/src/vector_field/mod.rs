pub mod line_integral;
