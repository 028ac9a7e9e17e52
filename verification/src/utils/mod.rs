pub mod error_codes;
