//! Built-in functions on colors.

pub mod hsl;
