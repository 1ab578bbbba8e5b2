//! The value model of a Sass compiler and the protocol of its built-in
//! functions.
//!
//! - [`common`]: the lexical vocabulary: punctuation, keywords, the named
//!   colors and the properties of CSS, positions in a source text.
//! - [`value`]: the values of the language, their equality and how CSS writes
//!   them; numbers with units and their arithmetic; maps.
//! - [`color`]: colors as red, green, blue and as hue, saturation, lightness.
//! - [`args`] and [`parse`]: the arguments of a call and how they are bound
//!   to the parameters of a built-in function.
//! - [`builtin`]: the registry of built-in functions, and the functions on
//!   hue, saturation and lightness.
//! - [`error`]: the errors of a compilation.
//!
//! Numbers are exact decimals with ten places: every contract is stated over
//! integers, sequences and maps.

pub mod args;
pub mod builtin;
pub mod color;
pub mod common;
pub mod error;
pub mod parse;
pub mod text;
pub mod unit;
pub mod value;
