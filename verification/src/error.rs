//! Failures of a compilation, each tied to a place in the source.

use codemap::Span;
use vstd::prelude::*;

verus! {

/// `codemap::Span`, a range of the source text. Only the type is made known
/// here, and nothing is claimed of what a span holds: a span is carried from
/// the call that failed to the error that reports it, and two spans are told
/// apart only by being the same value or not.
#[verifier::external_type_specification]
#[verifier::external_body]
pub struct ExSpan(codemap::Span);

/// What went wrong, in broad terms.
#[derive(Copy, Clone, Debug, PartialEq, Eq, Structural)]
pub enum ErrorKind {
    /// An argument is missing, or there are too many.
    Arity,
    /// A value is not of the kind that is asked for.
    Type,
    /// A number lies outside the bounds of its parameter.
    Range,
    /// A list does not have the shape that is asked for.
    Structure,
}

/// An error of the compilation: it ends the statement at hand, not the process.
#[derive(Debug)]
pub struct SassError {
    pub kind: ErrorKind,
    pub message: String,
    pub span: Span,
}

/// The mathematical content of an error.
pub struct ErrorView {
    pub kind: ErrorKind,
    pub message: Seq<char>,
    pub span: Span,
}

impl View for SassError {
    type V = ErrorView;

    open spec fn view(&self) -> ErrorView {
        ErrorView { kind: self.kind, message: self.message@, span: self.span }
    }
}

/// What a step of the compilation gives: its result, or the error that ends
/// the statement.
pub type SassResult<T> = Result<T, SassError>;

impl SassError {
    /// The error of the given kind and text at `span`.
    pub fn new(kind: ErrorKind, message: String, span: Span) -> (e: SassError)
        ensures
            e@ == (ErrorView { kind, message: message@, span }),
    {
        SassError { kind, message, span }
    }

    /// The text of the error.
    pub fn to_string(&self) -> (s: String)
        ensures
            s@ == self@.message,
    {
        self.message.clone()
    }
}

} // verus!
