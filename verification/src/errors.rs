//! The error taxonomy shared by every fallible operation of the crate.

use vstd::prelude::*;

verus! {

/// Every failure a builder, parser or segment constructor can report.
#[derive(Debug, PartialEq)]
pub enum ArnError {
    /// A named field of the serialized form failed its own validation rule.
    ParseFailure(&'static str, String),
    /// A part was empty, began with ':' or contained '/'.
    IllegalPartFormat,
    /// The builder received a segment tagged with an unknown routing token.
    InvalidPrefix(String),
    /// The builder found the target slot already filled.
    UnexpectedPart(String),
    /// A part failed validation inside the builder.
    InvalidPartFormat,
    /// The unique-value generator rejected the requested tag.
    IdGenerationFailure(String),
    /// `build` was invoked while the named required segment was still unset.
    MissingPart(String),
    /// The serialized string does not have the required shape.
    InvalidFormat,
    /// Carried over from conversions that can never fail.
    InfallibleError,
}

} // verus!
