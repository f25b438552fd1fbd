//! Error types of the two decoder layers.
//!
//! The typed decoder distinguishes two failure kinds, mirroring the design
//! of the format: an IO failure (the byte source ran out, always fatal) and
//! a format violation (wrong tag at a structurally mandatory position,
//! invalid UTF-8 in a string, an unrecognized top-level group kind), which
//! carries a human-readable reason.

use vstd::prelude::*;

verus! {

/// Failure of the typed decoder.
#[derive(Debug, Clone, PartialEq, Eq)]
pub enum DecodeError {
    /// The underlying byte source ended before the structure was complete.
    Io,
    /// The bytes violate the format; the string says how.
    InvalidData(String),
}

/// The kind of a [`DecodeError`], without the human-readable reason.
/// Spec-level mirrors of the decode functions predict the kind exactly;
/// the reason text is presentation only.
#[derive(Debug, Clone, Copy, PartialEq, Eq, Structural)]
pub enum DecodeErrorKind {
    Io,
    InvalidData,
}

impl View for DecodeError {
    type V = DecodeErrorKind;

    open spec fn view(&self) -> DecodeErrorKind {
        match self {
            DecodeError::Io => DecodeErrorKind::Io,
            DecodeError::InvalidData(_) => DecodeErrorKind::InvalidData,
        }
    }
}

impl DecodeError {
    /// The reason, for display; the empty string for an IO failure.
    pub fn message(&self) -> (r: String)
        ensures
            self is Io ==> r@ == Seq::<char>::empty(),
            self matches DecodeError::InvalidData(m) ==> r@ == m@,
    {
        match self {
            DecodeError::Io => String::new(),
            DecodeError::InvalidData(m) => m.clone(),
        }
    }
}

/// Failure of the raw structural parser.
#[derive(Debug, Clone, PartialEq, Eq)]
pub struct ParseError {
    pub description: String,
}

impl ParseError {
    pub fn new(description: &str) -> (r: ParseError)
        ensures
            r.description@ == description@,
    {
        ParseError { description: description.to_owned() }
    }
}

} // verus!
