//! The value cast interface: conversion between accents and the
//! caller-facing value shapes of the host environment.
//!
//! Three inward shapes exist: a bare character, a text string, and a
//! symbolic content value holding exactly one textual codepoint.
//! Outward, an accent converts to its raw character.

use vstd::prelude::*;
use crate::accent::{spec_normalize, Accent};

verus! {

/// The host's content values, as far as this crate reads them: either
/// a symbolic element carrying its text, or any other content with its
/// source text.
#[derive(Debug, Clone, PartialEq, Eq)]
pub enum Content {
    /// A single symbol element, carrying the symbol's text.
    Symbol { text: String },
    /// Any other content.
    Plain { text: String },
}

/// A failed cast to an accent.
#[derive(Debug, Copy, Clone, Eq, PartialEq, Structural)]
pub enum CastError {
    /// A string reduced to zero or multiple characters with no alias
    /// match.
    InvalidAccentText,
    /// A content value that is not a symbol reducible to one accent.
    InvalidAccentSymbol,
}

impl CastError {
    /// The diagnostic text for this cast failure.
    pub fn message(&self) -> (r: &'static str)
        ensures
            *self == CastError::InvalidAccentText ==> r@ == "expected exactly one character"@,
            *self == CastError::InvalidAccentSymbol ==> r@
                == "expected a single-codepoint symbol"@,
    {
        match self {
            CastError::InvalidAccentText => "expected exactly one character",
            CastError::InvalidAccentSymbol => "expected a single-codepoint symbol",
        }
    }
}

impl Accent {
    /// Cast from a bare character: wraps it directly.
    pub fn from_char(c: char) -> (r: Accent)
        ensures
            r == Accent(c),
    {
        Accent(c)
    }

    /// Cast from a text string: `normalize`, failing with
    /// `InvalidAccentText` when the string resolves to no accent.
    pub fn from_str_value(s: &str) -> (r: Result<Accent, CastError>)
        ensures
            match spec_normalize(s@) {
                Some(c) => r == Ok::<Accent, CastError>(Accent(c)),
                None => r == Err::<Accent, CastError>(CastError::InvalidAccentText),
            },
    {
        match Accent::normalize(s) {
            Some(accent) => Ok(accent),
            None => Err(CastError::InvalidAccentText),
        }
    }

    /// Cast from a content value: `normalize` on a symbol element's
    /// text, failing with `InvalidAccentSymbol` when the content is no
    /// symbol or its text resolves to no accent.
    pub fn from_content(v: &Content) -> (r: Result<Accent, CastError>)
        ensures
            match v {
                Content::Symbol { text } => match spec_normalize(text@) {
                    Some(c) => r == Ok::<Accent, CastError>(Accent(c)),
                    None => r == Err::<Accent, CastError>(CastError::InvalidAccentSymbol),
                },
                Content::Plain { .. } => r == Err::<Accent, CastError>(
                    CastError::InvalidAccentSymbol,
                ),
            },
    {
        match v {
            Content::Symbol { text } => match Accent::normalize(text.as_str()) {
                Some(accent) => Ok(accent),
                None => Err(CastError::InvalidAccentSymbol),
            },
            Content::Plain { .. } => Err(CastError::InvalidAccentSymbol),
        }
    }

    /// The outward cast: an accent converts to its raw character.
    pub fn to_char(self) -> (c: char)
        ensures
            c == self.0,
    {
        self.0
    }
}

} // verus!
