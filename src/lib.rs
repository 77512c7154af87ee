//! A monetary amount held at four decimal digits of precision.
//!
//! The amount value itself is a floating-point number; this crate holds what
//! reading an amount from text decides once the number has been parsed, and
//! the error it reports, with the text it rejected.

use vstd::prelude::*;

verus! {

/// The error returned when a text does not hold a decimal number.
///
/// It keeps the rejected text, so that a caller can report or correct it.
#[derive(Debug, Clone)]
pub struct ParseError {
    input: String,
}

impl ParseError {
    /// The text that was rejected, as a sequence of characters.
    pub closed spec fn input_view(&self) -> Seq<char> {
        self.input@
    }

    /// An error for the rejected text `input`, kept unchanged.
    pub fn new(input: &str) -> (r: ParseError)
        ensures
            r.input_view() == input@,
    {
        ParseError { input: input.to_owned() }
    }

    /// The text that was rejected.
    pub fn input(&self) -> (r: &str)
        ensures
            r@ == self.input_view(),
    {
        self.input.as_str()
    }
}

/// Decides what reading an amount from `input` returns, given the outcome
/// of parsing it as a number: the parsed value, kept unchanged, or an error
/// that holds exactly the rejected text.
pub fn amount_from_parsed<T>(input: &str, parsed: Option<T>) -> (r: Result<T, ParseError>)
    ensures
        match parsed {
            Some(v) => r == Ok::<T, ParseError>(v),
            None => r is Err && r->Err_0.input_view() == input@,
        },
{
    match parsed {
        Some(v) => Ok(v),
        None => Err(ParseError::new(input)),
    }
}

} // verus!
