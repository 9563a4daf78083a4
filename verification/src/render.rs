//! How the standard library renders values inside messages: the `Debug`
//! form of a string and the text of an integer parse error, and the parse
//! itself.

use vstd::prelude::*;
use crate::text::{digits_value, parses_unsigned, unsigned_digits};

verus! {

/// The `Debug` rendering of a string (quoted, with escapes).
pub uninterp spec fn debug_str(s: Seq<char>) -> Seq<char>;

/// `format!("{s:?}")`. Trusted: the result is `debug_str` of the argument
/// (std's rendering depends on the string alone).
#[verifier::external_body]
pub(crate) fn debug_quote(s: &str) -> (r: String)
    ensures
        r@ == debug_str(s@),
{
    format!("{s:?}")
}

/// The `Display` text of the error `u32::from_str` gives for `s`.
pub uninterp spec fn u32_parse_error(s: Seq<char>) -> Seq<char>;

/// The value of a successful parse (0 otherwise).
pub open spec fn parsed_value(r: Result<u32, String>) -> nat {
    match r {
        Ok(v) => v as nat,
        Err(_) => 0,
    }
}

/// The text of a failed parse (empty otherwise).
pub open spec fn error_text(r: Result<u32, String>) -> Seq<char> {
    match r {
        Ok(_) => Seq::empty(),
        Err(e) => e@,
    }
}

/// `s.parse::<u32>()`, with the error rendered as text. Trusted: as std
/// documents, an optional `+` followed by one or more ASCII digits whose
/// value fits in a `u32` parses to that value; anything else is an error,
/// whose text is `u32_parse_error` of the argument.
#[verifier::external_body]
pub(crate) fn parse_u32(s: &str) -> (r: Result<u32, String>)
    ensures
        r is Ok <==> parses_unsigned(s@, u32::MAX as nat),
        r is Ok ==> parsed_value(r) == digits_value(unsigned_digits(s@)),
        r is Err ==> error_text(r) == u32_parse_error(s@),
{
    s.parse::<u32>().map_err(|e| e.to_string())
}

} // verus!
