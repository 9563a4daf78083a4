//! Regular-expression matching, done by the `regex` crate.

use vstd::prelude::*;
use crate::config::validate::{USERNAME_PATTERN, CUSTOM_COLOR_PATTERN};
use crate::mobile::accounts::ACCOUNT_NAME_PATTERN;
use crate::text::{is_ascii_alnum, is_hex_digit};

verus! {

/// What `regex::Regex` makes of `pattern` applied to `text`: `None` when the
/// pattern does not compile, otherwise whether it matches somewhere in
/// `text`.
pub uninterp spec fn regex_match(pattern: Seq<char>, text: Seq<char>) -> Option<bool>;

/// A character of `[a-zA-Z0-9._-]`.
pub open spec fn is_username_char(c: char) -> bool {
    is_ascii_alnum(c) || c == '.' || c == '_' || c == '-'
}

/// What `^[a-zA-Z0-9._-]+$` matches: one or more such characters and
/// nothing else.
pub open spec fn username_text(t: Seq<char>) -> bool {
    t.len() > 0 && forall|i: int| 0 <= i < t.len() ==> is_username_char(#[trigger] t[i])
}

/// What `^#[0-9a-fA-F]{6}$` matches: `#` and exactly six hexadecimal
/// digits.
pub open spec fn color_text(t: Seq<char>) -> bool {
    t.len() == 7 && t[0] == '#' && forall|i: int| 1 <= i < 7 ==> is_hex_digit(#[trigger] t[i])
}

/// A character of `[a-zA-Z0-9_\u{4e00}-\u{9fff}-]`.
pub open spec fn is_account_name_char(c: char) -> bool {
    is_ascii_alnum(c) || c == '_' || c == '-' || ('\u{4e00}' <= c && c <= '\u{9fff}')
}

/// What `^[a-zA-Z0-9_\u{4e00}-\u{9fff}-]+$` matches: one or more such
/// characters and nothing else.
pub open spec fn account_name_text(t: Seq<char>) -> bool {
    t.len() > 0 && forall|i: int| 0 <= i < t.len() ==> is_account_name_char(#[trigger] t[i])
}

/// Compiles `pattern` with `regex::Regex::new` and tests `text` with
/// `Regex::is_match`. Trusted: the result is the value of `regex_match` on
/// the two strings (the crate is deterministic and keeps no state between
/// calls), and, for the library's three patterns, what their syntax says
/// they match (`^` and `$` anchor at the start and end of the text, a
/// bracketed class matches one character of its ranges, `+` one or more,
/// `{6}` exactly six).
#[verifier::external_body]
pub(crate) fn regex_is_match(pattern: &str, text: &str) -> (r: Option<bool>)
    ensures
        r == regex_match(pattern@, text@),
        pattern@ == USERNAME_PATTERN@ ==> r == Some(username_text(text@)),
        pattern@ == CUSTOM_COLOR_PATTERN@ ==> r == Some(color_text(text@)),
        pattern@ == ACCOUNT_NAME_PATTERN@ ==> r == Some(account_name_text(text@)),
{
    match regex::Regex::new(pattern) {
        Ok(re) => Some(re.is_match(text)),
        Err(_) => None,
    }
}

} // verus!
