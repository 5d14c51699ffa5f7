//! The two text patterns that registration checks, matched by the `regex` engine that
//! `lazy_regex` re-exports.
use vstd::prelude::*;
use crate::text::is_ws;

verus! {

/// A username may hold neither `@` nor whitespace: this pattern finds either.
pub const USERNAME_PATTERN: &'static str = r"[@\s]";

/// The shape of an email address.
pub const EMAIL_PATTERN: &'static str = r"^[a-zA-Z0-9._%+-]+@[a-zA-Z0-9.-]+\.[a-zA-Z]{2,}$";

/// An ASCII letter.
pub open spec fn ascii_letter(c: char) -> bool {
    ('a' <= c && c <= 'z') || ('A' <= c && c <= 'Z')
}

/// An ASCII letter or digit.
pub open spec fn ascii_alnum(c: char) -> bool {
    ascii_letter(c) || ('0' <= c && c <= '9')
}

/// A character of the part before the `@`: a letter, a digit, or one of `._%+-`.
pub open spec fn local_char(c: char) -> bool {
    ascii_alnum(c) || c == '.' || c == '_' || c == '%' || c == '+' || c == '-'
}

/// A character of the domain before its last label: a letter, a digit, `.` or `-`.
pub open spec fn domain_char(c: char) -> bool {
    ascii_alnum(c) || c == '.' || c == '-'
}

/// Every character of `s` from `lo` up to `hi` satisfies `p`.
pub open spec fn all_in(s: Seq<char>, lo: int, hi: int, p: spec_fn(char) -> bool) -> bool {
    forall|i: int| lo <= i < hi ==> #[trigger] p(s[i])
}

/// What the username pattern finds: an `@` or a whitespace character somewhere in `s`.
pub open spec fn username_pattern_matches(s: Seq<char>) -> bool {
    exists|i: int| 0 <= i < s.len() && (s[i] == '@' || is_ws(#[trigger] s[i]))
}

/// What the email pattern accepts: a non-empty local part, `@`, a non-empty domain part, `.`,
/// and a final label of at least two letters, spanning the whole text.
pub open spec fn email_pattern_matches(s: Seq<char>) -> bool {
    exists|a: int, d: int|
        #![trigger s[a], s[d]]
        0 < a && a + 1 < d && d + 3 <= s.len() && s[a] == '@' && s[d] == '.' && all_in(
            s,
            0,
            a,
            |c: char| local_char(c),
        ) && all_in(s, a + 1, d, |c: char| domain_char(c)) && all_in(
            s,
            d + 1,
            s.len() as int,
            |c: char| ascii_letter(c),
        )
}

/// Calls `Regex::new(pattern)` and then `is_match(text)`, for the two patterns of this
/// module, which compile. The contract states what the patterns mean by the `regex` syntax:
/// `\s` is the Unicode `White_Space` class, `^` and `$` anchor at the ends of the text.
#[verifier::external_body]
fn regex_is_match(pattern: &str, text: &str) -> (r: bool)
    requires
        pattern@ == USERNAME_PATTERN@ || pattern@ == EMAIL_PATTERN@,
    ensures
        pattern@ == USERNAME_PATTERN@ ==> (r <==> username_pattern_matches(text@)),
        pattern@ == EMAIL_PATTERN@ ==> (r <==> email_pattern_matches(text@)),
{
    lazy_regex::Regex::new(pattern).unwrap().is_match(text)
}

/// Whether a username holds an `@` or whitespace.
pub fn username_has_forbidden_char(username: &str) -> (r: bool)
    ensures
        r == username_pattern_matches(username@),
{
    regex_is_match(USERNAME_PATTERN, username)
}

/// Whether a text has the shape of an email address.
pub fn email_is_valid(email: &str) -> (r: bool)
    ensures
        r == email_pattern_matches(email@),
{
    regex_is_match(EMAIL_PATTERN, email)
}

} // verus!
