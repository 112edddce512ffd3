use vstd::prelude::*;

verus! {

/// Whether some part of `text` matches the regular expression `pattern`;
/// `None` where `pattern` is not a valid expression.
pub uninterp spec fn regex_match(pattern: Seq<char>, text: Seq<char>) -> Option<bool>;

/// Relies on regex::Regex::new, which compiles `pattern` or reports it
/// invalid, and on regex::Regex::is_match, which tells whether the compiled
/// expression matches anywhere in `text`. The answer depends on the two
/// strings alone.
#[verifier::external_body]
fn search(pattern: &str, text: &str) -> (r: Option<bool>)
    ensures
        r == regex_match(pattern@, text@),
{
    match regex::Regex::new(pattern) {
        Ok(re) => Some(re.is_match(text)),
        Err(_) => None,
    }
}

/// The answers that decline a bulk push: those that begin with `n`, in
/// either case.
pub const DECLINE_PATTERN: &'static str = "(?i)^n";

/// Whether an answer declines, given what the search for the declining
/// pattern in it found: only a match declines, so that an expression that
/// failed to compile never stops a push that was asked for.
pub fn declines_from_search(found: Option<bool>) -> (r: bool)
    ensures
        r == (found == Some(true)),
{
    match found {
        Some(m) => m,
        None => false,
    }
}

/// Whether the operator's answer to the push prompt declines the push.
pub fn answer_declines(answer: &str) -> (r: bool)
    ensures
        r == (regex_match(DECLINE_PATTERN@, answer@) == Some(true)),
{
    declines_from_search(search(DECLINE_PATTERN, answer))
}

} // verus!
