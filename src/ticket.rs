//! The default ticket reference, read off the current branch name.
use vstd::prelude::*;
use crate::error::FriseResult;

verus! {

/// A ticket at the start of a line: letters and digits, a hyphen, digits.
pub const TICKET_PATTERN: &'static str = r"(?m)^(?<jiraIssue>[a-zA-Z0-9]+-\d+)";

/// The name of the group in `TICKET_PATTERN` that holds the ticket.
pub const TICKET_GROUP: &'static str = "jiraIssue";

/// What `regex` finds for the group named `group` in the leftmost match of
/// `pattern` in `text`; `None` where the pattern does not compile, nothing
/// matches or the group took no part in the match.
pub uninterp spec fn named_capture_of(pattern: Seq<char>, group: Seq<char>, text: Seq<char>) -> Option<Seq<char>>;

/// Relies on `regex::Regex::new`, `Regex::captures` and `Captures::name`: the
/// text of the named group in the leftmost match, if any.
#[verifier::external_body]
fn named_capture(pattern: &str, group: &str, text: &str) -> (r: Option<String>)
    ensures
        named_capture_of(pattern@, group@, text@) is None ==> r is None,
        named_capture_of(pattern@, group@, text@) is Some ==> r is Some
            && r->Some_0@ == named_capture_of(pattern@, group@, text@)->Some_0,
{
    match regex::Regex::new(pattern) {
        Ok(re) => re.captures(text).and_then(|c| c.name(group)).map(|m| m.as_str().to_string()),
        Err(_) => None,
    }
}

/// The text of a capture, or nothing.
pub open spec fn capture_text(capture: Option<Seq<char>>) -> Seq<char> {
    match capture {
        Some(t) => t,
        None => Seq::empty(),
    }
}

/// The first line of the branch lookup's output, or nothing.
pub open spec fn first_line(lines: Seq<String>) -> Seq<char> {
    if lines.len() > 0 {
        lines[0]@
    } else {
        Seq::empty()
    }
}

/// The default ticket for the branch named `branch`.
pub open spec fn ticket_default_of(branch: Seq<char>) -> Seq<char> {
    capture_text(named_capture_of(TICKET_PATTERN@, TICKET_GROUP@, branch))
}

/// The default ticket given what the ticket pattern captured: the capture,
/// or empty when there is none.
pub fn ticket_from_capture(capture: Option<String>) -> (r: String)
    ensures
        capture is None ==> r@.len() == 0,
        capture is Some ==> r@ == capture->Some_0@,
{
    match capture {
        Some(t) => t,
        None => String::new(),
    }
}

/// The default ticket for the output of the branch lookup: what the ticket
/// pattern captures at the start of its first line; empty when the lookup
/// failed, printed nothing, or nothing matches.
pub fn ticket_default(branch: &FriseResult<Vec<String>>) -> (r: String)
    ensures
        branch is Err ==> r@.len() == 0,
        branch is Ok ==> r@ == ticket_default_of(first_line(branch->Ok_0@)),
{
    match branch {
        Err(_) => String::new(),
        Ok(lines) => {
            let line: &str = if lines.len() > 0 {
                lines[0].as_str()
            } else {
                ""
            };
            proof {
                reveal_strlit("");
            }
            let capture = named_capture(TICKET_PATTERN, TICKET_GROUP, line);
            assert(line@ == first_line(lines@));
            ticket_from_capture(capture)
        },
    }
}

} // verus!
