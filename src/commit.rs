//! The fragments of a commit message, the rules each wizard step applies to
//! them, and the text they are finally joined into.
use vstd::prelude::*;
use crate::text::{is_trimmed, lemma_trim_idempotent, lemma_trim_is_trimmed, lemma_trimmed_unchanged, trim, trim_spec};

verus! {

/// The longest a header line may be, type, ticket and text together.
pub const MAX_HEADER_LEN: usize = 72;

/// One entry of the catalogue of change types.
pub struct CommitType {
    pub _type: &'static str,
    pub description: &'static str,
}

impl CommitType {
    pub fn new(_type: &'static str, description: &'static str) -> (r: Self)
        ensures
            r._type == _type,
            r.description == description,
    {
        Self { _type, description }
    }
}

/// The catalogue of change types, in the order they are offered.
pub fn get_commit_types() -> (r: Vec<CommitType>)
    ensures
        r@.len() == 9,
        r@[0]._type@ == "feat"@ && r@[0].description@ == "A new feature"@,
        r@[1]._type@ == "fix"@ && r@[1].description@ == "A bug fix"@,
        r@[2]._type@ == "docs"@ && r@[2].description@ == "Documentation only changes"@,
        r@[3]._type@ == "style"@ && r@[3].description@
            == "Changes that do not affect the meaning of the code (white-space, formatting, missing semi-colons, etc)"@,
        r@[4]._type@ == "refactor"@ && r@[4].description@
            == "A code change that neither fixes a bug nor adds a feature"@,
        r@[5]._type@ == "revert"@ && r@[5].description@ == "Reverts a previous commit"@,
        r@[6]._type@ == "perf"@ && r@[6].description@
            == "A code change that improves performance"@,
        r@[7]._type@ == "test"@ && r@[7].description@
            == "Adding missing or correcting existing tests"@,
        r@[8]._type@ == "chore"@ && r@[8].description@
            == "Changes to the build process or auxiliary tools and libraries such as documentation generation"@,
{
    vec![
        CommitType::new("feat", "A new feature"),
        CommitType::new("fix", "A bug fix"),
        CommitType::new("docs", "Documentation only changes"),
        CommitType::new("style", "Changes that do not affect the meaning of the code (white-space, formatting, missing semi-colons, etc)"),
        CommitType::new("refactor", "A code change that neither fixes a bug nor adds a feature"),
        CommitType::new("revert", "Reverts a previous commit"),
        CommitType::new("perf", "A code change that improves performance"),
        CommitType::new("test", "Adding missing or correcting existing tests"),
        CommitType::new("chore", "Changes to the build process or auxiliary tools and libraries such as documentation generation"),
    ]
}

/// The fragments collected so far.
pub struct CommitBuilder {
    pub message: String,
    pub body: Option<String>,
    pub footer: Option<String>,
}

/// The text of an optional fragment; an absent one is empty.
pub open spec fn opt_text(o: Option<String>) -> Seq<char> {
    match o {
        Some(s) => s@,
        None => Seq::empty(),
    }
}

/// One blank line between two fragments.
pub open spec fn blank_line() -> Seq<char> {
    seq!['\n', '\n']
}

/// `a` and `b` with one blank line between them, an empty one dropped.
pub open spec fn join_blank(a: Seq<char>, b: Seq<char>) -> Seq<char> {
    if a.len() == 0 {
        b
    } else if b.len() == 0 {
        a
    } else {
        a + blank_line() + b
    }
}

/// Message, body and footer joined, empty ones dropped.
pub open spec fn joined(c: CommitBuilder) -> Seq<char> {
    join_blank(join_blank(c.message@, opt_text(c.body)), opt_text(c.footer))
}

/// The final commit text: the joined fragments, trimmed.
pub open spec fn finalized(c: CommitBuilder) -> Seq<char> {
    trim_spec(joined(c))
}

/// The message once the type `tag` is chosen.
pub open spec fn typed_message(tag: Seq<char>) -> Seq<char> {
    tag + seq![':']
}

/// The message `m` once the ticket `t` is added.
pub open spec fn with_ticket(m: Seq<char>, t: Seq<char>) -> Seq<char> {
    m + seq![' ', '['] + t + seq![']']
}

/// The message `m` once the header `h` is added.
pub open spec fn with_header(m: Seq<char>, h: Seq<char>) -> Seq<char> {
    m + seq![' '] + h
}

/// The footer for a breaking change described by `d`.
pub open spec fn breaking_footer(d: Seq<char>) -> Seq<char> {
    "BREAKING CHANGE: "@ + d
}

/// A header of `h` characters after a message of `p` characters is accepted.
pub open spec fn header_accepts(p: nat, h: nat) -> bool {
    1 <= h && p + h <= MAX_HEADER_LEN
}

/// How many header characters are left after a message `m`.
pub open spec fn remaining_of(m: Seq<char>) -> nat {
    if m.len() <= MAX_HEADER_LEN {
        (MAX_HEADER_LEN - m.len()) as nat
    } else {
        0
    }
}

/// Appends `part` to `acc` with a blank line between, unless either is empty.
fn join_into(acc: &mut String, part: &str)
    ensures
        final(acc)@ == join_blank(old(acc)@, part@),
{
    if part.is_empty() {
    } else if acc.as_str().is_empty() {
        acc.append(part);
    } else {
        let sep = "\n\n";
        proof {
            reveal_strlit("\n\n");
        }
        acc.append(sep);
        acc.append(part);
    }
}

impl CommitBuilder {
    /// No fragment set yet.
    pub fn new() -> (r: Self)
        ensures
            r.message@.len() == 0,
            r.body is None,
            r.footer is None,
    {
        Self { message: String::new(), body: None, footer: None }
    }

    /// The final commit text: message, body and footer, empty ones dropped,
    /// one blank line between those left, leading and trailing white space
    /// removed.
    pub fn to_string(&self) -> (r: String)
        ensures
            r@ == finalized(*self),
    {
        let mut text = self.message.clone();
        proof {
            reveal_strlit("");
        }
        match &self.body {
            Some(b) => join_into(&mut text, b.as_str()),
            None => join_into(&mut text, ""),
        }
        match &self.footer {
            Some(f) => join_into(&mut text, f.as_str()),
            None => join_into(&mut text, ""),
        }
        trim(text.as_str())
    }

    /// Starts the message with the chosen type: `"<type>:"`.
    pub fn prompt_type(self, choice: &CommitType) -> (r: Self)
        ensures
            r.message@ == typed_message(choice._type@),
            r.body == self.body,
            r.footer == self.footer,
    {
        let mut message = String::from_str(choice._type);
        message.append(":");
        proof {
            reveal_strlit(":");
        }
        CommitBuilder { message, body: self.body, footer: self.footer }
    }

    /// Adds the ticket reference: `"<message> [<ticket>]"`.
    pub fn prompt_jira(self, ticket: &str) -> (r: Self)
        ensures
            r.message@ == with_ticket(self.message@, ticket@),
            r.body == self.body,
            r.footer == self.footer,
    {
        let mut message = self.message;
        message.append(" [");
        message.append(ticket);
        message.append("]");
        proof {
            reveal_strlit(" [");
            reveal_strlit("]");
        }
        CommitBuilder { message, body: self.body, footer: self.footer }
    }

    /// Adds the header text: `"<message> <header>"`.
    pub fn prompt_header(self, header: &str) -> (r: Self)
        ensures
            r.message@ == with_header(self.message@, header@),
            r.body == self.body,
            r.footer == self.footer,
    {
        let mut message = self.message;
        message.append(" ");
        message.append(header);
        proof {
            reveal_strlit(" ");
        }
        CommitBuilder { message, body: self.body, footer: self.footer }
    }

    /// Sets the body as given; `None` (the step was skipped) leaves none.
    pub fn prompt_body(self, body: Option<String>) -> (r: Self)
        ensures
            r.message == self.message,
            r.body == body,
            r.footer == self.footer,
    {
        CommitBuilder { message: self.message, body, footer: self.footer }
    }

    /// Records a breaking change described by `description`, if any, as the
    /// footer `"BREAKING CHANGE: <description>"`.
    pub fn prompt_breaking_change(self, description: Option<&str>) -> (r: Self)
        ensures
            r.message == self.message,
            r.body == self.body,
            description is None ==> r.footer == self.footer,
            description is Some ==> r.footer is Some
                && r.footer->Some_0@ == breaking_footer(description->Some_0@),
    {
        match description {
            Some(d) => {
                let mut footer = String::from_str("BREAKING CHANGE: ");
                footer.append(d);
                CommitBuilder { message: self.message, body: self.body, footer: Some(footer) }
            },
            None => self,
        }
    }

    /// The final confirmation: declining it does not abort, the fragments
    /// are kept as they are.
    pub fn prompt_confirm(self, confirmed: bool) -> (r: Self)
        ensures
            r == self,
    {
        self
    }
}

/// A ticket answer is accepted when it is not empty.
pub fn ticket_is_valid(ticket: &str) -> (r: bool)
    ensures
        r == (ticket@.len() >= 1),
{
    !ticket.is_empty()
}

/// A breaking-change description is accepted when it is not empty.
pub fn description_is_valid(description: &str) -> (r: bool)
    ensures
        r == (description@.len() >= 1),
{
    !description.is_empty()
}

/// A header is accepted after `message` when it is not empty and is at most
/// `MAX_HEADER_LEN` less the message's length, in characters.
pub fn header_fits(message: &str, header: &str) -> (r: bool)
    ensures
        r == header_accepts(message@.len(), header@.len()),
{
    let p = message.unicode_len();
    let h = header.unicode_len();
    1 <= h && h <= MAX_HEADER_LEN && p <= MAX_HEADER_LEN - h
}

/// How many header characters are left after `message`.
pub fn remaining_len(message: &str) -> (r: usize)
    ensures
        r == remaining_of(message@),
{
    let p = message.unicode_len();
    if p <= MAX_HEADER_LEN {
        MAX_HEADER_LEN - p
    } else {
        0
    }
}

/// No three `\n` follow one another in `s`: no two blank lines in a row.
pub open spec fn no_blank_run(s: Seq<char>) -> bool {
    forall|i: int|
        0 <= i && i + 3 <= s.len() ==> !(#[trigger] s[i] == '\n' && s[i + 1] == '\n' && s[i + 2]
            == '\n')
}

proof fn lemma_join_blank_shape(a: Seq<char>, b: Seq<char>)
    requires
        is_trimmed(a),
        is_trimmed(b),
        no_blank_run(a),
        no_blank_run(b),
    ensures
        is_trimmed(join_blank(a, b)),
        no_blank_run(join_blank(a, b)),
{
    if a.len() > 0 && b.len() > 0 {
        let s = a + blank_line() + b;
        let n = a.len() as int;
        assert(s[0] == a[0]);
        assert(s.last() == b.last());
        assert(s[n - 1] == a.last());
        assert(s[n + 2] == b[0]);
        assert forall|i: int| 0 <= i && i + 3 <= s.len() implies !(#[trigger] s[i] == '\n' && s[i
            + 1] == '\n' && s[i + 2] == '\n') by {
            if i + 3 <= n {
                assert(s[i] == a[i] && s[i + 1] == a[i + 1] && s[i + 2] == a[i + 2]);
            } else if i >= n + 2 {
                assert(s[i] == b[i - n - 2] && s[i + 1] == b[i - n - 1] && s[i + 2] == b[i - n]);
            }
        }
    }
}

/// Joining is all there is to finalizing when every fragment is already
/// trimmed, and then no two blank lines ever follow one another, whichever
/// of body and footer are present, provided no fragment holds two blank
/// lines in a row itself.
pub proof fn lemma_finalize_no_blank_run(c: CommitBuilder)
    requires
        is_trimmed(c.message@),
        is_trimmed(opt_text(c.body)),
        is_trimmed(opt_text(c.footer)),
        no_blank_run(c.message@),
        no_blank_run(opt_text(c.body)),
        no_blank_run(opt_text(c.footer)),
    ensures
        finalized(c) == joined(c),
        no_blank_run(finalized(c)),
{
    lemma_join_blank_shape(c.message@, opt_text(c.body));
    lemma_join_blank_shape(join_blank(c.message@, opt_text(c.body)), opt_text(c.footer));
    lemma_trimmed_unchanged(joined(c));
}

/// Finalizing is idempotent: fragments made of a finalized text alone
/// finalize to that same text.
pub proof fn lemma_finalize_idempotent(c: CommitBuilder, d: CommitBuilder)
    requires
        d.message@ == finalized(c),
        d.body is None,
        d.footer is None,
    ensures
        finalized(d) == finalized(c),
        is_trimmed(finalized(c)),
{
    assert(joined(d) == finalized(c));
    lemma_trim_idempotent(joined(c));
    lemma_trim_is_trimmed(joined(c));
}

/// After the type `t` and the ticket `j`, the message is exactly
/// `"<t>: [<j>]"`.
pub proof fn lemma_ticket_message(t: Seq<char>, j: Seq<char>)
    ensures
        with_ticket(typed_message(t), j) == t + ": ["@ + j + "]"@,
{
    reveal_strlit(": [");
    reveal_strlit("]");
    assert(with_ticket(typed_message(t), j) =~= t + ": ["@ + j + "]"@);
}

/// After a message of `p` characters, a header of `MAX_HEADER_LEN - p`
/// characters is accepted and one of a character more is refused.
pub proof fn lemma_header_boundary(p: nat)
    requires
        p < MAX_HEADER_LEN,
    ensures
        header_accepts(p, (MAX_HEADER_LEN - p) as nat),
        !header_accepts(p, (MAX_HEADER_LEN - p + 1) as nat),
{
}

} // verus!
