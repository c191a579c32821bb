//! The order of the wizard's steps: from each stage and the outcome of the
//! last action, the next stage and the next action. The caller performs the
//! actions (runs `git`, shows prompts) and hands their outcomes back.
use vstd::prelude::*;
use crate::commit::{
    description_is_valid, finalized, header_fits, header_accepts, remaining_len, remaining_of,
    ticket_is_valid, typed_message, with_header, with_ticket, breaking_footer, CommitBuilder,
    CommitType,
};
use crate::error::{FriseError, FriseResult};
use crate::ticket::{first_line, ticket_default, ticket_default_of};

verus! {

/// The error when nothing is staged.
pub const NOTHING_STAGED: &'static str = "No files added to staging! Did you forget to run git add?";

/// A question put to the user.
pub enum Prompt {
    /// Pick one entry of `get_commit_types()`.
    SelectType,
    /// Enter a ticket reference, `default` offered.
    Ticket { default: String },
    /// Enter the header, shown after `message`, at most `max_len` characters.
    Header { message: String, max_len: usize },
    /// Enter a body, or skip.
    Body,
    /// Is there a breaking change? Default no.
    BreakingChange,
    /// Describe the breaking change.
    BreakingDescription,
    /// Commit this text? Default yes.
    Confirm { preview: String },
}

/// What the caller is to do next.
pub enum Action {
    /// List the staged files (`staged_files_command`), then hand back `Event::Staged`.
    ListStaged,
    /// Look up the current branch (`branch_command`), then hand back `Event::Branch`.
    LookupBranch,
    /// Ask the user, then hand back the answer.
    Ask(Prompt),
    /// Print this text instead of committing.
    Print(String),
    /// Commit with exactly this text (`commit_command`).
    Commit(String),
    /// Stop with this error.
    Abort(FriseError),
}

/// The outcome of an action.
pub enum Event {
    Staged(FriseResult<Vec<String>>),
    Branch(FriseResult<Vec<String>>),
    TypeChosen(Result<CommitType, inquire::InquireError>),
    Answered(Result<String, inquire::InquireError>),
    BodyAnswered(Result<Option<String>, inquire::InquireError>),
    Confirmed(Result<bool, inquire::InquireError>),
}

/// The outcome the wizard waits for.
pub enum Stage {
    Staged,
    Type,
    Branch,
    Ticket(String),
    Header,
    Body,
    Breaking,
    Description,
    Confirm,
    Done,
}

/// The wizard: where it stands, the fragments so far, and its settings.
pub struct Wizard {
    pub stage: Stage,
    pub commit: CommitBuilder,
    /// The ticket step is left out.
    pub skip_jira: bool,
    /// The text is printed, not committed.
    pub dry_run: bool,
}

/// `a` asks for the header after the message `m`.
pub open spec fn asks_header(a: Action, m: Seq<char>) -> bool {
    match a {
        Action::Ask(Prompt::Header { message, max_len }) => message@ == m && max_len == remaining_of(m),
        _ => false,
    }
}

/// `a` asks for a ticket, offering `d`.
pub open spec fn asks_ticket(a: Action, d: Seq<char>) -> bool {
    match a {
        Action::Ask(Prompt::Ticket { default }) => default@ == d,
        _ => false,
    }
}

/// `a` asks to confirm the final text of `c`.
pub open spec fn asks_confirm(a: Action, c: CommitBuilder) -> bool {
    match a {
        Action::Ask(Prompt::Confirm { preview }) => preview@ == finalized(c),
        _ => false,
    }
}

/// `a` prints (dry run) or commits the final text of `c`.
pub open spec fn delivers(a: Action, c: CommitBuilder, dry_run: bool) -> bool {
    match a {
        Action::Print(t) => dry_run && t@ == finalized(c),
        Action::Commit(t) => !dry_run && t@ == finalized(c),
        _ => false,
    }
}

/// `a` stops because nothing is staged.
pub open spec fn aborts_nothing_staged(a: Action) -> bool {
    match a {
        Action::Abort(FriseError::Custom(m)) => m@ == NOTHING_STAGED@,
        _ => false,
    }
}

/// `a` stops on the prompt failure `e`.
pub open spec fn aborts_on(a: Action, e: inquire::InquireError) -> bool {
    a == Action::Abort(FriseError::InquireError(e))
}

fn ask_header(message: &String) -> (r: Action)
    ensures
        asks_header(r, message@),
{
    Action::Ask(Prompt::Header { message: message.clone(), max_len: remaining_len(message.as_str()) })
}

fn ask_confirm(commit: &CommitBuilder) -> (r: Action)
    ensures
        asks_confirm(r, *commit),
{
    Action::Ask(Prompt::Confirm { preview: commit.to_string() })
}

fn deliver(commit: &CommitBuilder, dry_run: bool) -> (r: Action)
    ensures
        delivers(r, *commit, dry_run),
{
    if dry_run {
        Action::Print(commit.to_string())
    } else {
        Action::Commit(commit.to_string())
    }
}

fn abort_on(e: inquire::InquireError) -> (r: Action)
    ensures
        aborts_on(r, e),
{
    Action::Abort(FriseError::from_inquire(e))
}

impl Wizard {
    /// Once the type is chosen the message is never empty.
    pub open spec fn wf(&self) -> bool {
        match self.stage {
            Stage::Staged | Stage::Type | Stage::Done => true,
            _ => self.commit.message@.len() > 0,
        }
    }

    /// Whether `e` is the outcome the wizard waits for.
    pub open spec fn expects(&self, e: Event) -> bool {
        match self.stage {
            Stage::Staged => e is Staged,
            Stage::Type => e is TypeChosen,
            Stage::Branch => e is Branch,
            Stage::Ticket(_) => e is Answered,
            Stage::Header => e is Answered,
            Stage::Body => e is BodyAnswered,
            Stage::Breaking => e is Confirmed,
            Stage::Description => e is Answered,
            Stage::Confirm => e is Confirmed,
            Stage::Done => false,
        }
    }

    /// Whether `e` is the outcome the wizard waits for.
    pub fn accepts(&self, e: &Event) -> (r: bool)
        ensures
            r == self.expects(*e),
    {
        match self.stage {
            Stage::Staged => matches!(e, Event::Staged(_)),
            Stage::Type => matches!(e, Event::TypeChosen(_)),
            Stage::Branch => matches!(e, Event::Branch(_)),
            Stage::Ticket(_) => matches!(e, Event::Answered(_)),
            Stage::Header => matches!(e, Event::Answered(_)),
            Stage::Body => matches!(e, Event::BodyAnswered(_)),
            Stage::Breaking => matches!(e, Event::Confirmed(_)),
            Stage::Description => matches!(e, Event::Answered(_)),
            Stage::Confirm => matches!(e, Event::Confirmed(_)),
            Stage::Done => false,
        }
    }

    /// A new wizard, with no fragment set; its first action lists the staged
    /// files, before any prompt.
    pub fn start(skip_jira: bool, dry_run: bool) -> (r: (Wizard, Action))
        ensures
            r.0.stage is Staged,
            r.0.commit.message@.len() == 0,
            r.0.commit.body is None,
            r.0.commit.footer is None,
            r.0.skip_jira == skip_jira,
            r.0.dry_run == dry_run,
            r.1 is ListStaged,
            r.0.wf(),
    {
        (Wizard { stage: Stage::Staged, commit: CommitBuilder::new(), skip_jira, dry_run }, Action::ListStaged)
    }

    /// Takes the outcome `event` of the last action: the next stage and the
    /// next action. A failed prompt stops the wizard; a failed branch lookup
    /// only leaves the ticket without a default; an answer that a step's
    /// rule refuses is asked for again.
    pub fn advance(self, event: Event) -> (r: (Wizard, Action))
        requires
            self.expects(event),
        ensures
            r.0.skip_jira == self.skip_jira,
            r.0.dry_run == self.dry_run,
            self.wf() ==> r.0.wf(),
            // the staged listing
            event matches Event::Staged(Err(e)) ==> r.0.stage is Done && r.1 == Action::Abort(e),
            event matches Event::Staged(Ok(v)) ==> r.0.commit == self.commit && if v@.len() == 0 {
                r.0.stage is Done && aborts_nothing_staged(r.1)
            } else {
                r.0.stage is Type && r.1 == Action::Ask(Prompt::SelectType)
            },
            // the type
            event matches Event::TypeChosen(Err(e)) ==> r.0.stage is Done && aborts_on(r.1, e),
            event matches Event::TypeChosen(Ok(t)) ==> r.0.commit.message@ == typed_message(t._type@)
                && r.0.commit.body == self.commit.body && r.0.commit.footer == self.commit.footer
                && if self.skip_jira {
                r.0.stage is Header && asks_header(r.1, r.0.commit.message@)
            } else {
                r.0.stage is Branch && r.1 is LookupBranch
            },
            // the branch lookup
            event matches Event::Branch(b) ==> r.0.commit == self.commit && r.0.stage is Ticket
                && asks_ticket(r.1, r.0.stage->Ticket_0@) && (b is Err ==> r.0.stage->Ticket_0@.len() == 0)
                && (b is Ok ==> r.0.stage->Ticket_0@ == ticket_default_of(first_line(b->Ok_0@))),
            // the ticket
            self.stage is Ticket ==> (event matches Event::Answered(Err(e)) ==> r.0.stage is Done
                && aborts_on(r.1, e)),
            self.stage is Ticket ==> (event matches Event::Answered(Ok(j)) ==> if j@.len() >= 1 {
                r.0.commit.message@ == with_ticket(self.commit.message@, j@)
                    && r.0.commit.body == self.commit.body && r.0.commit.footer == self.commit.footer
                    && r.0.stage is Header && asks_header(r.1, r.0.commit.message@)
            } else {
                r.0.commit == self.commit && r.0.stage == self.stage
                    && asks_ticket(r.1, self.stage->Ticket_0@)
            }),
            // the header
            self.stage is Header ==> (event matches Event::Answered(Err(e)) ==> r.0.stage is Done
                && aborts_on(r.1, e)),
            self.stage is Header ==> (event matches Event::Answered(Ok(h)) ==> if header_accepts(
                self.commit.message@.len(),
                h@.len(),
            ) {
                r.0.commit.message@ == with_header(self.commit.message@, h@)
                    && r.0.commit.body == self.commit.body && r.0.commit.footer == self.commit.footer
                    && r.0.stage is Body && r.1 == Action::Ask(Prompt::Body)
            } else {
                r.0.commit == self.commit && r.0.stage is Header && asks_header(r.1, self.commit.message@)
            }),
            // the body
            event matches Event::BodyAnswered(Err(e)) ==> r.0.stage is Done && aborts_on(r.1, e),
            event matches Event::BodyAnswered(Ok(b)) ==> r.0.commit.message == self.commit.message
                && r.0.commit.body == b && r.0.commit.footer == self.commit.footer
                && r.0.stage is Breaking && r.1 == Action::Ask(Prompt::BreakingChange),
            // whether there is a breaking change
            self.stage is Breaking ==> (event matches Event::Confirmed(Err(e)) ==> r.0.stage is Done
                && aborts_on(r.1, e)),
            self.stage is Breaking ==> (event matches Event::Confirmed(Ok(yes)) ==> r.0.commit == self.commit
                && if yes {
                r.0.stage is Description && r.1 == Action::Ask(Prompt::BreakingDescription)
            } else {
                r.0.stage is Confirm && asks_confirm(r.1, r.0.commit)
            }),
            // its description
            self.stage is Description ==> (event matches Event::Answered(Err(e)) ==> r.0.stage is Done
                && aborts_on(r.1, e)),
            self.stage is Description ==> (event matches Event::Answered(Ok(d)) ==> if d@.len() >= 1 {
                r.0.commit.message == self.commit.message && r.0.commit.body == self.commit.body
                    && r.0.commit.footer is Some && r.0.commit.footer->Some_0@ == breaking_footer(d@)
                    && r.0.stage is Confirm && asks_confirm(r.1, r.0.commit)
            } else {
                r.0.commit == self.commit && r.0.stage is Description
                    && r.1 == Action::Ask(Prompt::BreakingDescription)
            }),
            // the final confirmation, whose answer does not abort
            self.stage is Confirm ==> (event matches Event::Confirmed(Err(e)) ==> r.0.stage is Done
                && aborts_on(r.1, e)),
            self.stage is Confirm ==> (event matches Event::Confirmed(Ok(_)) ==> r.0.stage is Done
                && r.0.commit == self.commit && delivers(r.1, self.commit, self.dry_run)),
    {
        let Wizard { stage, commit, skip_jira, dry_run } = self;
        match event {
            Event::Staged(Err(e)) => (Wizard { stage: Stage::Done, commit, skip_jira, dry_run }, Action::Abort(e)),
            Event::Staged(Ok(v)) => {
                if crate::git::is_clean(&v) {
                    let m = String::from_str(NOTHING_STAGED);
                    (Wizard { stage: Stage::Done, commit, skip_jira, dry_run }, Action::Abort(FriseError::Custom(m)))
                } else {
                    (Wizard { stage: Stage::Type, commit, skip_jira, dry_run }, Action::Ask(Prompt::SelectType))
                }
            },
            Event::TypeChosen(Err(e)) => (Wizard { stage: Stage::Done, commit, skip_jira, dry_run }, abort_on(e)),
            Event::TypeChosen(Ok(t)) => {
                let commit = commit.prompt_type(&t);
                if skip_jira {
                    let a = ask_header(&commit.message);
                    (Wizard { stage: Stage::Header, commit, skip_jira, dry_run }, a)
                } else {
                    (Wizard { stage: Stage::Branch, commit, skip_jira, dry_run }, Action::LookupBranch)
                }
            },
            Event::Branch(b) => {
                let default = ticket_default(&b);
                let a = Action::Ask(Prompt::Ticket { default: default.clone() });
                (Wizard { stage: Stage::Ticket(default), commit, skip_jira, dry_run }, a)
            },
            Event::BodyAnswered(Err(e)) => (Wizard { stage: Stage::Done, commit, skip_jira, dry_run }, abort_on(e)),
            Event::BodyAnswered(Ok(b)) => {
                let commit = commit.prompt_body(b);
                (Wizard { stage: Stage::Breaking, commit, skip_jira, dry_run }, Action::Ask(Prompt::BreakingChange))
            },
            Event::Answered(Err(e)) => (Wizard { stage: Stage::Done, commit, skip_jira, dry_run }, abort_on(e)),
            Event::Answered(Ok(text)) => match stage {
                Stage::Ticket(default) => {
                    if ticket_is_valid(text.as_str()) {
                        let commit = commit.prompt_jira(text.as_str());
                        let a = ask_header(&commit.message);
                        (Wizard { stage: Stage::Header, commit, skip_jira, dry_run }, a)
                    } else {
                        let a = Action::Ask(Prompt::Ticket { default: default.clone() });
                        (Wizard { stage: Stage::Ticket(default), commit, skip_jira, dry_run }, a)
                    }
                },
                Stage::Header => {
                    if header_fits(commit.message.as_str(), text.as_str()) {
                        let commit = commit.prompt_header(text.as_str());
                        (Wizard { stage: Stage::Body, commit, skip_jira, dry_run }, Action::Ask(Prompt::Body))
                    } else {
                        let a = ask_header(&commit.message);
                        (Wizard { stage: Stage::Header, commit, skip_jira, dry_run }, a)
                    }
                },
                _ => {
                    if description_is_valid(text.as_str()) {
                        let commit = commit.prompt_breaking_change(Some(text.as_str()));
                        let a = ask_confirm(&commit);
                        (Wizard { stage: Stage::Confirm, commit, skip_jira, dry_run }, a)
                    } else {
                        (Wizard { stage: Stage::Description, commit, skip_jira, dry_run }, Action::Ask(Prompt::BreakingDescription))
                    }
                },
            },
            Event::Confirmed(Err(e)) => (Wizard { stage: Stage::Done, commit, skip_jira, dry_run }, abort_on(e)),
            Event::Confirmed(Ok(yes)) => match stage {
                Stage::Breaking => {
                    if yes {
                        (Wizard { stage: Stage::Description, commit, skip_jira, dry_run }, Action::Ask(Prompt::BreakingDescription))
                    } else {
                        let a = ask_confirm(&commit);
                        (Wizard { stage: Stage::Confirm, commit, skip_jira, dry_run }, a)
                    }
                },
                _ => {
                    let commit = commit.prompt_confirm(yes);
                    let a = deliver(&commit, dry_run);
                    (Wizard { stage: Stage::Done, commit, skip_jira, dry_run }, a)
                },
            },
        }
    }
}

/// A finished wizard waits for nothing: after it stops, be it because
/// nothing is staged, on a failure or with the final text, no further
/// outcome is taken and so no further prompt is asked.
pub proof fn lemma_done_is_final(w: Wizard, e: Event)
    requires
        w.stage is Done,
    ensures
        !w.expects(e),
{
}

} // verus!
