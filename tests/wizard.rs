use frise::commit::CommitType;
use frise::error::FriseError;
use frise::wizard::{Action, Event, Prompt, Stage, Wizard, NOTHING_STAGED};
use inquire::InquireError;

fn staged() -> Event {
    Event::Staged(Ok(vec!["src/lib.rs".to_string()]))
}

fn text(s: &str) -> Event {
    Event::Answered(Ok(s.to_string()))
}

#[test]
fn nothing_staged_stops_before_any_prompt() {
    let (w, a) = Wizard::start(false, false);
    assert!(matches!(a, Action::ListStaged));
    let (w, a) = w.advance(Event::Staged(Ok(Vec::new())));
    assert!(matches!(w.stage, Stage::Done));
    match a {
        Action::Abort(FriseError::Custom(m)) => assert_eq!(m, NOTHING_STAGED),
        _ => panic!("expected an abort"),
    }
    assert!(!w.accepts(&text("x")));
}

#[test]
fn staged_listing_failure_aborts() {
    let (w, _) = Wizard::start(false, false);
    let (w, a) = w.advance(Event::Staged(Err(FriseError::Custom("not a repo".to_string()))));
    assert!(matches!(w.stage, Stage::Done));
    assert!(matches!(a, Action::Abort(FriseError::Custom(m)) if m == "not a repo"));
}

#[test]
fn skipped_ticket_fix_end_to_end() {
    let (w, _) = Wizard::start(true, false);
    let (w, a) = w.advance(staged());
    assert!(matches!(a, Action::Ask(Prompt::SelectType)));
    let (w, a) = w.advance(Event::TypeChosen(Ok(CommitType::new("fix", "A bug fix"))));
    match &a {
        Action::Ask(Prompt::Header { message, max_len }) => {
            assert_eq!(message, "fix:");
            assert_eq!(*max_len, 68);
        }
        _ => panic!("expected the header prompt"),
    }
    let (w, a) = w.advance(text("correct off-by-one in parser"));
    assert!(matches!(a, Action::Ask(Prompt::Body)));
    let (w, a) = w.advance(Event::BodyAnswered(Ok(None)));
    assert!(matches!(a, Action::Ask(Prompt::BreakingChange)));
    let (w, a) = w.advance(Event::Confirmed(Ok(false)));
    match &a {
        Action::Ask(Prompt::Confirm { preview }) => assert_eq!(preview, "fix: correct off-by-one in parser"),
        _ => panic!("expected the confirmation"),
    }
    let (w, a) = w.advance(Event::Confirmed(Ok(true)));
    assert!(matches!(w.stage, Stage::Done));
    match a {
        Action::Commit(t) => assert_eq!(t, "fix: correct off-by-one in parser"),
        _ => panic!("expected a commit"),
    }
}

#[test]
fn ticket_feat_breaking_end_to_end() {
    let expected = "feat: [DAZ-1] add retry policy\n\nAdds exponential backoff.\n\nBREAKING CHANGE: changes default timeout unit";
    let (w, _) = Wizard::start(false, true);
    let (w, _) = w.advance(staged());
    let (w, a) = w.advance(Event::TypeChosen(Ok(CommitType::new("feat", "A new feature"))));
    assert!(matches!(a, Action::LookupBranch));
    let (w, a) = w.advance(Event::Branch(Ok(vec!["DAZ-1-retries".to_string()])));
    match &a {
        Action::Ask(Prompt::Ticket { default }) => assert_eq!(default, "DAZ-1"),
        _ => panic!("expected the ticket prompt"),
    }
    let (w, a) = w.advance(text("DAZ-1"));
    match &a {
        Action::Ask(Prompt::Header { message, .. }) => assert_eq!(message, "feat: [DAZ-1]"),
        _ => panic!("expected the header prompt"),
    }
    let (w, _) = w.advance(text("add retry policy"));
    let (w, _) = w.advance(Event::BodyAnswered(Ok(Some("Adds exponential backoff.".to_string()))));
    let (w, a) = w.advance(Event::Confirmed(Ok(true)));
    assert!(matches!(a, Action::Ask(Prompt::BreakingDescription)));
    let (w, a) = w.advance(text("changes default timeout unit"));
    match &a {
        Action::Ask(Prompt::Confirm { preview }) => assert_eq!(preview, expected),
        _ => panic!("expected the confirmation"),
    }
    let (_, a) = w.advance(Event::Confirmed(Ok(false)));
    match a {
        Action::Print(t) => assert_eq!(t, expected),
        _ => panic!("expected a dry-run print"),
    }
}

#[test]
fn branch_lookup_failure_leaves_empty_default() {
    let (w, _) = Wizard::start(false, false);
    let (w, _) = w.advance(staged());
    let (w, _) = w.advance(Event::TypeChosen(Ok(CommitType::new("docs", ""))));
    let (w, a) = w.advance(Event::Branch(Err(FriseError::Custom("fatal".to_string()))));
    match &a {
        Action::Ask(Prompt::Ticket { default }) => assert_eq!(default, ""),
        _ => panic!("expected the ticket prompt"),
    }
    let (w, a) = w.advance(text(""));
    assert!(matches!(w.stage, Stage::Ticket(_)));
    assert!(matches!(a, Action::Ask(Prompt::Ticket { .. })));
    let (_, a) = w.advance(text("X-9"));
    assert!(matches!(a, Action::Ask(Prompt::Header { ref message, .. }) if message == "docs: [X-9]"));
}

#[test]
fn overlong_header_is_asked_again() {
    let (w, _) = Wizard::start(true, false);
    let (w, _) = w.advance(staged());
    let (w, _) = w.advance(Event::TypeChosen(Ok(CommitType::new("fix", ""))));
    let (w, a) = w.advance(text(&"h".repeat(69)));
    assert!(matches!(w.stage, Stage::Header));
    assert!(matches!(a, Action::Ask(Prompt::Header { .. })));
    let (w, a) = w.advance(text(&"h".repeat(68)));
    assert!(matches!(w.stage, Stage::Body));
    assert!(matches!(a, Action::Ask(Prompt::Body)));
}

#[test]
fn prompt_failure_aborts() {
    let (w, _) = Wizard::start(true, false);
    let (w, _) = w.advance(staged());
    let (w, a) = w.advance(Event::TypeChosen(Err(InquireError::OperationCanceled)));
    assert!(matches!(w.stage, Stage::Done));
    assert!(matches!(a, Action::Abort(FriseError::InquireError(InquireError::OperationCanceled))));
}

#[test]
fn empty_breaking_description_is_asked_again() {
    let (w, _) = Wizard::start(true, false);
    let (w, _) = w.advance(staged());
    let (w, _) = w.advance(Event::TypeChosen(Ok(CommitType::new("fix", ""))));
    let (w, _) = w.advance(text("x"));
    let (w, _) = w.advance(Event::BodyAnswered(Ok(Some(String::new()))));
    let (w, _) = w.advance(Event::Confirmed(Ok(true)));
    let (w, a) = w.advance(text(""));
    assert!(matches!(w.stage, Stage::Description));
    assert!(matches!(a, Action::Ask(Prompt::BreakingDescription)));
    assert!(w.accepts(&text("y")));
    assert!(!w.accepts(&Event::Confirmed(Ok(true))));
}
