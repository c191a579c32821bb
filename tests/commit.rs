use frise::commit::{
    description_is_valid, get_commit_types, header_fits, remaining_len, ticket_is_valid, CommitBuilder,
    CommitType, MAX_HEADER_LEN,
};

#[test]
fn should_format_commit_str() {
    let mut c = CommitBuilder {
        message: "feat: something new".to_string(),
        body: Some("Something new.".to_string()),
        footer: Some("BREAKING CHANGE: Something new.".to_string()),
    };

    assert_eq!(
        c.to_string(),
        r#"feat: something new

Something new.

BREAKING CHANGE: Something new."#
    );

    c = CommitBuilder {
        message: "feat: something new".to_string(),
        body: Some("Something new.".to_string()),
        footer: None,
    };

    assert_eq!(
        c.to_string(),
        r#"feat: something new

Something new."#
    );

    c = CommitBuilder {
        message: "feat: something new".to_string(),
        body: None,
        footer: None,
    };

    assert_eq!(c.to_string(), r#"feat: something new"#)
}

fn builder(body: Option<&str>, footer: Option<&str>) -> CommitBuilder {
    CommitBuilder {
        message: "fix: a".to_string(),
        body: body.map(|b| b.to_string()),
        footer: footer.map(|f| f.to_string()),
    }
}

#[test]
fn finalize_all_presence_combinations() {
    let cases = [
        (None, None, "fix: a"),
        (Some("b"), None, "fix: a\n\nb"),
        (None, Some("BREAKING CHANGE: f"), "fix: a\n\nBREAKING CHANGE: f"),
        (Some("b"), Some("BREAKING CHANGE: f"), "fix: a\n\nb\n\nBREAKING CHANGE: f"),
    ];
    for (body, footer, expected) in cases {
        let text = builder(body, footer).to_string();
        assert_eq!(text, expected);
        assert!(!text.contains("\n\n\n"));
    }
}

#[test]
fn finalize_is_idempotent() {
    let once = builder(Some("b"), Some("BREAKING CHANGE: f")).to_string();
    let again = CommitBuilder { message: once.clone(), body: None, footer: None }.to_string();
    assert_eq!(again, once);
}

#[test]
fn finalize_drops_empty_body_and_trims() {
    let c = CommitBuilder {
        message: "  fix: a".to_string(),
        body: Some(String::new()),
        footer: Some("BREAKING CHANGE: x \n".to_string()),
    };
    assert_eq!(c.to_string(), "fix: a\n\nBREAKING CHANGE: x");
}

#[test]
fn steps_build_the_message() {
    let c = CommitBuilder::new();
    assert_eq!(c.message, "");
    let c = c.prompt_type(&CommitType::new("feat", "A new feature"));
    assert_eq!(c.message, "feat:");
    let c = c.prompt_jira("DAZ-1");
    assert_eq!(c.message, "feat: [DAZ-1]");
    let c = c.prompt_header("add retry policy");
    assert_eq!(c.message, "feat: [DAZ-1] add retry policy");
    let c = c.prompt_body(Some("Adds exponential backoff.".to_string()));
    let c = c.prompt_breaking_change(Some("changes default timeout unit"));
    assert_eq!(c.footer.as_deref(), Some("BREAKING CHANGE: changes default timeout unit"));
    let c = c.prompt_breaking_change(None);
    assert_eq!(c.footer.as_deref(), Some("BREAKING CHANGE: changes default timeout unit"));
    let c = c.prompt_confirm(false);
    assert_eq!(
        c.to_string(),
        "feat: [DAZ-1] add retry policy\n\nAdds exponential backoff.\n\nBREAKING CHANGE: changes default timeout unit"
    );
}

#[test]
fn ticket_step_wraps_once() {
    for tag in ["feat", "fix", "chore"] {
        let c = CommitBuilder::new().prompt_type(&CommitType::new(tag, "")).prompt_jira("ABC-7");
        assert_eq!(c.message, format!("{tag}: [ABC-7]"));
    }
}

#[test]
fn header_length_boundary() {
    let prefix = "feat: [DAZ-1]";
    let p = prefix.chars().count();
    let fits = "x".repeat(MAX_HEADER_LEN - p);
    let too_long = "x".repeat(MAX_HEADER_LEN - p + 1);
    assert!(header_fits(prefix, &fits));
    assert!(!header_fits(prefix, &too_long));
    assert!(!header_fits(prefix, ""));
    assert_eq!(remaining_len(prefix), 59);
    assert_eq!(remaining_len(&"y".repeat(80)), 0);
    assert!(!header_fits(&"y".repeat(72), "z"));
    assert!(header_fits("", &"é".repeat(72)));
}

#[test]
fn answers_must_not_be_empty() {
    assert!(!ticket_is_valid(""));
    assert!(ticket_is_valid("A-1"));
    assert!(!description_is_valid(""));
    assert!(description_is_valid("d"));
}

#[test]
fn catalogue_order() {
    let tags: Vec<&str> = get_commit_types().iter().map(|t| t._type).collect();
    assert_eq!(tags, ["feat", "fix", "docs", "style", "refactor", "revert", "perf", "test", "chore"]);
    assert_eq!(get_commit_types()[1].description, "A bug fix");
}
