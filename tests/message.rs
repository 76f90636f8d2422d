use commit_composer::commit::{compose_message, validate_short_desc, CommitType, MAX_SHORT_DESC};

const ALL_TYPES: [CommitType; 8] = [
    CommitType::Feature,
    CommitType::Fix,
    CommitType::Docs,
    CommitType::Style,
    CommitType::Refactor,
    CommitType::Perf,
    CommitType::Test,
    CommitType::Chore,
];

#[test]
fn token_is_label_before_first_colon() {
    for t in ALL_TYPES {
        let label = t.to_string();
        let before = label.split(':').next().unwrap();
        assert_eq!(t.token(), before);
        assert!(t.token().len() < label.len());
    }
}

#[test]
fn tokens_are_exact() {
    let tokens: Vec<String> = ALL_TYPES.iter().map(|t| t.token()).collect();
    assert_eq!(
        tokens,
        vec!["feat", "fix", "docs", "style", "refactor", "perf", "test", "chore"]
    );
    assert_eq!(CommitType::Fix.description(), "fix: A bug fix");
}

#[test]
fn short_desc_up_to_limit_is_accepted() {
    assert_eq!(MAX_SHORT_DESC, 50);
    assert!(validate_short_desc("").is_ok());
    assert!(validate_short_desc(&"a".repeat(50)).is_ok());
    assert!(validate_short_desc(&"é".repeat(50)).is_ok());
}

#[test]
fn short_desc_over_limit_is_refused() {
    assert_eq!(validate_short_desc(&"a".repeat(51)), Err("This message is too long"));
    assert_eq!(validate_short_desc(&"a".repeat(200)), Err("This message is too long"));
}

#[test]
fn message_without_optional_parts() {
    let m = compose_message(CommitType::Feature, "api", "add endpoint", "", "", None);
    assert_eq!(m, "feat(api): add endpoint\n\n\n\n\n");
}

#[test]
fn message_with_breaking_change() {
    let m = compose_message(
        CommitType::Feature,
        "api",
        "add endpoint",
        "",
        "",
        Some("removes v1 field"),
    );
    assert_eq!(m, "feat(api): add endpoint\n\n\n\n\nBREAKING CHANGE: removes v1 field");
    assert!(m.ends_with("\nBREAKING CHANGE: removes v1 field"));
}

#[test]
fn message_with_every_part() {
    let m = compose_message(
        CommitType::Refactor,
        "core",
        "split parser",
        "Moves the lexer out.",
        "fixes #42",
        Some("drops old API"),
    );
    assert_eq!(
        m,
        "refactor(core): split parser\n\nMoves the lexer out.\n\nfixes #42\nBREAKING CHANGE: drops old API"
    );
}
