use commit_composer::issue::{Issue, IssueError, IssueKeyword, LinkedIssue};

#[test]
fn keyword_tokens_are_fixed() {
    let cases = [
        (IssueKeyword::Close, "close"),
        (IssueKeyword::Closes, "closes"),
        (IssueKeyword::Closed, "closed"),
        (IssueKeyword::Fix, "fix"),
        (IssueKeyword::Fixes, "fixes"),
        (IssueKeyword::Fixed, "fixed"),
        (IssueKeyword::Resolve, "resolve"),
        (IssueKeyword::Resolves, "Resolves"),
        (IssueKeyword::Resolved, "Resolved"),
    ];
    for (k, token) in cases {
        assert_eq!(k.to_string(), token);
        assert_eq!(k.to_string(), k.to_string());
    }
}

#[test]
fn same_repo_renders_keyword_and_number() {
    let li = LinkedIssue::new(IssueKeyword::Fixes, String::new(), String::new(), 42).unwrap();
    assert!(matches!(li, LinkedIssue::SameRepo { keyword: IssueKeyword::Fixes, number: 42 }));
    assert_eq!(li.to_string(), "fixes #42");
}

#[test]
fn different_repo_renders_owner_and_repo() {
    let li = LinkedIssue::new(
        IssueKeyword::Close,
        "acme".to_string(),
        "widgets".to_string(),
        7,
    )
    .unwrap();
    assert_eq!(li.to_string(), "close acme/widgets#7");
}

#[test]
fn number_renders_in_decimal() {
    let zero = LinkedIssue::new(IssueKeyword::Fix, String::new(), String::new(), 0).unwrap();
    assert_eq!(zero.to_string(), "fix #0");
    let big = LinkedIssue::new(IssueKeyword::Resolved, String::new(), String::new(), 1209).unwrap();
    assert_eq!(big.to_string(), "Resolved #1209");
    let max = LinkedIssue::new(IssueKeyword::Closed, String::new(), String::new(), usize::MAX)
        .unwrap();
    assert_eq!(max.to_string(), format!("closed #{}", usize::MAX));
}

#[test]
fn owner_without_repo_is_refused() {
    let r = LinkedIssue::new(IssueKeyword::Fix, "acme".to_string(), String::new(), 3);
    assert!(matches!(r, Err(IssueError::MissingRepo)));
}

#[test]
fn repo_without_owner_is_refused() {
    let r = LinkedIssue::new(IssueKeyword::Fix, String::new(), "widgets".to_string(), 3);
    assert!(matches!(r, Err(IssueError::MissingOwner)));
}

#[test]
fn single_issue_renders_its_link() {
    let li = LinkedIssue::new(IssueKeyword::Closes, String::new(), String::new(), 5).unwrap();
    let issue = Issue::new(false, vec![li]).unwrap();
    assert!(matches!(issue, Issue::Single(_)));
    assert_eq!(issue.to_string(), "closes #5");
}

#[test]
fn several_issues_are_joined_in_order() {
    let a = LinkedIssue::new(IssueKeyword::Fixes, String::new(), String::new(), 1).unwrap();
    let b = LinkedIssue::new(IssueKeyword::Close, "acme".to_string(), "widgets".to_string(), 2)
        .unwrap();
    let issue = Issue::new(true, vec![a, b]).unwrap();
    assert_eq!(issue.to_string(), "fixes #1, close acme/widgets#2");
}

#[test]
fn several_issues_need_at_least_one() {
    assert!(matches!(Issue::new(true, Vec::new()), Err(IssueError::NoIssues)));
    assert!(matches!(Issue::multi(Vec::new()), Err(IssueError::NoIssues)));
}

#[test]
fn single_issue_needs_exactly_one() {
    let a = LinkedIssue::new(IssueKeyword::Fix, String::new(), String::new(), 1).unwrap();
    let b = LinkedIssue::new(IssueKeyword::Fix, String::new(), String::new(), 2).unwrap();
    assert!(matches!(Issue::new(false, vec![a, b]), Err(IssueError::NotSingle)));
    assert!(matches!(Issue::new(false, Vec::new()), Err(IssueError::NotSingle)));
}
