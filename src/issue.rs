use vstd::prelude::*;

use crate::text::{decimal, decimal_text};

verus! {

/// The closing verb that links a commit to an issue.
#[derive(Debug, Clone, Copy, PartialEq, Eq, Structural)]
pub enum IssueKeyword {
    Close,
    Closes,
    Closed,
    Fix,
    Fixes,
    Fixed,
    Resolve,
    Resolves,
    Resolved,
}

/// The fixed token each keyword renders to.
pub open spec fn keyword_token(k: IssueKeyword) -> Seq<char> {
    match k {
        IssueKeyword::Close => "close"@,
        IssueKeyword::Closes => "closes"@,
        IssueKeyword::Closed => "closed"@,
        IssueKeyword::Fix => "fix"@,
        IssueKeyword::Fixes => "fixes"@,
        IssueKeyword::Fixed => "fixed"@,
        IssueKeyword::Resolve => "resolve"@,
        IssueKeyword::Resolves => "Resolves"@,
        IssueKeyword::Resolved => "Resolved"@,
    }
}

impl IssueKeyword {
    /// The keyword as it appears in a commit message.
    pub fn to_string(&self) -> (r: String)
        ensures
            r@ == keyword_token(*self),
    {
        let s = match *self {
            IssueKeyword::Close => "close",
            IssueKeyword::Closes => "closes",
            IssueKeyword::Closed => "closed",
            IssueKeyword::Fix => "fix",
            IssueKeyword::Fixes => "fixes",
            IssueKeyword::Fixed => "fixed",
            IssueKeyword::Resolve => "resolve",
            IssueKeyword::Resolves => "Resolves",
            IssueKeyword::Resolved => "Resolved",
        };
        String::from_str(s)
    }
}

/// One reference to an issue, in this repository or in another one.
#[derive(Debug, Clone)]
pub enum LinkedIssue {
    SameRepo { keyword: IssueKeyword, number: usize },
    DifferentRepo { keyword: IssueKeyword, number: usize, owner: String, repo: String },
}

/// Why an issue reference could not be built.
#[derive(Debug, Clone, Copy, PartialEq, Eq, Structural)]
pub enum IssueError {
    /// An owner was given without a repository name.
    MissingRepo,
    /// A repository name was given without an owner.
    MissingOwner,
    /// A reference to several issues was asked for with none of them.
    NoIssues,
    /// A reference to a single issue was asked for with some other count.
    NotSingle,
}

/// How a linked issue appears in a message: `keyword #n` or `keyword owner/repo#n`.
pub open spec fn linked_text(li: LinkedIssue) -> Seq<char> {
    match li {
        LinkedIssue::SameRepo { keyword, number } => keyword_token(keyword) + " #"@ + decimal(
            number as nat,
        ),
        LinkedIssue::DifferentRepo { keyword, number, owner, repo } => keyword_token(keyword)
            + " "@ + owner@ + "/"@ + repo@ + "#"@ + decimal(number as nat),
    }
}

/// The outcome of building a linked issue from the answers given.
pub open spec fn linked_issue_result(
    keyword: IssueKeyword,
    owner: Seq<char>,
    repo: Seq<char>,
    number: usize,
) -> Result<(), IssueError> {
    if owner.len() == 0 && repo.len() == 0 {
        Ok(())
    } else if owner.len() == 0 {
        Err(IssueError::MissingOwner)
    } else if repo.len() == 0 {
        Err(IssueError::MissingRepo)
    } else {
        Ok(())
    }
}

impl LinkedIssue {
    /// Builds a reference from a keyword, an owner and a repository name (both
    /// empty for the current repository) and an issue number.
    pub fn new(keyword: IssueKeyword, owner: String, repo: String, number: usize) -> (r: Result<
        Self,
        IssueError,
    >)
        ensures
            owner@.len() == 0 && repo@.len() == 0 ==> r == Ok::<Self, IssueError>(
                LinkedIssue::SameRepo { keyword, number },
            ),
            owner@.len() > 0 && repo@.len() > 0 ==> (r matches Ok(
                LinkedIssue::DifferentRepo { keyword: k, number: n, owner: o, repo: p },
            ) && k == keyword && n == number && o@ == owner@ && p@ == repo@),
            owner@.len() == 0 && repo@.len() > 0 ==> r == Err::<Self, IssueError>(
                IssueError::MissingOwner,
            ),
            owner@.len() > 0 && repo@.len() == 0 ==> r == Err::<Self, IssueError>(
                IssueError::MissingRepo,
            ),
    {
        let no_owner = owner.as_str().is_empty();
        let no_repo = repo.as_str().is_empty();
        if no_owner && no_repo {
            Ok(LinkedIssue::SameRepo { keyword, number })
        } else if no_owner {
            Err(IssueError::MissingOwner)
        } else if no_repo {
            Err(IssueError::MissingRepo)
        } else {
            Ok(LinkedIssue::DifferentRepo { keyword, number, owner, repo })
        }
    }

    /// The reference as it appears in a commit message.
    pub fn to_string(&self) -> (r: String)
        ensures
            r@ == linked_text(*self),
    {
        match self {
            LinkedIssue::SameRepo { keyword, number } => {
                let mut s = keyword.to_string();
                s.append(" #");
                let d = decimal_text(*number);
                s.append(d.as_str());
                s
            },
            LinkedIssue::DifferentRepo { keyword, number, owner, repo } => {
                let mut s = keyword.to_string();
                s.append(" ");
                s.append(owner.as_str());
                s.append("/");
                s.append(repo.as_str());
                s.append("#");
                let d = decimal_text(*number);
                s.append(d.as_str());
                s
            },
        }
    }
}

/// What a commit refers to: one issue, or several.
#[derive(Debug, Clone)]
pub enum Issue {
    Single(LinkedIssue),
    Multi(Vec<LinkedIssue>),
}

/// The references of `items`, separated by `, `.
pub open spec fn joined_text(items: Seq<LinkedIssue>) -> Seq<char>
    decreases items.len(),
{
    if items.len() == 0 {
        Seq::empty()
    } else if items.len() == 1 {
        linked_text(items[0])
    } else {
        joined_text(items.drop_last()) + ", "@ + linked_text(items.last())
    }
}

/// How an issue reference appears in a message.
pub open spec fn issue_text(i: Issue) -> Seq<char> {
    match i {
        Issue::Single(li) => linked_text(li),
        Issue::Multi(items) => joined_text(items@),
    }
}

impl Issue {
    /// Builds the reference from the answer to "several issues?" and the issues given:
    /// exactly one where the answer was no, at least one where it was yes.
    pub fn new(is_multi: bool, issues: Vec<LinkedIssue>) -> (r: Result<Self, IssueError>)
        ensures
            is_multi && issues@.len() > 0 ==> r == Ok::<Self, IssueError>(Issue::Multi(issues)),
            is_multi && issues@.len() == 0 ==> r == Err::<Self, IssueError>(IssueError::NoIssues),
            !is_multi && issues@.len() == 1 ==> r == Ok::<Self, IssueError>(
                Issue::Single(issues@[0]),
            ),
            !is_multi && issues@.len() != 1 ==> r == Err::<Self, IssueError>(
                IssueError::NotSingle,
            ),
    {
        if is_multi {
            Self::multi(issues)
        } else if issues.len() == 1 {
            let mut issues = issues;
            let li = issues.pop().unwrap();
            Ok(Self::single(li))
        } else {
            Err(IssueError::NotSingle)
        }
    }

    /// A reference to one issue.
    pub fn single(li: LinkedIssue) -> (r: Self)
        ensures
            r == Issue::Single(li),
    {
        Issue::Single(li)
    }

    /// A reference to several issues, in the order given; there must be at least one.
    pub fn multi(issues: Vec<LinkedIssue>) -> (r: Result<Self, IssueError>)
        ensures
            issues@.len() > 0 ==> r == Ok::<Self, IssueError>(Issue::Multi(issues)),
            issues@.len() == 0 ==> r == Err::<Self, IssueError>(IssueError::NoIssues),
    {
        if issues.len() == 0 {
            Err(IssueError::NoIssues)
        } else {
            Ok(Issue::Multi(issues))
        }
    }

    /// The reference as it appears in a commit message.
    pub fn to_string(&self) -> (r: String)
        ensures
            r@ == issue_text(*self),
    {
        match self {
            Issue::Single(li) => li.to_string(),
            Issue::Multi(items) => {
                let mut s = String::new();
                let mut i: usize = 0;
                while i < items.len()
                    invariant
                        i <= items@.len(),
                        s@ == joined_text(items@.subrange(0, i as int)),
                    decreases items@.len() - i,
                {
                    let t = items[i].to_string();
                    if i > 0 {
                        s.append(", ");
                    }
                    s.append(t.as_str());
                    proof {
                        let p = items@.subrange(0, i as int + 1);
                        assert(p.drop_last() =~= items@.subrange(0, i as int));
                        if i == 0 {
                            assert(joined_text(items@.subrange(0, 0)) =~= Seq::<char>::empty());
                        }
                    }
                    i = i + 1;
                }
                assert(items@.subrange(0, items@.len() as int) =~= items@);
                s
            },
        }
    }
}

} // verus!
