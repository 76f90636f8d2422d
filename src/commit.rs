use vstd::prelude::*;

verus! {

/// The longest short description, in characters.
pub const MAX_SHORT_DESC: usize = 50;

/// The category of a change.
#[derive(Debug, Clone, Copy, PartialEq, Eq, Structural)]
pub enum CommitType {
    Feature,
    Fix,
    Docs,
    Style,
    Refactor,
    Perf,
    Test,
    Chore,
}

/// The label of each commit type, as offered for selection.
pub open spec fn type_description(t: CommitType) -> Seq<char> {
    match t {
        CommitType::Feature => "feat: A new feature"@,
        CommitType::Fix => "fix: A bug fix"@,
        CommitType::Docs => "docs: Documentation only changes"@,
        CommitType::Style => "style: Changes that do not affect the meaning of the code"@,
        CommitType::Refactor => "refactor: A code change that neither fixes a bug nor adds a feature"@,
        CommitType::Perf => "perf: A code change that improves performance"@,
        CommitType::Test => "test: Adding missing or correcting existing tests"@,
        CommitType::Chore => "chore: Changes that don't modify src files"@,
    }
}

/// The prefix that a commit type puts at the start of a message.
pub open spec fn type_token(t: CommitType) -> Seq<char> {
    match t {
        CommitType::Feature => "feat"@,
        CommitType::Fix => "fix"@,
        CommitType::Docs => "docs"@,
        CommitType::Style => "style"@,
        CommitType::Refactor => "refactor"@,
        CommitType::Perf => "perf"@,
        CommitType::Test => "test"@,
        CommitType::Chore => "chore"@,
    }
}

/// `p` is the text of `s` before its first `:`, and `s` has a `:`.
pub open spec fn is_text_before_first_colon(s: Seq<char>, p: Seq<char>) -> bool {
    &&& p.len() < s.len()
    &&& s[p.len() as int] == ':'
    &&& s.subrange(0, p.len() as int) == p
    &&& forall|i: int| 0 <= i < p.len() ==> s[i] != ':'
}

/// The token of every commit type is the text of its label before the first `:`.
pub proof fn lemma_token_is_label_prefix(t: CommitType)
    ensures
        is_text_before_first_colon(type_description(t), type_token(t)),
{
    match t {
        CommitType::Feature => {
            reveal_strlit("feat: A new feature");
            reveal_strlit("feat");
            assert(type_description(t).subrange(0, 4) =~= type_token(t));
        },
        CommitType::Fix => {
            reveal_strlit("fix: A bug fix");
            reveal_strlit("fix");
            assert(type_description(t).subrange(0, 3) =~= type_token(t));
        },
        CommitType::Docs => {
            reveal_strlit("docs: Documentation only changes");
            reveal_strlit("docs");
            assert(type_description(t).subrange(0, 4) =~= type_token(t));
        },
        CommitType::Style => {
            reveal_strlit("style: Changes that do not affect the meaning of the code");
            reveal_strlit("style");
            assert(type_description(t).subrange(0, 5) =~= type_token(t));
        },
        CommitType::Refactor => {
            reveal_strlit("refactor: A code change that neither fixes a bug nor adds a feature");
            reveal_strlit("refactor");
            assert(type_description(t).subrange(0, 8) =~= type_token(t));
        },
        CommitType::Perf => {
            reveal_strlit("perf: A code change that improves performance");
            reveal_strlit("perf");
            assert(type_description(t).subrange(0, 4) =~= type_token(t));
        },
        CommitType::Test => {
            reveal_strlit("test: Adding missing or correcting existing tests");
            reveal_strlit("test");
            assert(type_description(t).subrange(0, 4) =~= type_token(t));
        },
        CommitType::Chore => {
            reveal_strlit("chore: Changes that don't modify src files");
            reveal_strlit("chore");
            assert(type_description(t).subrange(0, 5) =~= type_token(t));
        },
    }
}

impl CommitType {
    /// The label of this commit type.
    pub fn description(&self) -> (r: &'static str)
        ensures
            r@ == type_description(*self),
    {
        match *self {
            CommitType::Feature => "feat: A new feature",
            CommitType::Fix => "fix: A bug fix",
            CommitType::Docs => "docs: Documentation only changes",
            CommitType::Style => "style: Changes that do not affect the meaning of the code",
            CommitType::Refactor => "refactor: A code change that neither fixes a bug nor adds a feature",
            CommitType::Perf => "perf: A code change that improves performance",
            CommitType::Test => "test: Adding missing or correcting existing tests",
            CommitType::Chore => "chore: Changes that don't modify src files",
        }
    }

    /// The label of this commit type, as an owned string.
    pub fn to_string(&self) -> (r: String)
        ensures
            r@ == type_description(*self),
    {
        String::from_str(self.description())
    }

    /// The token of this commit type: its label up to the first `:`.
    pub fn token(&self) -> (r: String)
        ensures
            r@ == type_token(*self),
            is_text_before_first_colon(type_description(*self), r@),
    {
        let d = self.description();
        let n = d.unicode_len();
        proof {
            lemma_token_is_label_prefix(*self);
        }
        let ghost k = type_token(*self).len();
        let mut i: usize = 0;
        while i < n && d.get_char(i) != ':'
            invariant
                n == d@.len(),
                d@ == type_description(*self),
                is_text_before_first_colon(d@, type_token(*self)),
                k == type_token(*self).len(),
                i <= k,
            decreases n - i,
        {
            i = i + 1;
        }
        String::from_str(d.substring_char(0, i))
    }
}

/// Why a short description was refused.
pub open spec fn too_long_message() -> Seq<char> {
    "This message is too long"@
}

/// Accepts a short description of at most `MAX_SHORT_DESC` characters.
pub fn validate_short_desc(s: &str) -> (r: Result<(), &'static str>)
    ensures
        r is Ok <==> s@.len() <= MAX_SHORT_DESC,
        r matches Err(m) ==> m@ == too_long_message(),
{
    if s.unicode_len() <= MAX_SHORT_DESC {
        Ok(())
    } else {
        Err("This message is too long")
    }
}

/// The closing block of a message: empty, or the breaking-change note.
pub open spec fn breaking_block(breaking: Option<Seq<char>>) -> Seq<char> {
    match breaking {
        Some(b) => "BREAKING CHANGE: "@ + b,
        None => Seq::empty(),
    }
}

/// A commit message: `type(scope): short`, a blank line, the long description,
/// a blank line, the issue line, then the breaking-change block.
pub open spec fn message_text(
    t: CommitType,
    scope: Seq<char>,
    short_desc: Seq<char>,
    long_desc: Seq<char>,
    issue: Seq<char>,
    breaking: Option<Seq<char>>,
) -> Seq<char> {
    type_token(t) + "("@ + scope + "): "@ + short_desc + "\n\n"@ + long_desc + "\n\n"@ + issue
        + "\n"@ + breaking_block(breaking)
}

/// Assembles a commit message from its parts.
pub fn compose_message(
    t: CommitType,
    scope: &str,
    short_desc: &str,
    long_desc: &str,
    issue: &str,
    breaking: Option<&str>,
) -> (r: String)
    ensures
        r@ == message_text(
            t,
            scope@,
            short_desc@,
            long_desc@,
            issue@,
            match breaking {
                Some(b) => Some(b@),
                None => None,
            },
        ),
{
    let mut m = t.token();
    m.append("(");
    m.append(scope);
    m.append("): ");
    m.append(short_desc);
    m.append("\n\n");
    m.append(long_desc);
    m.append("\n\n");
    m.append(issue);
    m.append("\n");
    match breaking {
        Some(b) => {
            m.append("BREAKING CHANGE: ");
            m.append(b);
        },
        None => {},
    }
    m
}

} // verus!
