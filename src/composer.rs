use vstd::prelude::*;

use crate::commit::{compose_message, message_text, CommitType, MAX_SHORT_DESC};
use crate::issue::{issue_text, Issue};

verus! {

/// Where the composer stands: what it waits for next.
#[derive(Debug, Clone, Copy, PartialEq, Eq, Structural)]
pub enum Stage {
    /// Waits to learn whether anything is staged.
    CheckStaged,
    /// Waits for the commit type.
    SelectType,
    /// Waits for the scope.
    CaptureScope,
    /// Waits for the short description.
    CaptureShortDesc,
    /// Waits for the long description, which may be empty.
    CaptureLongDesc,
    /// Waits to learn whether the change breaks anything.
    AskBreaking,
    /// Waits for the text of the breaking change.
    EditBreaking,
    /// Waits to learn whether the change affects an issue.
    AskIssue,
    /// Waits for the issue reference.
    CaptureIssue,
    /// The message is complete; waits for the commit to be created.
    CreateCommit,
    /// The commit was created.
    Done,
    /// Nothing was staged: finished, with nothing to commit.
    NothingStaged,
}

/// What the outside world reports to the composer.
#[derive(Debug, Clone)]
pub enum Event {
    /// Whether the index holds staged changes.
    Staged(bool),
    /// The chosen commit type.
    TypeChosen(CommitType),
    /// A line of text typed in.
    Text(String),
    /// A yes or no answer.
    Confirmed(bool),
    /// What the editor session returned; `None` where nothing was saved.
    Edited(Option<String>),
    /// The issue reference that was built.
    IssueBuilt(Issue),
    /// The commit was created.
    Committed,
}

/// Why the composer refused an event.
#[derive(Debug, Clone, Copy, PartialEq, Eq, Structural)]
pub enum ComposeError {
    /// The event does not answer what the composer waits for.
    UnexpectedEvent,
    /// The short description is longer than allowed.
    DescriptionTooLong,
    /// The editor returned without any text.
    NoEditorInput,
}

/// The answers gathered so far, and the stage reached.
#[derive(Debug, Clone)]
pub struct Composer {
    pub stage: Stage,
    pub commit_type: CommitType,
    pub scope: String,
    pub short_desc: String,
    pub long_desc: String,
    pub breaking: Option<String>,
    pub issue: Option<Issue>,
}

/// The composer after one event, or the reason the event is refused.
pub open spec fn step(c: Composer, e: Event) -> Result<Composer, ComposeError> {
    match (c.stage, e) {
        (Stage::CheckStaged, Event::Staged(b)) => Ok(
            Composer {
                stage: if b {
                    Stage::SelectType
                } else {
                    Stage::NothingStaged
                },
                ..c
            },
        ),
        (Stage::SelectType, Event::TypeChosen(t)) => Ok(
            Composer { stage: Stage::CaptureScope, commit_type: t, ..c },
        ),
        (Stage::CaptureScope, Event::Text(s)) => Ok(
            Composer { stage: Stage::CaptureShortDesc, scope: s, ..c },
        ),
        (Stage::CaptureShortDesc, Event::Text(s)) => if s@.len() <= MAX_SHORT_DESC {
            Ok(Composer { stage: Stage::CaptureLongDesc, short_desc: s, ..c })
        } else {
            Err(ComposeError::DescriptionTooLong)
        },
        (Stage::CaptureLongDesc, Event::Text(s)) => Ok(
            Composer { stage: Stage::AskBreaking, long_desc: s, ..c },
        ),
        (Stage::AskBreaking, Event::Confirmed(b)) => if b {
            Ok(Composer { stage: Stage::EditBreaking, ..c })
        } else {
            Ok(Composer { stage: Stage::AskIssue, breaking: None, ..c })
        },
        (Stage::EditBreaking, Event::Edited(t)) => match t {
            Some(text) => Ok(Composer { stage: Stage::AskIssue, breaking: Some(text), ..c }),
            None => Err(ComposeError::NoEditorInput),
        },
        (Stage::AskIssue, Event::Confirmed(b)) => if b {
            Ok(Composer { stage: Stage::CaptureIssue, ..c })
        } else {
            Ok(Composer { stage: Stage::CreateCommit, issue: None, ..c })
        },
        (Stage::CaptureIssue, Event::IssueBuilt(i)) => Ok(
            Composer { stage: Stage::CreateCommit, issue: Some(i), ..c },
        ),
        (Stage::CreateCommit, Event::Committed) => Ok(Composer { stage: Stage::Done, ..c }),
        _ => Err(ComposeError::UnexpectedEvent),
    }
}

/// The composer after a sequence of events; a refused event leaves it as it was.
pub open spec fn run(c: Composer, events: Seq<Event>) -> Composer
    decreases events.len(),
{
    if events.len() == 0 {
        c
    } else {
        let next = match step(c, events[0]) {
            Ok(n) => n,
            Err(_) => c,
        };
        run(next, events.drop_first())
    }
}

/// The message that the answers gathered so far make.
pub open spec fn composed_text(c: Composer) -> Seq<char> {
    message_text(
        c.commit_type,
        c.scope@,
        c.short_desc@,
        c.long_desc@,
        match c.issue {
            Some(i) => issue_text(i),
            None => Seq::empty(),
        },
        match c.breaking {
            Some(b) => Some(b@),
            None => None,
        },
    )
}

/// Once nothing is found staged the composer is finished: whatever events follow,
/// it stays where it is and never comes to create a commit.
pub proof fn lemma_nothing_staged_never_commits(c: Composer, events: Seq<Event>)
    requires
        c.stage == Stage::CheckStaged,
    ensures
        step(c, Event::Staged(false)) is Ok,
        run(step(c, Event::Staged(false))->Ok_0, events).stage == Stage::NothingStaged,
        forall|i: int|
            0 <= i <= events.len() ==> run(step(c, Event::Staged(false))->Ok_0, events.take(i)).stage
                != Stage::CreateCommit,
{
    let n = step(c, Event::Staged(false))->Ok_0;
    lemma_finished_stays(n, events);
    assert forall|i: int| 0 <= i <= events.len() implies run(n, events.take(i)).stage
        != Stage::CreateCommit by {
        lemma_finished_stays(n, events.take(i));
    }
}

proof fn lemma_finished_stays(c: Composer, events: Seq<Event>)
    requires
        c.stage == Stage::NothingStaged,
    ensures
        run(c, events).stage == Stage::NothingStaged,
    decreases events.len(),
{
    if events.len() > 0 {
        lemma_finished_stays(c, events.drop_first());
    }
}

impl Composer {
    /// A composer that has gathered nothing and waits to learn whether anything is staged.
    pub fn new() -> (r: Self)
        ensures
            r.stage == Stage::CheckStaged,
            r.scope@.len() == 0,
            r.short_desc@.len() == 0,
            r.long_desc@.len() == 0,
            r.breaking is None,
            r.issue is None,
    {
        Composer {
            stage: Stage::CheckStaged,
            commit_type: CommitType::Feature,
            scope: String::new(),
            short_desc: String::new(),
            long_desc: String::new(),
            breaking: None,
            issue: None,
        }
    }

    /// Takes in one event; a refused event leaves the composer unchanged.
    pub fn advance(&mut self, event: Event) -> (r: Result<(), ComposeError>)
        ensures
            match step(*old(self), event) {
                Ok(n) => r is Ok && *final(self) == n,
                Err(e) => r == Err::<(), ComposeError>(e) && *final(self) == *old(self),
            },
    {
        match (self.stage, event) {
            (Stage::CheckStaged, Event::Staged(b)) => {
                self.stage = if b {
                    Stage::SelectType
                } else {
                    Stage::NothingStaged
                };
                Ok(())
            },
            (Stage::SelectType, Event::TypeChosen(t)) => {
                self.stage = Stage::CaptureScope;
                self.commit_type = t;
                Ok(())
            },
            (Stage::CaptureScope, Event::Text(s)) => {
                self.stage = Stage::CaptureShortDesc;
                self.scope = s;
                Ok(())
            },
            (Stage::CaptureShortDesc, Event::Text(s)) => {
                if s.as_str().unicode_len() <= MAX_SHORT_DESC {
                    self.stage = Stage::CaptureLongDesc;
                    self.short_desc = s;
                    Ok(())
                } else {
                    Err(ComposeError::DescriptionTooLong)
                }
            },
            (Stage::CaptureLongDesc, Event::Text(s)) => {
                self.stage = Stage::AskBreaking;
                self.long_desc = s;
                Ok(())
            },
            (Stage::AskBreaking, Event::Confirmed(b)) => {
                if b {
                    self.stage = Stage::EditBreaking;
                } else {
                    self.stage = Stage::AskIssue;
                    self.breaking = None;
                }
                Ok(())
            },
            (Stage::EditBreaking, Event::Edited(t)) => {
                match t {
                    Some(text) => {
                        self.stage = Stage::AskIssue;
                        self.breaking = Some(text);
                        Ok(())
                    },
                    None => Err(ComposeError::NoEditorInput),
                }
            },
            (Stage::AskIssue, Event::Confirmed(b)) => {
                if b {
                    self.stage = Stage::CaptureIssue;
                } else {
                    self.stage = Stage::CreateCommit;
                    self.issue = None;
                }
                Ok(())
            },
            (Stage::CaptureIssue, Event::IssueBuilt(i)) => {
                self.stage = Stage::CreateCommit;
                self.issue = Some(i);
                Ok(())
            },
            (Stage::CreateCommit, Event::Committed) => {
                self.stage = Stage::Done;
                Ok(())
            },
            _ => Err(ComposeError::UnexpectedEvent),
        }
    }

    /// Whether the message is complete and the commit should now be created.
    pub fn wants_commit(&self) -> (r: bool)
        ensures
            r == (self.stage == Stage::CreateCommit),
    {
        self.stage == Stage::CreateCommit
    }

    /// Whether the composer has finished, with a commit or with nothing to commit.
    pub fn is_finished(&self) -> (r: bool)
        ensures
            r == (self.stage == Stage::Done || self.stage == Stage::NothingStaged),
    {
        self.stage == Stage::Done || self.stage == Stage::NothingStaged
    }

    /// The message that the answers gathered so far make.
    pub fn message(&self) -> (r: String)
        ensures
            r@ == composed_text(*self),
    {
        let issue = match &self.issue {
            Some(i) => i.to_string(),
            None => String::new(),
        };
        let breaking = match &self.breaking {
            Some(b) => Some(b.as_str()),
            None => None,
        };
        compose_message(
            self.commit_type,
            self.scope.as_str(),
            self.short_desc.as_str(),
            self.long_desc.as_str(),
            issue.as_str(),
            breaking,
        )
    }
}

} // verus!
