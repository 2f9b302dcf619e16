//! The boundary between the rules of this crate and the machine they run on.
//!
//! An operation that needs the file system does not touch it. It hands its
//! host a [`Step`]: either an [`Effect`] to perform, together with the state
//! to resume from, or the finished result. The host performs the effect and
//! resumes the operation with a [`Reply`].

use crate::error::{AppError, AppErrorView};
use crate::settings::{DocumentView, SettingsDocument};
use vstd::prelude::*;

verus! {

/// One request to the host.
#[derive(Debug, Clone, PartialEq, Eq)]
pub enum Effect {
    /// Is there anything at this path? The reply is `ok` if there is.
    CheckExists(String),
    /// Is this path a directory? The reply is `ok` if it is.
    CheckIsDir(String),
    /// Write an empty file at this path.
    WriteEmptyFile(String),
    /// Remove the file at this path. The reply is not looked at.
    RemoveFile(String),
    /// Create this directory and every missing directory above it.
    CreateDirAll(String),
    /// Start `program` with `argument` as its only argument, and do not wait
    /// for it.
    Launch { program: String, argument: String },
    /// Write the document to the place where the settings are kept.
    PersistSettings(SettingsDocument),
}

/// The mathematical content of an [`Effect`].
pub enum EffectView {
    CheckExists(Seq<char>),
    CheckIsDir(Seq<char>),
    WriteEmptyFile(Seq<char>),
    RemoveFile(Seq<char>),
    CreateDirAll(Seq<char>),
    Launch { program: Seq<char>, argument: Seq<char> },
    PersistSettings(DocumentView),
}

impl View for Effect {
    type V = EffectView;

    open spec fn view(&self) -> EffectView {
        match self {
            Effect::CheckExists(path) => EffectView::CheckExists(path@),
            Effect::CheckIsDir(path) => EffectView::CheckIsDir(path@),
            Effect::WriteEmptyFile(path) => EffectView::WriteEmptyFile(path@),
            Effect::RemoveFile(path) => EffectView::RemoveFile(path@),
            Effect::CreateDirAll(path) => EffectView::CreateDirAll(path@),
            Effect::Launch { program, argument } => EffectView::Launch {
                program: program@,
                argument: argument@,
            },
            Effect::PersistSettings(document) => EffectView::PersistSettings(document@),
        }
    }
}

/// What the host found or did. For a question, `ok` is the answer; for an
/// action, `ok` says that it was done, and `detail` says what went wrong when
/// it was not.
#[derive(Debug, Clone, PartialEq, Eq)]
pub struct Reply {
    pub ok: bool,
    pub detail: String,
}

/// The mathematical content of a [`Reply`].
pub struct ReplyView {
    pub ok: bool,
    pub detail: Seq<char>,
}

impl View for Reply {
    type V = ReplyView;

    open spec fn view(&self) -> ReplyView {
        ReplyView { ok: self.ok, detail: self.detail@ }
    }
}

impl Reply {
    /// The reply "yes", or "done".
    pub fn yes() -> (reply: Reply)
        ensures
            reply@ == (ReplyView { ok: true, detail: Seq::<char>::empty() }),
    {
        Reply { ok: true, detail: String::new() }
    }

    /// The reply "no".
    pub fn no() -> (reply: Reply)
        ensures
            reply@ == (ReplyView { ok: false, detail: Seq::<char>::empty() }),
    {
        Reply { ok: false, detail: String::new() }
    }

    /// The answer to a question.
    pub fn answer(ok: bool) -> (reply: Reply)
        ensures
            reply@ == (ReplyView { ok, detail: Seq::<char>::empty() }),
    {
        Reply { ok, detail: String::new() }
    }

    /// The reply of an action that failed, with the reason.
    pub fn failed(detail: &str) -> (reply: Reply)
        ensures
            reply@ == (ReplyView { ok: false, detail: detail@ }),
    {
        Reply { ok: false, detail: detail.to_owned() }
    }
}

/// What an operation hands back: the next request with the state to resume
/// from, or its result.
#[derive(Debug, Clone, PartialEq, Eq)]
pub enum Step<M, T> {
    Ask(M, Effect),
    Done(T),
}

/// The mathematical content of a [`Step`].
pub enum StepView<M, T> {
    Ask(M, EffectView),
    Done(T),
}

/// A result of an operation, with its mathematical content.
pub trait Outcome {
    type Model;

    spec fn model(&self) -> Self::Model;
}

impl Outcome for bool {
    type Model = bool;

    open spec fn model(&self) -> bool {
        *self
    }
}

impl Outcome for Result<(), AppError> {
    type Model = Result<(), AppErrorView>;

    open spec fn model(&self) -> Result<(), AppErrorView> {
        match self {
            Ok(_) => Ok(()),
            Err(error) => Err(error@),
        }
    }
}

impl Outcome for Result<String, AppError> {
    type Model = Result<Seq<char>, AppErrorView>;

    open spec fn model(&self) -> Result<Seq<char>, AppErrorView> {
        match self {
            Ok(path) => Ok(path@),
            Err(error) => Err(error@),
        }
    }
}

impl<M: View, T: Outcome> View for Step<M, T> {
    type V = StepView<M::V, T::Model>;

    open spec fn view(&self) -> StepView<M::V, T::Model> {
        match self {
            Step::Ask(machine, effect) => StepView::Ask(machine@, effect@),
            Step::Done(result) => StepView::Done(result.model()),
        }
    }
}

/// The step that an operation has reached when the host has replied to its
/// requests with `replies`, in order. `next` is the operation's rule for the
/// step that follows a reply. Replies left over when the operation is done
/// are not looked at.
pub open spec fn run<M, T>(
    step: StepView<M, T>,
    next: spec_fn(M, ReplyView) -> StepView<M, T>,
    replies: Seq<ReplyView>,
) -> StepView<M, T>
    decreases replies.len(),
{
    match step {
        StepView::Ask(machine, _) => if replies.len() == 0 {
            step
        } else {
            run(next(machine, replies[0]), next, replies.drop_first())
        },
        StepView::Done(_) => step,
    }
}

/// The requests that an operation makes, in order, while the host replies
/// with `replies`: one request for each reply that is looked at, and the
/// request that is left open when the replies run out first.
pub open spec fn asked<M, T>(
    step: StepView<M, T>,
    next: spec_fn(M, ReplyView) -> StepView<M, T>,
    replies: Seq<ReplyView>,
) -> Seq<EffectView>
    decreases replies.len(),
{
    match step {
        StepView::Ask(machine, effect) => if replies.len() == 0 {
            seq![effect]
        } else {
            seq![effect] + asked(next(machine, replies[0]), next, replies.drop_first())
        },
        StepView::Done(_) => Seq::empty(),
    }
}

/// An operation that is done stays done: replies that come after its result
/// change neither the result nor the requests that were made.
pub proof fn lemma_done_is_final<M, T>(
    step: StepView<M, T>,
    next: spec_fn(M, ReplyView) -> StepView<M, T>,
    replies: Seq<ReplyView>,
    later: Seq<ReplyView>,
)
    requires
        run(step, next, replies) is Done,
    ensures
        run(step, next, replies + later) == run(step, next, replies),
        asked(step, next, replies + later) == asked(step, next, replies),
    decreases replies.len(),
{
    match step {
        StepView::Ask(machine, _) => {
            assert(replies.len() > 0);
            assert((replies + later)[0] == replies[0]);
            assert((replies + later).drop_first() =~= replies.drop_first() + later);
            lemma_done_is_final(next(machine, replies[0]), next, replies.drop_first(), later);
        },
        StepView::Done(_) => {
            reveal_with_fuel(run, 2);
            reveal_with_fuel(asked, 2);
        },
    }
}

} // verus!
