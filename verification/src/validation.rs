//! Checking that a path is a directory that can be written to.
//!
//! The check asks three things in order and stops at the first "no": is there
//! anything at the path, is it a directory, can an empty sentinel file be
//! written into it. A sentinel that was written is removed at once, so the
//! check leaves nothing behind.

use crate::error::{AppError, AppErrorView, ErrorType};
use crate::host::{
    asked,
    lemma_done_is_final,
    run,
    Effect,
    EffectView,
    Reply,
    ReplyView,
    Step,
    StepView,
};
use crate::paths::{join_path, joined_path};
use vstd::prelude::*;

verus! {

/// Whose path is checked. The subject decides the wording of the errors and
/// the name of the sentinel file.
#[derive(Debug, Clone, Copy, PartialEq, Eq, Structural)]
pub enum CheckSubject {
    /// The base path of the settings.
    BasePath,
    /// A path that the user proposes.
    Candidate,
}

/// How far a check has come: the question that is out with the host.
#[derive(Debug, Clone, Copy, PartialEq, Eq, Structural)]
pub enum CheckStage {
    Existence,
    Directory,
    WriteProbe,
    Cleanup,
}

/// A check in progress.
#[derive(Debug, Clone, PartialEq, Eq)]
pub struct PathCheck {
    path: String,
    subject: CheckSubject,
    stage: CheckStage,
}

/// The mathematical content of a [`PathCheck`].
pub struct PathCheckView {
    pub path: Seq<char>,
    pub subject: CheckSubject,
    pub stage: CheckStage,
}

impl View for PathCheck {
    type V = PathCheckView;

    closed spec fn view(&self) -> PathCheckView {
        PathCheckView { path: self.path@, subject: self.subject, stage: self.stage }
    }
}

/// The name of the sentinel file that probes for write permission.
pub open spec fn sentinel_name(subject: CheckSubject) -> Seq<char> {
    match subject {
        CheckSubject::BasePath => ".test_write_permission"@,
        CheckSubject::Candidate => ".smart_folder_zen_test"@,
    }
}

/// The path of the sentinel file inside the checked directory.
pub open spec fn sentinel_path(path: Seq<char>, subject: CheckSubject) -> Seq<char> {
    joined_path(path, sentinel_name(subject))
}

/// The error for a path at which there is nothing.
pub open spec fn missing_error(subject: CheckSubject) -> AppErrorView {
    AppErrorView {
        message: match subject {
            CheckSubject::BasePath => "指定的路径不存在"@,
            CheckSubject::Candidate => "路径不存在"@,
        },
        error_type: ErrorType::InvalidPath,
    }
}

/// The error for a path that is no directory.
pub open spec fn not_directory_error(subject: CheckSubject) -> AppErrorView {
    AppErrorView {
        message: match subject {
            CheckSubject::BasePath => "指定的路径不是目录"@,
            CheckSubject::Candidate => "路径不是目录"@,
        },
        error_type: ErrorType::InvalidPath,
    }
}

/// The error for a directory into which the sentinel could not be written.
pub open spec fn not_writable_error() -> AppErrorView {
    AppErrorView { message: "没有写入权限"@, error_type: ErrorType::PermissionDenied }
}

/// The first step of a check: ask whether anything is at the path.
pub open spec fn check_first(path: Seq<char>, subject: CheckSubject) -> StepView<
    PathCheckView,
    Result<(), AppErrorView>,
> {
    StepView::Ask(
        PathCheckView { path, subject, stage: CheckStage::Existence },
        EffectView::CheckExists(path),
    )
}

/// The step that follows a reply.
pub open spec fn check_next(check: PathCheckView, reply: ReplyView) -> StepView<
    PathCheckView,
    Result<(), AppErrorView>,
> {
    match check.stage {
        CheckStage::Existence => if reply.ok {
            StepView::Ask(
                PathCheckView { stage: CheckStage::Directory, ..check },
                EffectView::CheckIsDir(check.path),
            )
        } else {
            StepView::Done(Err(missing_error(check.subject)))
        },
        CheckStage::Directory => if reply.ok {
            StepView::Ask(
                PathCheckView { stage: CheckStage::WriteProbe, ..check },
                EffectView::WriteEmptyFile(sentinel_path(check.path, check.subject)),
            )
        } else {
            StepView::Done(Err(not_directory_error(check.subject)))
        },
        CheckStage::WriteProbe => if reply.ok {
            StepView::Ask(
                PathCheckView { stage: CheckStage::Cleanup, ..check },
                EffectView::RemoveFile(sentinel_path(check.path, check.subject)),
            )
        } else {
            StepView::Done(Err(not_writable_error()))
        },
        CheckStage::Cleanup => StepView::Done(Ok(())),
    }
}

impl CheckSubject {
    /// The name of the sentinel file for this subject.
    pub fn sentinel(&self) -> (name: &'static str)
        ensures
            name@ == sentinel_name(*self),
    {
        match self {
            CheckSubject::BasePath => ".test_write_permission",
            CheckSubject::Candidate => ".smart_folder_zen_test",
        }
    }

    fn missing(&self) -> (error: AppError)
        ensures
            error@ == missing_error(*self),
    {
        match self {
            CheckSubject::BasePath => AppError::invalid_path("指定的路径不存在"),
            CheckSubject::Candidate => AppError::invalid_path("路径不存在"),
        }
    }

    fn not_directory(&self) -> (error: AppError)
        ensures
            error@ == not_directory_error(*self),
    {
        match self {
            CheckSubject::BasePath => AppError::invalid_path("指定的路径不是目录"),
            CheckSubject::Candidate => AppError::invalid_path("路径不是目录"),
        }
    }
}

impl PathCheck {
    /// Begins the check of `path`.
    pub fn start(path: &str, subject: CheckSubject) -> (step: Step<PathCheck, Result<(), AppError>>)
        ensures
            step@ == check_first(path@, subject),
    {
        let check = PathCheck { path: path.to_owned(), subject, stage: CheckStage::Existence };
        Step::Ask(check, Effect::CheckExists(path.to_owned()))
    }

    /// Continues the check with the host's reply to the last request.
    pub fn resume(self, reply: &Reply) -> (step: Step<PathCheck, Result<(), AppError>>)
        ensures
            step@ == check_next(self@, reply@),
    {
        let PathCheck { path, subject, stage } = self;
        match stage {
            CheckStage::Existence => {
                if reply.ok {
                    let effect = Effect::CheckIsDir(path.clone());
                    Step::Ask(PathCheck { path, subject, stage: CheckStage::Directory }, effect)
                } else {
                    Step::Done(Err(subject.missing()))
                }
            },
            CheckStage::Directory => {
                if reply.ok {
                    let sentinel = join_path(path.as_str(), subject.sentinel());
                    Step::Ask(
                        PathCheck { path, subject, stage: CheckStage::WriteProbe },
                        Effect::WriteEmptyFile(sentinel),
                    )
                } else {
                    Step::Done(Err(subject.not_directory()))
                }
            },
            CheckStage::WriteProbe => {
                if reply.ok {
                    let sentinel = join_path(path.as_str(), subject.sentinel());
                    Step::Ask(
                        PathCheck { path, subject, stage: CheckStage::Cleanup },
                        Effect::RemoveFile(sentinel),
                    )
                } else {
                    Step::Done(Err(AppError::permission_denied("没有写入权限")))
                }
            },
            CheckStage::Cleanup => Step::Done(Ok(())),
        }
    }
}

/// The step that the check of `path` has reached after the host's `replies`.
pub open spec fn check_run(path: Seq<char>, subject: CheckSubject, replies: Seq<ReplyView>) -> StepView<
    PathCheckView,
    Result<(), AppErrorView>,
> {
    run(
        check_first(path, subject),
        |check: PathCheckView, reply: ReplyView| check_next(check, reply),
        replies,
    )
}

/// The requests that the check of `path` makes while the host replies with
/// `replies`.
pub open spec fn check_asked(path: Seq<char>, subject: CheckSubject, replies: Seq<ReplyView>) -> Seq<
    EffectView,
> {
    asked(
        check_first(path, subject),
        |check: PathCheckView, reply: ReplyView| check_next(check, reply),
        replies,
    )
}

/// What a check concludes from the host's three answers.
pub open spec fn check_verdict(subject: CheckSubject, exists: bool, is_dir: bool, writable: bool) -> Result<
    (),
    AppErrorView,
> {
    if !exists {
        Err(missing_error(subject))
    } else if !is_dir {
        Err(not_directory_error(subject))
    } else if !writable {
        Err(not_writable_error())
    } else {
        Ok(())
    }
}

/// The requests of a check, as far as the host's answers let it come.
pub open spec fn check_requests(
    path: Seq<char>,
    subject: CheckSubject,
    exists: bool,
    is_dir: bool,
    writable: bool,
) -> Seq<EffectView> {
    let sentinel = sentinel_path(path, subject);
    if !exists {
        seq![EffectView::CheckExists(path)]
    } else if !is_dir {
        seq![EffectView::CheckExists(path), EffectView::CheckIsDir(path)]
    } else if !writable {
        seq![
            EffectView::CheckExists(path),
            EffectView::CheckIsDir(path),
            EffectView::WriteEmptyFile(sentinel),
        ]
    } else {
        seq![
            EffectView::CheckExists(path),
            EffectView::CheckIsDir(path),
            EffectView::WriteEmptyFile(sentinel),
            EffectView::RemoveFile(sentinel),
        ]
    }
}

/// A check is over after four replies at most. It accepts a path exactly
/// when something exists there, it is a directory and the sentinel could be
/// written; otherwise it names the first of the three that failed: a missing
/// path and a path that is no directory are invalid paths, a directory that
/// cannot be written to is a denied permission. How the removal of the
/// sentinel went does not matter.
///
/// A check leaves nothing behind: it writes nothing but its sentinel, and a
/// sentinel that was written is the next thing it asks to remove. It asks for
/// nothing after the first answer that fails it.
pub proof fn lemma_check_verdict(path: Seq<char>, subject: CheckSubject, replies: Seq<ReplyView>)
    requires
        replies.len() >= 4,
    ensures
        check_run(path, subject, replies) == StepView::<
            PathCheckView,
            Result<(), AppErrorView>,
        >::Done(check_verdict(subject, replies[0].ok, replies[1].ok, replies[2].ok)),
        check_asked(path, subject, replies) == check_requests(
            path,
            subject,
            replies[0].ok,
            replies[1].ok,
            replies[2].ok,
        ),
{
    let next = |check: PathCheckView, reply: ReplyView| check_next(check, reply);
    let first = check_first(path, subject);
    let four = seq![replies[0], replies[1], replies[2], replies[3]];
    assert(run(first, next, four) == StepView::<PathCheckView, Result<(), AppErrorView>>::Done(
        check_verdict(subject, replies[0].ok, replies[1].ok, replies[2].ok),
    )) by {
        reveal_with_fuel(run, 5);
    }
    assert(asked(first, next, four) =~= check_requests(
        path,
        subject,
        replies[0].ok,
        replies[1].ok,
        replies[2].ok,
    )) by {
        reveal_with_fuel(asked, 5);
    }
    assert(replies =~= four + replies.skip(4));
    lemma_done_is_final(first, next, four, replies.skip(4));
}

} // verus!
