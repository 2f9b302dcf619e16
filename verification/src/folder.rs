//! The dated folder: where it lies, and the operations that create it, look
//! for it and show it.

use crate::date::{local_today, CalendarDate, DateView};
use crate::error::{AppError, AppErrorView, ErrorType};
use crate::host::{
    asked,
    lemma_done_is_final,
    run,
    Effect,
    EffectView,
    Reply,
    ReplyView,
    Step,
    StepView,
};
use crate::paths::{join_path, joined_path};
use crate::settings::{formatted, AppSettings, SettingsView};
use crate::validation::{
    check_first,
    check_next,
    check_requests,
    check_verdict,
    CheckSubject,
    PathCheck,
    PathCheckView,
};
use vstd::prelude::*;
use vstd::string::*;

verus! {

/// The operations on dated folders.
pub struct FolderManager;

/// The path of the folder for `date`: its name under the settings' format,
/// adjoined to the settings' base path.
pub open spec fn dated_path(settings: SettingsView, date: DateView) -> Seq<char> {
    joined_path(settings.folder_path, formatted(settings.date_format, date))
}

/// The platform whose file manager shows a folder.
#[derive(Debug, Clone, Copy, PartialEq, Eq, Structural)]
pub enum Platform {
    Windows,
    MacOs,
    Linux,
    /// A platform for which no file manager is known: showing a folder there
    /// checks that it exists and does nothing more.
    Other,
}

/// The program that shows a folder on a platform.
pub open spec fn launcher_name(platform: Platform) -> Option<Seq<char>> {
    match platform {
        Platform::Windows => Some("explorer"@),
        Platform::MacOs => Some("open"@),
        Platform::Linux => Some("xdg-open"@),
        Platform::Other => None,
    }
}

/// The error for a file manager that could not be started.
pub open spec fn launch_error(platform: Platform) -> AppErrorView {
    AppErrorView {
        message: match platform {
            Platform::MacOs => "无法打开Finder"@,
            _ => "无法打开文件管理器"@,
        },
        error_type: ErrorType::FileSystem,
    }
}

/// The error for a folder to show that does not exist.
pub open spec fn absent_folder_error() -> AppErrorView {
    AppErrorView { message: "文件夹不存在"@, error_type: ErrorType::InvalidPath }
}

/// The error for a folder that could not be created; `detail` is the host's
/// account of the failure.
pub open spec fn creation_error(detail: Seq<char>) -> AppErrorView {
    AppErrorView { message: "创建文件夹失败: "@ + detail, error_type: ErrorType::FileSystem }
}

impl Platform {
    /// The program that shows a folder on this platform, if one is known.
    pub fn launcher(&self) -> (program: Option<&'static str>)
        ensures
            match launcher_name(*self) {
                Some(name) => program matches Some(found) && found@ == name,
                None => program is None,
            },
    {
        match self {
            Platform::Windows => Some("explorer"),
            Platform::MacOs => Some("open"),
            Platform::Linux => Some("xdg-open"),
            Platform::Other => None,
        }
    }

    fn launch_failure(&self) -> (error: AppError)
        ensures
            error@ == launch_error(*self),
    {
        match self {
            Platform::MacOs => AppError::file_system("无法打开Finder"),
            _ => AppError::file_system("无法打开文件管理器"),
        }
    }
}

/// The creation of a dated folder, in progress.
#[derive(Debug, Clone, PartialEq, Eq)]
pub struct FolderCreation {
    state: CreationState,
}

#[derive(Debug, Clone, PartialEq, Eq)]
enum CreationState {
    Validating { check: PathCheck, target: String },
    Locating { target: String },
    Creating { target: String },
}

/// The mathematical content of a [`FolderCreation`]: what is out with the
/// host, and the path of the folder to create.
pub enum CreationView {
    /// The base path is being checked.
    Validating { check: PathCheckView, target: Seq<char> },
    /// The host was asked whether the folder exists.
    Locating { target: Seq<char> },
    /// The host was asked to create the folder.
    Creating { target: Seq<char> },
}

impl View for FolderCreation {
    type V = CreationView;

    closed spec fn view(&self) -> CreationView {
        match self.state {
            CreationState::Validating { check, target } => CreationView::Validating {
                check: check@,
                target: target@,
            },
            CreationState::Locating { target } => CreationView::Locating { target: target@ },
            CreationState::Creating { target } => CreationView::Creating { target: target@ },
        }
    }
}

/// A step of the base path's check, seen as a step of the creation of
/// `target`: when the check has passed, the host is asked whether the folder
/// exists.
pub open spec fn creation_after_check(
    step: StepView<PathCheckView, Result<(), AppErrorView>>,
    target: Seq<char>,
) -> StepView<CreationView, Result<Seq<char>, AppErrorView>> {
    match step {
        StepView::Ask(check, effect) => StepView::Ask(
            CreationView::Validating { check, target },
            effect,
        ),
        StepView::Done(Ok(_)) => StepView::Ask(
            CreationView::Locating { target },
            EffectView::CheckExists(target),
        ),
        StepView::Done(Err(error)) => StepView::Done(Err(error)),
    }
}

/// The first step of creating the folder for `date`: the check of the base
/// path begins.
pub open spec fn creation_first(settings: SettingsView, date: DateView) -> StepView<
    CreationView,
    Result<Seq<char>, AppErrorView>,
> {
    creation_after_check(
        check_first(settings.folder_path, CheckSubject::BasePath),
        dated_path(settings, date),
    )
}

/// The step that follows a reply. A folder that exists is left as it is; one
/// that is missing is created with its parents.
pub open spec fn creation_next(creation: CreationView, reply: ReplyView) -> StepView<
    CreationView,
    Result<Seq<char>, AppErrorView>,
> {
    match creation {
        CreationView::Validating { check, target } => creation_after_check(
            check_next(check, reply),
            target,
        ),
        CreationView::Locating { target } => if reply.ok {
            StepView::Done(Ok(target))
        } else {
            StepView::Ask(CreationView::Creating { target }, EffectView::CreateDirAll(target))
        },
        CreationView::Creating { target } => if reply.ok {
            StepView::Done(Ok(target))
        } else {
            StepView::Done(Err(creation_error(reply.detail)))
        },
    }
}

impl FolderCreation {
    fn after_check(step: Step<PathCheck, Result<(), AppError>>, target: String) -> (next: Step<
        FolderCreation,
        Result<String, AppError>,
    >)
        ensures
            next@ == creation_after_check(step@, target@),
    {
        match step {
            Step::Ask(check, effect) => Step::Ask(
                FolderCreation { state: CreationState::Validating { check, target } },
                effect,
            ),
            Step::Done(Ok(_)) => {
                let effect = Effect::CheckExists(target.clone());
                Step::Ask(FolderCreation { state: CreationState::Locating { target } }, effect)
            },
            Step::Done(Err(error)) => Step::Done(Err(error)),
        }
    }

    /// Continues the creation with the host's reply to the last request.
    pub fn resume(self, reply: &Reply) -> (step: Step<FolderCreation, Result<String, AppError>>)
        ensures
            step@ == creation_next(self@, reply@),
    {
        match self.state {
            CreationState::Validating { check, target } => Self::after_check(
                check.resume(reply),
                target,
            ),
            CreationState::Locating { target } => {
                if reply.ok {
                    Step::Done(Ok(target))
                } else {
                    let effect = Effect::CreateDirAll(target.clone());
                    Step::Ask(FolderCreation { state: CreationState::Creating { target } }, effect)
                }
            },
            CreationState::Creating { target } => {
                if reply.ok {
                    Step::Done(Ok(target))
                } else {
                    let message = String::from_str("创建文件夹失败: ").concat(
                        reply.detail.as_str(),
                    );
                    Step::Done(Err(AppError::file_system(message.as_str())))
                }
            },
        }
    }
}

/// A look for a dated folder, in progress.
#[derive(Debug, Clone, PartialEq, Eq)]
pub struct FolderProbe {
    path: String,
    found: bool,
}

/// The mathematical content of a [`FolderProbe`]: the path looked for, and
/// whether the host has already found something there.
pub struct ProbeView {
    pub path: Seq<char>,
    pub found: bool,
}

impl View for FolderProbe {
    type V = ProbeView;

    closed spec fn view(&self) -> ProbeView {
        ProbeView { path: self.path@, found: self.found }
    }
}

/// The first step of a look for the folder at `path`.
pub open spec fn probe_first(path: Seq<char>) -> StepView<ProbeView, bool> {
    StepView::Ask(ProbeView { path, found: false }, EffectView::CheckExists(path))
}

/// The step that follows a reply: the folder is there when something exists
/// at the path and it is a directory. Nothing is ever created.
pub open spec fn probe_next(probe: ProbeView, reply: ReplyView) -> StepView<ProbeView, bool> {
    if probe.found {
        StepView::Done(reply.ok)
    } else if reply.ok {
        StepView::Ask(ProbeView { path: probe.path, found: true }, EffectView::CheckIsDir(probe.path))
    } else {
        StepView::Done(false)
    }
}

impl FolderProbe {
    /// Begins a look for the folder at `path`.
    pub fn start(path: String) -> (step: Step<FolderProbe, bool>)
        ensures
            step@ == probe_first(path@),
    {
        let effect = Effect::CheckExists(path.clone());
        Step::Ask(FolderProbe { path, found: false }, effect)
    }

    /// Continues the look with the host's reply to the last request.
    pub fn resume(self, reply: &Reply) -> (step: Step<FolderProbe, bool>)
        ensures
            step@ == probe_next(self@, reply@),
    {
        if self.found {
            Step::Done(reply.ok)
        } else if reply.ok {
            let effect = Effect::CheckIsDir(self.path.clone());
            Step::Ask(FolderProbe { path: self.path, found: true }, effect)
        } else {
            Step::Done(false)
        }
    }
}

/// The showing of a folder in the platform's file manager, in progress.
#[derive(Debug, Clone, PartialEq, Eq)]
pub struct FolderOpening {
    path: String,
    platform: Platform,
    launching: bool,
}

/// The mathematical content of a [`FolderOpening`]: the folder to show, the
/// platform, and whether the file manager was already asked for.
pub struct OpeningView {
    pub path: Seq<char>,
    pub platform: Platform,
    pub launching: bool,
}

impl View for FolderOpening {
    type V = OpeningView;

    closed spec fn view(&self) -> OpeningView {
        OpeningView { path: self.path@, platform: self.platform, launching: self.launching }
    }
}

/// The first step of showing the folder at `path`.
pub open spec fn opening_first(path: Seq<char>, platform: Platform) -> StepView<
    OpeningView,
    Result<(), AppErrorView>,
> {
    StepView::Ask(OpeningView { path, platform, launching: false }, EffectView::CheckExists(path))
}

/// The step that follows a reply: a path at which nothing exists is an
/// error; otherwise the platform's file manager is started on it, and the
/// operation is over as soon as the host has started it.
pub open spec fn opening_next(opening: OpeningView, reply: ReplyView) -> StepView<
    OpeningView,
    Result<(), AppErrorView>,
> {
    if opening.launching {
        if reply.ok {
            StepView::Done(Ok(()))
        } else {
            StepView::Done(Err(launch_error(opening.platform)))
        }
    } else if !reply.ok {
        StepView::Done(Err(absent_folder_error()))
    } else {
        match launcher_name(opening.platform) {
            Some(program) => StepView::Ask(
                OpeningView { launching: true, ..opening },
                EffectView::Launch { program, argument: opening.path },
            ),
            None => StepView::Done(Ok(())),
        }
    }
}

impl FolderOpening {
    /// Begins the showing of the folder at `path`.
    pub fn start(path: String, platform: Platform) -> (step: Step<
        FolderOpening,
        Result<(), AppError>,
    >)
        ensures
            step@ == opening_first(path@, platform),
    {
        let effect = Effect::CheckExists(path.clone());
        Step::Ask(FolderOpening { path, platform, launching: false }, effect)
    }

    /// Continues the showing with the host's reply to the last request.
    pub fn resume(self, reply: &Reply) -> (step: Step<FolderOpening, Result<(), AppError>>)
        ensures
            step@ == opening_next(self@, reply@),
    {
        if self.launching {
            if reply.ok {
                Step::Done(Ok(()))
            } else {
                Step::Done(Err(self.platform.launch_failure()))
            }
        } else if !reply.ok {
            Step::Done(Err(AppError::invalid_path("文件夹不存在")))
        } else {
            match self.platform.launcher() {
                Some(program) => {
                    let effect = Effect::Launch {
                        program: program.to_owned(),
                        argument: self.path.clone(),
                    };
                    Step::Ask(
                        FolderOpening { path: self.path, platform: self.platform, launching: true },
                        effect,
                    )
                },
                None => Step::Done(Ok(())),
            }
        }
    }
}

impl FolderManager {
    /// The path of the folder for `date`. Nothing is touched.
    pub fn path_for_date(settings: &AppSettings, date: &CalendarDate) -> (path: String)
        ensures
            path@ == dated_path(settings@, date@),
    {
        let name = settings.date_format.format_date(date);
        join_path(settings.folder_path.as_str(), name.as_str())
    }

    /// The path of today's folder, for the day that the clock shows at the
    /// call.
    pub fn get_today_folder_path(settings: &AppSettings) -> (path: String)
        ensures
            exists|today: DateView| today.valid() && path@ == dated_path(settings@, today),
    {
        let today = local_today();
        let path = Self::path_for_date(settings, &today);
        assert(today@.valid() && path@ == dated_path(settings@, today@));
        path
    }

    /// Begins the creation of the folder for `date`.
    pub fn create_folder_for_date(settings: &AppSettings, date: &CalendarDate) -> (step: Step<
        FolderCreation,
        Result<String, AppError>,
    >)
        ensures
            step@ == creation_first(settings@, date@),
    {
        let target = Self::path_for_date(settings, date);
        FolderCreation::after_check(
            PathCheck::start(settings.folder_path.as_str(), CheckSubject::BasePath),
            target,
        )
    }

    /// Begins the creation of today's folder, for the day that the clock
    /// shows at the call.
    pub fn create_today_folder(settings: &AppSettings) -> (step: Step<
        FolderCreation,
        Result<String, AppError>,
    >)
        ensures
            exists|today: DateView| today.valid() && step@ == creation_first(settings@, today),
    {
        let today = local_today();
        let step = Self::create_folder_for_date(settings, &today);
        assert(today@.valid() && step@ == creation_first(settings@, today@));
        step
    }

    /// Begins a look for the folder for `date`.
    pub fn folder_exists_for_date(settings: &AppSettings, date: &CalendarDate) -> (step: Step<
        FolderProbe,
        bool,
    >)
        ensures
            step@ == probe_first(dated_path(settings@, date@)),
    {
        FolderProbe::start(Self::path_for_date(settings, date))
    }

    /// Begins a look for today's folder, for the day that the clock shows at
    /// the call.
    pub fn today_folder_exists(settings: &AppSettings) -> (step: Step<FolderProbe, bool>)
        ensures
            exists|today: DateView|
                today.valid() && step@ == probe_first(dated_path(settings@, today)),
    {
        let today = local_today();
        let step = Self::folder_exists_for_date(settings, &today);
        assert(today@.valid() && step@ == probe_first(dated_path(settings@, today@)));
        step
    }

    /// Begins the showing of the folder at `path` in the file manager of
    /// `platform`.
    pub fn open_folder_in_explorer(path: &str, platform: Platform) -> (step: Step<
        FolderOpening,
        Result<(), AppError>,
    >)
        ensures
            step@ == opening_first(path@, platform),
    {
        FolderOpening::start(path.to_owned(), platform)
    }

    /// Begins the check of a path that the user proposes.
    pub fn validate_folder_path(path: &str) -> (step: Step<PathCheck, Result<(), AppError>>)
        ensures
            step@ == check_first(path@, CheckSubject::Candidate),
    {
        PathCheck::start(path, CheckSubject::Candidate)
    }
}

/// The step that the creation of the folder for `date` has reached after the
/// host's `replies`.
pub open spec fn creation_run(settings: SettingsView, date: DateView, replies: Seq<ReplyView>) -> StepView<
    CreationView,
    Result<Seq<char>, AppErrorView>,
> {
    run(
        creation_first(settings, date),
        |creation: CreationView, reply: ReplyView| creation_next(creation, reply),
        replies,
    )
}

/// The requests that the creation of the folder for `date` makes while the
/// host replies with `replies`.
pub open spec fn creation_asked(settings: SettingsView, date: DateView, replies: Seq<ReplyView>) -> Seq<
    EffectView,
> {
    asked(
        creation_first(settings, date),
        |creation: CreationView, reply: ReplyView| creation_next(creation, reply),
        replies,
    )
}

/// What the creation of the folder for `date` comes to, from the host's
/// answers: whether something exists at the base path, whether it is a
/// directory, whether the sentinel could be written, whether the folder is
/// already there, and how its creation went if it was not.
pub open spec fn creation_result(
    settings: SettingsView,
    date: DateView,
    exists: bool,
    is_dir: bool,
    writable: bool,
    present: bool,
    created: ReplyView,
) -> Result<Seq<char>, AppErrorView> {
    match check_verdict(CheckSubject::BasePath, exists, is_dir, writable) {
        Err(error) => Err(error),
        Ok(_) => if present || created.ok {
            Ok(dated_path(settings, date))
        } else {
            Err(creation_error(created.detail))
        },
    }
}

/// The requests of the creation of the folder for `date`, as far as the
/// host's answers let it come.
pub open spec fn creation_requests(
    settings: SettingsView,
    date: DateView,
    exists: bool,
    is_dir: bool,
    writable: bool,
    present: bool,
) -> Seq<EffectView> {
    let checks = check_requests(
        settings.folder_path,
        CheckSubject::BasePath,
        exists,
        is_dir,
        writable,
    );
    let target = dated_path(settings, date);
    if !(exists && is_dir && writable) {
        checks
    } else if present {
        checks + seq![EffectView::CheckExists(target)]
    } else {
        checks + seq![EffectView::CheckExists(target), EffectView::CreateDirAll(target)]
    }
}

/// The creation of a dated folder is over after six replies at most. It
/// fails with the base path's error when the base path does not pass its
/// check; otherwise it yields the dated path, whether the folder was already
/// there or was created now, and fails with a file-system error only when the
/// folder was missing and could not be created.
///
/// It asks for the check of the base path first, every time, then whether
/// the folder exists, and for its creation only when the host has answered
/// that it does not.
pub proof fn lemma_creation_result(settings: SettingsView, date: DateView, replies: Seq<ReplyView>)
    requires
        replies.len() >= 6,
    ensures
        creation_run(settings, date, replies) == StepView::<
            CreationView,
            Result<Seq<char>, AppErrorView>,
        >::Done(
            creation_result(
                settings,
                date,
                replies[0].ok,
                replies[1].ok,
                replies[2].ok,
                replies[4].ok,
                replies[5],
            ),
        ),
        creation_asked(settings, date, replies) == creation_requests(
            settings,
            date,
            replies[0].ok,
            replies[1].ok,
            replies[2].ok,
            replies[4].ok,
        ),
{
    let next = |creation: CreationView, reply: ReplyView| creation_next(creation, reply);
    let first = creation_first(settings, date);
    let six = seq![replies[0], replies[1], replies[2], replies[3], replies[4], replies[5]];
    assert(run(first, next, six) == StepView::<CreationView, Result<Seq<char>, AppErrorView>>::Done(
        creation_result(
            settings,
            date,
            replies[0].ok,
            replies[1].ok,
            replies[2].ok,
            replies[4].ok,
            replies[5],
        ),
    )) by {
        reveal_with_fuel(run, 7);
    }
    assert(asked(first, next, six) =~= creation_requests(
        settings,
        date,
        replies[0].ok,
        replies[1].ok,
        replies[2].ok,
        replies[4].ok,
    )) by {
        reveal_with_fuel(asked, 7);
    }
    assert(replies =~= six + replies.skip(6));
    lemma_done_is_final(first, next, six, replies.skip(6));
}

/// Whenever the creation of the folder for `date` succeeds, it yields the
/// dated path, whatever the host answered on the way.
pub proof fn lemma_creation_yields_dated_path(
    settings: SettingsView,
    date: DateView,
    replies: Seq<ReplyView>,
)
    ensures
        creation_run(settings, date, replies) matches StepView::Done(Ok(path)) ==> path
            == dated_path(settings, date),
{
    let next = |creation: CreationView, reply: ReplyView| creation_next(creation, reply);
    let first = creation_first(settings, date);
    if run(first, next, replies) is Done {
        let filler = ReplyView { ok: false, detail: Seq::<char>::empty() };
        let later = seq![filler, filler, filler, filler, filler, filler];
        lemma_done_is_final(first, next, replies, later);
        lemma_creation_result(settings, date, replies + later);
    }
}

/// The creation of a folder that is already there, under a base path that
/// passes its check, yields the dated path and asks for no creation: besides
/// its questions it only writes the sentinel into the base path and removes
/// it again.
pub proof fn lemma_creation_keeps_existing_folder(
    settings: SettingsView,
    date: DateView,
    replies: Seq<ReplyView>,
)
    requires
        replies.len() >= 5,
        replies[0].ok && replies[1].ok && replies[2].ok && replies[4].ok,
    ensures
        creation_run(settings, date, replies) == StepView::<
            CreationView,
            Result<Seq<char>, AppErrorView>,
        >::Done(Ok(dated_path(settings, date))),
        creation_asked(settings, date, replies) == creation_requests(
            settings,
            date,
            true,
            true,
            true,
            true,
        ),
{
    let next = |creation: CreationView, reply: ReplyView| creation_next(creation, reply);
    let first = creation_first(settings, date);
    let five = seq![replies[0], replies[1], replies[2], replies[3], replies[4]];
    assert(run(first, next, five) == StepView::<CreationView, Result<Seq<char>, AppErrorView>>::Done(
        Ok(dated_path(settings, date)),
    )) by {
        reveal_with_fuel(run, 6);
    }
    assert(asked(first, next, five) =~= creation_requests(settings, date, true, true, true, true))
        by {
        reveal_with_fuel(asked, 6);
    }
    assert(replies =~= five + replies.skip(5));
    lemma_done_is_final(first, next, five, replies.skip(5));
}

/// Creation is idempotent. Take two creations for the same settings and the
/// same date, the first of which succeeds, and let the folder still be there
/// at the second while the base path passes its check again. Then the second
/// ends as the first did, with the same path, and it asks for no creation, so
/// what the folder holds is left as it is.
pub proof fn lemma_creation_idempotent(
    settings: SettingsView,
    date: DateView,
    first: Seq<ReplyView>,
    second: Seq<ReplyView>,
)
    requires
        creation_run(settings, date, first) matches StepView::Done(Ok(_)),
        second.len() >= 5,
        second[0].ok && second[1].ok && second[2].ok && second[4].ok,
    ensures
        creation_run(settings, date, second) == creation_run(settings, date, first),
        creation_run(settings, date, second) == StepView::<
            CreationView,
            Result<Seq<char>, AppErrorView>,
        >::Done(Ok(dated_path(settings, date))),
        forall|i: int|
            0 <= i < creation_asked(settings, date, second).len() ==> !(
            #[trigger] creation_asked(settings, date, second)[i] is CreateDirAll),
{
    lemma_creation_yields_dated_path(settings, date, first);
    lemma_creation_keeps_existing_folder(settings, date, second);
}

/// The step that a look for the folder at `path` has reached after the
/// host's `replies`.
pub open spec fn probe_run(path: Seq<char>, replies: Seq<ReplyView>) -> StepView<ProbeView, bool> {
    run(probe_first(path), |probe: ProbeView, reply: ReplyView| probe_next(probe, reply), replies)
}

/// The requests that a look for the folder at `path` makes while the host
/// replies with `replies`.
pub open spec fn probe_asked(path: Seq<char>, replies: Seq<ReplyView>) -> Seq<EffectView> {
    asked(probe_first(path), |probe: ProbeView, reply: ReplyView| probe_next(probe, reply), replies)
}

/// A look for a folder is over after two replies at most. It finds the
/// folder exactly when something exists at the path and it is a directory.
/// It only asks questions, so it creates nothing, and it has no way to fail.
pub proof fn lemma_probe_result(path: Seq<char>, replies: Seq<ReplyView>)
    requires
        replies.len() >= 2,
    ensures
        probe_run(path, replies) == StepView::<ProbeView, bool>::Done(
            replies[0].ok && replies[1].ok,
        ),
        probe_asked(path, replies) == if replies[0].ok {
            seq![EffectView::CheckExists(path), EffectView::CheckIsDir(path)]
        } else {
            seq![EffectView::CheckExists(path)]
        },
{
    let next = |probe: ProbeView, reply: ReplyView| probe_next(probe, reply);
    let first = probe_first(path);
    let two = seq![replies[0], replies[1]];
    assert(run(first, next, two) == StepView::<ProbeView, bool>::Done(
        replies[0].ok && replies[1].ok,
    )) by {
        reveal_with_fuel(run, 3);
    }
    assert(asked(first, next, two) =~= if replies[0].ok {
        seq![EffectView::CheckExists(path), EffectView::CheckIsDir(path)]
    } else {
        seq![EffectView::CheckExists(path)]
    }) by {
        reveal_with_fuel(asked, 3);
    }
    assert(replies =~= two + replies.skip(2));
    lemma_done_is_final(first, next, two, replies.skip(2));
}

/// The step that the showing of the folder at `path` has reached after the
/// host's `replies`.
pub open spec fn opening_run(path: Seq<char>, platform: Platform, replies: Seq<ReplyView>) -> StepView<
    OpeningView,
    Result<(), AppErrorView>,
> {
    run(
        opening_first(path, platform),
        |opening: OpeningView, reply: ReplyView| opening_next(opening, reply),
        replies,
    )
}

/// The requests that the showing of the folder at `path` makes while the
/// host replies with `replies`.
pub open spec fn opening_asked(path: Seq<char>, platform: Platform, replies: Seq<ReplyView>) -> Seq<
    EffectView,
> {
    asked(
        opening_first(path, platform),
        |opening: OpeningView, reply: ReplyView| opening_next(opening, reply),
        replies,
    )
}

/// What the showing of a folder comes to, from the host's answers: whether
/// the folder exists, and whether the file manager could be started.
pub open spec fn opening_result(platform: Platform, exists: bool, launched: bool) -> Result<
    (),
    AppErrorView,
> {
    if !exists {
        Err(absent_folder_error())
    } else if launcher_name(platform) is Some && !launched {
        Err(launch_error(platform))
    } else {
        Ok(())
    }
}

/// The requests of the showing of a folder, as far as the host's answer lets
/// it come: the file manager is asked for only when the folder exists.
pub open spec fn opening_requests(path: Seq<char>, platform: Platform, exists: bool) -> Seq<
    EffectView,
> {
    match launcher_name(platform) {
        Some(program) if exists => seq![
            EffectView::CheckExists(path),
            EffectView::Launch { program, argument: path },
        ],
        _ => seq![EffectView::CheckExists(path)],
    }
}

/// The showing of a folder is over after two replies at most. It fails with
/// an invalid path when nothing exists there, and with a file-system error
/// when the platform's file manager could not be started; otherwise it
/// succeeds as soon as the file manager is started. The file manager is
/// started on the path as its only argument, and only for a folder that
/// exists.
pub proof fn lemma_opening_result(path: Seq<char>, platform: Platform, replies: Seq<ReplyView>)
    requires
        replies.len() >= 2,
    ensures
        opening_run(path, platform, replies) == StepView::<
            OpeningView,
            Result<(), AppErrorView>,
        >::Done(opening_result(platform, replies[0].ok, replies[1].ok)),
        opening_asked(path, platform, replies) == opening_requests(path, platform, replies[0].ok),
{
    let next = |opening: OpeningView, reply: ReplyView| opening_next(opening, reply);
    let first = opening_first(path, platform);
    let two = seq![replies[0], replies[1]];
    assert(run(first, next, two) == StepView::<OpeningView, Result<(), AppErrorView>>::Done(
        opening_result(platform, replies[0].ok, replies[1].ok),
    )) by {
        reveal_with_fuel(run, 3);
    }
    assert(asked(first, next, two) =~= opening_requests(path, platform, replies[0].ok)) by {
        reveal_with_fuel(asked, 3);
    }
    assert(replies =~= two + replies.skip(2));
    lemma_done_is_final(first, next, two, replies.skip(2));
}

} // verus!
