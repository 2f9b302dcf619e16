//! The operations that the program's surfaces invoke, and the one settings
//! record that they share.
//!
//! The record lives in a [`SettingsStore`]. Operations that only read take a
//! copy of it when they begin, so the host need not hold the store while it
//! works on the file system. The record changes in one way only: a
//! [`SaveRequest`] that has run to success puts the whole new record in its
//! place.

use crate::date::{local_today, CalendarDate, DateView};
use crate::error::{AppError, AppErrorView};
use crate::folder::{
    creation_first,
    dated_path,
    opening_first,
    opening_next,
    opening_requests,
    opening_result,
    probe_first,
    probe_next,
    FolderCreation,
    FolderManager,
    FolderOpening,
    FolderProbe,
    OpeningView,
    Platform,
    ProbeView,
};
use crate::host::{
    asked,
    lemma_done_is_final,
    run,
    EffectView,
    Outcome,
    Reply,
    ReplyView,
    Step,
    StepView,
};
use crate::settings::{
    save_first,
    save_next,
    save_requests,
    save_result,
    AppSettings,
    SaveView,
    SettingsSave,
    SettingsView,
};
use crate::text::optional_text;
use vstd::prelude::*;

verus! {

/// Whether today's folder is there, and where it lies.
#[derive(Debug, Clone, PartialEq, Eq)]
pub struct FolderStatus {
    pub exists: bool,
    pub path: String,
}

/// The mathematical content of a [`FolderStatus`].
pub struct StatusView {
    pub exists: bool,
    pub path: Seq<char>,
}

impl View for FolderStatus {
    type V = StatusView;

    open spec fn view(&self) -> StatusView {
        StatusView { exists: self.exists, path: self.path@ }
    }
}

impl Outcome for FolderStatus {
    type Model = StatusView;

    open spec fn model(&self) -> StatusView {
        self@
    }
}

/// The holder of the one live settings record.
#[derive(Debug)]
pub struct SettingsStore {
    live: AppSettings,
}

impl View for SettingsStore {
    type V = SettingsView;

    closed spec fn view(&self) -> SettingsView {
        self.live@
    }
}

impl SettingsStore {
    /// A store that holds `settings`.
    pub fn new(settings: AppSettings) -> (store: SettingsStore)
        ensures
            store@ == settings@,
    {
        SettingsStore { live: settings }
    }

    /// A copy of the live record, whole.
    pub fn get_shared(&self) -> (settings: AppSettings)
        ensures
            settings@ == self@,
    {
        AppSettings {
            folder_path: self.live.folder_path.clone(),
            date_format: self.live.date_format,
            auto_start: self.live.auto_start,
            auto_create_on_startup: self.live.auto_create_on_startup,
        }
    }

    fn replace_shared(&mut self, record: AppSettings)
        ensures
            final(self)@ == record@,
    {
        self.live = record;
    }
}

/// A request to save a new record and make it the live one, in progress.
#[derive(Debug, Clone, PartialEq, Eq)]
pub struct SaveRequest {
    save: SettingsSave,
    record: AppSettings,
}

/// The mathematical content of a [`SaveRequest`]: how far the saving has
/// come, and the record to make live.
pub struct SaveRequestView {
    pub save: SaveView,
    pub record: SettingsView,
}

impl View for SaveRequest {
    type V = SaveRequestView;

    closed spec fn view(&self) -> SaveRequestView {
        SaveRequestView { save: self.save@, record: self.record@ }
    }
}

/// A step of saving `record`, seen as a step of the request.
pub open spec fn request_step(
    step: StepView<SaveView, Result<(), AppErrorView>>,
    record: SettingsView,
) -> StepView<SaveRequestView, Result<(), AppErrorView>> {
    match step {
        StepView::Ask(save, effect) => StepView::Ask(SaveRequestView { save, record }, effect),
        StepView::Done(result) => StepView::Done(result),
    }
}

/// The first step of a request to save `record`.
pub open spec fn request_first(record: SettingsView) -> StepView<
    SaveRequestView,
    Result<(), AppErrorView>,
> {
    request_step(save_first(record), record)
}

/// The step that follows a reply.
pub open spec fn request_next(request: SaveRequestView, reply: ReplyView) -> StepView<
    SaveRequestView,
    Result<(), AppErrorView>,
> {
    request_step(save_next(request.save, reply), request.record)
}

/// The live record after a step of a request for `record`: the new record
/// once the request has succeeded, the old one at every other moment.
pub open spec fn live_after(
    step: StepView<SaveRequestView, Result<(), AppErrorView>>,
    before: SettingsView,
    record: SettingsView,
) -> SettingsView {
    match step {
        StepView::Done(Ok(_)) => record,
        _ => before,
    }
}

impl SaveRequest {
    fn wrap(step: Step<SettingsSave, Result<(), AppError>>, record: AppSettings) -> (next: Step<
        SaveRequest,
        Result<(), AppError>,
    >)
        ensures
            next@ == request_step(step@, record@),
    {
        match step {
            Step::Ask(save, effect) => Step::Ask(SaveRequest { save, record }, effect),
            Step::Done(result) => Step::Done(result),
        }
    }

    /// Continues the request with the host's reply to the last request. The
    /// store is written once at most, when the record has been persisted, and
    /// then with the whole record.
    pub fn resume(self, reply: &Reply, store: &mut SettingsStore) -> (step: Step<
        SaveRequest,
        Result<(), AppError>,
    >)
        ensures
            step@ == request_next(self@, reply@),
            final(store)@ == live_after(step@, old(store)@, self@.record),
    {
        let SaveRequest { save, record } = self;
        match save.resume(reply) {
            Step::Ask(save, effect) => Step::Ask(SaveRequest { save, record }, effect),
            Step::Done(Ok(done)) => {
                store.replace_shared(record);
                Step::Done(Ok(done))
            },
            Step::Done(Err(error)) => Step::Done(Err(error)),
        }
    }
}

/// A question after today's folder, in progress.
#[derive(Debug, Clone, PartialEq, Eq)]
pub struct StatusQuery {
    probe: FolderProbe,
    path: String,
}

/// The mathematical content of a [`StatusQuery`].
pub struct StatusQueryView {
    pub probe: ProbeView,
    pub path: Seq<char>,
}

impl View for StatusQuery {
    type V = StatusQueryView;

    closed spec fn view(&self) -> StatusQueryView {
        StatusQueryView { probe: self.probe@, path: self.path@ }
    }
}

/// A step of the look for the folder at `path`, seen as a step of the
/// question after it.
pub open spec fn status_step(step: StepView<ProbeView, bool>, path: Seq<char>) -> StepView<
    StatusQueryView,
    StatusView,
> {
    match step {
        StepView::Ask(probe, effect) => StepView::Ask(StatusQueryView { probe, path }, effect),
        StepView::Done(exists) => StepView::Done(StatusView { exists, path }),
    }
}

/// The first step of the question after the folder at `path`.
pub open spec fn status_first(path: Seq<char>) -> StepView<StatusQueryView, StatusView> {
    status_step(probe_first(path), path)
}

/// The step that follows a reply.
pub open spec fn status_next(query: StatusQueryView, reply: ReplyView) -> StepView<
    StatusQueryView,
    StatusView,
> {
    status_step(probe_next(query.probe, reply), query.path)
}

impl StatusQuery {
    fn wrap(step: Step<FolderProbe, bool>, path: String) -> (next: Step<StatusQuery, FolderStatus>)
        ensures
            next@ == status_step(step@, path@),
    {
        match step {
            Step::Ask(probe, effect) => Step::Ask(StatusQuery { probe, path }, effect),
            Step::Done(exists) => Step::Done(FolderStatus { exists, path }),
        }
    }

    /// Continues the question with the host's reply to the last request.
    pub fn resume(self, reply: &Reply) -> (step: Step<StatusQuery, FolderStatus>)
        ensures
            step@ == status_next(self@, reply@),
    {
        let StatusQuery { probe, path } = self;
        Self::wrap(probe.resume(reply), path)
    }
}

/// A request to show a folder, in progress.
#[derive(Debug, Clone, PartialEq, Eq)]
pub struct OpenRequest {
    state: OpenState,
}

#[derive(Debug, Clone, PartialEq, Eq)]
enum OpenState {
    Choosing { probe: FolderProbe, today: String, base: String, platform: Platform },
    Opening { opening: FolderOpening },
}

/// The mathematical content of an [`OpenRequest`].
pub enum OpenRequestView {
    /// No path was given: today's folder is looked for, to show it if it is
    /// there and the base path if it is not.
    Choosing { probe: ProbeView, today: Seq<char>, base: Seq<char>, platform: Platform },
    /// The folder to show is known and is being shown.
    Opening { opening: OpeningView },
}

impl View for OpenRequest {
    type V = OpenRequestView;

    closed spec fn view(&self) -> OpenRequestView {
        match self.state {
            OpenState::Choosing { probe, today, base, platform } => OpenRequestView::Choosing {
                probe: probe@,
                today: today@,
                base: base@,
                platform,
            },
            OpenState::Opening { opening } => OpenRequestView::Opening { opening: opening@ },
        }
    }
}

/// A step of showing a folder, seen as a step of the request.
pub open spec fn open_showing(step: StepView<OpeningView, Result<(), AppErrorView>>) -> StepView<
    OpenRequestView,
    Result<(), AppErrorView>,
> {
    match step {
        StepView::Ask(opening, effect) => StepView::Ask(
            OpenRequestView::Opening { opening },
            effect,
        ),
        StepView::Done(result) => StepView::Done(result),
    }
}

/// A step of the look for today's folder, seen as a step of the request:
/// when the look is over, today's folder is shown if it is there, and the
/// base path if it is not.
pub open spec fn open_choosing(
    step: StepView<ProbeView, bool>,
    today: Seq<char>,
    base: Seq<char>,
    platform: Platform,
) -> StepView<OpenRequestView, Result<(), AppErrorView>> {
    match step {
        StepView::Ask(probe, effect) => StepView::Ask(
            OpenRequestView::Choosing { probe, today, base, platform },
            effect,
        ),
        StepView::Done(found) => open_showing(
            opening_first(
                if found {
                    today
                } else {
                    base
                },
                platform,
            ),
        ),
    }
}

/// The first step of a request: a path that was given is shown; without one
/// the choice between today's folder and the base path begins.
pub open spec fn open_first(
    path: Option<Seq<char>>,
    settings: SettingsView,
    today: DateView,
    platform: Platform,
) -> StepView<OpenRequestView, Result<(), AppErrorView>> {
    match path {
        Some(given) => open_showing(opening_first(given, platform)),
        None => open_choosing(
            probe_first(dated_path(settings, today)),
            dated_path(settings, today),
            settings.folder_path,
            platform,
        ),
    }
}

/// The step that follows a reply.
pub open spec fn open_next(request: OpenRequestView, reply: ReplyView) -> StepView<
    OpenRequestView,
    Result<(), AppErrorView>,
> {
    match request {
        OpenRequestView::Choosing { probe, today, base, platform } => open_choosing(
            probe_next(probe, reply),
            today,
            base,
            platform,
        ),
        OpenRequestView::Opening { opening } => open_showing(opening_next(opening, reply)),
    }
}

impl OpenRequest {
    fn showing(step: Step<FolderOpening, Result<(), AppError>>) -> (next: Step<
        OpenRequest,
        Result<(), AppError>,
    >)
        ensures
            next@ == open_showing(step@),
    {
        match step {
            Step::Ask(opening, effect) => Step::Ask(
                OpenRequest { state: OpenState::Opening { opening } },
                effect,
            ),
            Step::Done(result) => Step::Done(result),
        }
    }

    fn choosing(step: Step<FolderProbe, bool>, today: String, base: String, platform: Platform) -> (next:
        Step<OpenRequest, Result<(), AppError>>)
        ensures
            next@ == open_choosing(step@, today@, base@, platform),
    {
        match step {
            Step::Ask(probe, effect) => Step::Ask(
                OpenRequest { state: OpenState::Choosing { probe, today, base, platform } },
                effect,
            ),
            Step::Done(found) => {
                let target = if found {
                    today
                } else {
                    base
                };
                Self::showing(FolderOpening::start(target, platform))
            },
        }
    }

    /// Continues the request with the host's reply to the last request.
    pub fn resume(self, reply: &Reply) -> (step: Step<OpenRequest, Result<(), AppError>>)
        ensures
            step@ == open_next(self@, reply@),
    {
        match self.state {
            OpenState::Choosing { probe, today, base, platform } => Self::choosing(
                probe.resume(reply),
                today,
                base,
                platform,
            ),
            OpenState::Opening { opening } => Self::showing(opening.resume(reply)),
        }
    }
}

/// Begins the creation of today's folder under the live settings, for the day
/// that the clock shows at the call.
pub fn create_today_folder(store: &SettingsStore) -> (step: Step<
    FolderCreation,
    Result<String, AppError>,
>)
    ensures
        exists|today: DateView| today.valid() && step@ == creation_first(store@, today),
{
    let settings = store.get_shared();
    FolderManager::create_today_folder(&settings)
}

/// Begins a request to show a folder: the one at `path` if a path is given,
/// else today's folder if it is there, else the base path of the live
/// settings. Today is the day that the clock shows at the call.
pub fn open_folder_in_explorer(path: Option<String>, store: &SettingsStore, platform: Platform) -> (step:
    Step<OpenRequest, Result<(), AppError>>)
    ensures
        exists|today: DateView|
            today.valid() && step@ == open_first(optional_text(path), store@, today, platform),
{
    let today = local_today();
    let ghost given = optional_text(path);
    let step = match path {
        Some(given) => OpenRequest::showing(FolderOpening::start(given, platform)),
        None => {
            let settings = store.get_shared();
            let target = FolderManager::path_for_date(&settings, &today);
            OpenRequest::choosing(
                FolderProbe::start(target.clone()),
                target,
                settings.folder_path,
                platform,
            )
        },
    };
    assert(today@.valid() && step@ == open_first(given, store@, today@, platform));
    step
}

/// Begins a request to save `record` and make it the live record.
pub fn save_settings(record: AppSettings) -> (step: Step<SaveRequest, Result<(), AppError>>)
    ensures
        step@ == request_first(record@),
{
    let first = record.save();
    SaveRequest::wrap(first, record)
}

/// Begins a question after the folder for `date` under the live settings.
pub fn get_folder_status_for_date(store: &SettingsStore, date: &CalendarDate) -> (step: Step<
    StatusQuery,
    FolderStatus,
>)
    ensures
        step@ == status_first(dated_path(store@, date@)),
{
    let settings = store.get_shared();
    let path = FolderManager::path_for_date(&settings, date);
    StatusQuery::wrap(FolderProbe::start(path.clone()), path)
}

/// Begins a question after today's folder under the live settings, for the
/// day that the clock shows at the call.
pub fn get_today_folder_status(store: &SettingsStore) -> (step: Step<StatusQuery, FolderStatus>)
    ensures
        exists|today: DateView|
            today.valid() && step@ == status_first(dated_path(store@, today)),
{
    let today = local_today();
    let step = get_folder_status_for_date(store, &today);
    assert(today@.valid() && step@ == status_first(dated_path(store@, today@)));
    step
}

/// The step that a request to save `record` has reached after the host's
/// `replies`.
pub open spec fn request_run(record: SettingsView, replies: Seq<ReplyView>) -> StepView<
    SaveRequestView,
    Result<(), AppErrorView>,
> {
    run(
        request_first(record),
        |request: SaveRequestView, reply: ReplyView| request_next(request, reply),
        replies,
    )
}

/// The requests that a request to save `record` makes of the host while the
/// host replies with `replies`.
pub open spec fn request_asked(record: SettingsView, replies: Seq<ReplyView>) -> Seq<EffectView> {
    asked(
        request_first(record),
        |request: SaveRequestView, reply: ReplyView| request_next(request, reply),
        replies,
    )
}

/// The live record and the persisted record do not come apart. A request to
/// save a record ends as the saving of that record ends, after five replies
/// at most, and it makes the record live exactly when the base path has
/// passed its check and the host has persisted the record; on every failure
/// the record that was live stays live, whole.
pub proof fn lemma_request_result(
    before: SettingsView,
    record: SettingsView,
    replies: Seq<ReplyView>,
)
    requires
        replies.len() >= 5,
    ensures
        request_run(record, replies) == StepView::<
            SaveRequestView,
            Result<(), AppErrorView>,
        >::Done(save_result(replies[0].ok, replies[1].ok, replies[2].ok, replies[4])),
        request_asked(record, replies) == save_requests(
            record,
            replies[0].ok,
            replies[1].ok,
            replies[2].ok,
        ),
        live_after(request_run(record, replies), before, record) == if replies[0].ok
            && replies[1].ok && replies[2].ok && replies[4].ok {
            record
        } else {
            before
        },
{
    let next = |request: SaveRequestView, reply: ReplyView| request_next(request, reply);
    let first = request_first(record);
    let five = seq![replies[0], replies[1], replies[2], replies[3], replies[4]];
    assert(run(first, next, five) == StepView::<SaveRequestView, Result<(), AppErrorView>>::Done(
        save_result(replies[0].ok, replies[1].ok, replies[2].ok, replies[4]),
    )) by {
        reveal_with_fuel(run, 6);
    }
    assert(asked(first, next, five) =~= save_requests(
        record,
        replies[0].ok,
        replies[1].ok,
        replies[2].ok,
    )) by {
        reveal_with_fuel(asked, 6);
    }
    assert(replies =~= five + replies.skip(5));
    lemma_done_is_final(first, next, five, replies.skip(5));
}

/// Readers never see a record that is neither the old nor the new one: after
/// any replies whatever, the live record is one of the two, whole, and it is
/// the old one for as long as the request is under way.
pub proof fn lemma_live_record_is_whole(
    before: SettingsView,
    record: SettingsView,
    replies: Seq<ReplyView>,
)
    ensures
        live_after(request_run(record, replies), before, record) == before || live_after(
            request_run(record, replies),
            before,
            record,
        ) == record,
        request_run(record, replies) is Ask ==> live_after(
            request_run(record, replies),
            before,
            record,
        ) == before,
{
}

/// The step that the question after the folder at `path` has reached after
/// the host's `replies`.
pub open spec fn status_run(path: Seq<char>, replies: Seq<ReplyView>) -> StepView<
    StatusQueryView,
    StatusView,
> {
    run(
        status_first(path),
        |query: StatusQueryView, reply: ReplyView| status_next(query, reply),
        replies,
    )
}

/// The question after a folder is over after two replies at most. It answers
/// with the path that was asked about, and says that the folder exists
/// exactly when something is at the path and it is a directory.
pub proof fn lemma_status_result(path: Seq<char>, replies: Seq<ReplyView>)
    requires
        replies.len() >= 2,
    ensures
        status_run(path, replies) == StepView::<StatusQueryView, StatusView>::Done(
            StatusView { exists: replies[0].ok && replies[1].ok, path },
        ),
{
    let next = |query: StatusQueryView, reply: ReplyView| status_next(query, reply);
    let first = status_first(path);
    let two = seq![replies[0], replies[1]];
    assert(run(first, next, two) == StepView::<StatusQueryView, StatusView>::Done(
        StatusView { exists: replies[0].ok && replies[1].ok, path },
    )) by {
        reveal_with_fuel(run, 3);
    }
    assert(replies =~= two + replies.skip(2));
    lemma_done_is_final(first, next, two, replies.skip(2));
}

/// The step that a request to show a folder has reached after the host's
/// `replies`.
pub open spec fn open_run(
    path: Option<Seq<char>>,
    settings: SettingsView,
    today: DateView,
    platform: Platform,
    replies: Seq<ReplyView>,
) -> StepView<OpenRequestView, Result<(), AppErrorView>> {
    run(
        open_first(path, settings, today, platform),
        |request: OpenRequestView, reply: ReplyView| open_next(request, reply),
        replies,
    )
}

/// The requests that a request to show a folder makes while the host replies
/// with `replies`.
pub open spec fn open_asked(
    path: Option<Seq<char>>,
    settings: SettingsView,
    today: DateView,
    platform: Platform,
    replies: Seq<ReplyView>,
) -> Seq<EffectView> {
    asked(
        open_first(path, settings, today, platform),
        |request: OpenRequestView, reply: ReplyView| open_next(request, reply),
        replies,
    )
}

/// A request to show a given path shows that path, and ends as the showing
/// of that path ends.
pub proof fn lemma_open_given_path(
    path: Seq<char>,
    settings: SettingsView,
    today: DateView,
    platform: Platform,
    replies: Seq<ReplyView>,
)
    requires
        replies.len() >= 2,
    ensures
        open_run(Some(path), settings, today, platform, replies) == StepView::<
            OpenRequestView,
            Result<(), AppErrorView>,
        >::Done(opening_result(platform, replies[0].ok, replies[1].ok)),
        open_asked(Some(path), settings, today, platform, replies) == opening_requests(
            path,
            platform,
            replies[0].ok,
        ),
{
    let next = |request: OpenRequestView, reply: ReplyView| open_next(request, reply);
    let first = open_first(Some(path), settings, today, platform);
    let two = seq![replies[0], replies[1]];
    assert(run(first, next, two) == StepView::<OpenRequestView, Result<(), AppErrorView>>::Done(
        opening_result(platform, replies[0].ok, replies[1].ok),
    )) by {
        reveal_with_fuel(run, 3);
    }
    assert(asked(first, next, two) =~= opening_requests(path, platform, replies[0].ok)) by {
        reveal_with_fuel(asked, 3);
    }
    assert(replies =~= two + replies.skip(2));
    lemma_done_is_final(first, next, two, replies.skip(2));
}

/// A request to show a folder without a path, when nothing exists at today's
/// dated path, shows the base path of the settings.
pub proof fn lemma_open_base_path_when_nothing_is_there(
    settings: SettingsView,
    today: DateView,
    platform: Platform,
    replies: Seq<ReplyView>,
)
    requires
        replies.len() >= 3,
        !replies[0].ok,
    ensures
        open_run(None, settings, today, platform, replies) == StepView::<
            OpenRequestView,
            Result<(), AppErrorView>,
        >::Done(opening_result(platform, replies[1].ok, replies[2].ok)),
        open_asked(None, settings, today, platform, replies) == seq![
            EffectView::CheckExists(dated_path(settings, today)),
        ] + opening_requests(settings.folder_path, platform, replies[1].ok),
{
    let next = |request: OpenRequestView, reply: ReplyView| open_next(request, reply);
    let first = open_first(None, settings, today, platform);
    let three = seq![replies[0], replies[1], replies[2]];
    assert(run(first, next, three) == StepView::<OpenRequestView, Result<(), AppErrorView>>::Done(
        opening_result(platform, replies[1].ok, replies[2].ok),
    )) by {
        reveal_with_fuel(run, 4);
    }
    assert(asked(first, next, three) =~= seq![
        EffectView::CheckExists(dated_path(settings, today)),
    ] + opening_requests(settings.folder_path, platform, replies[1].ok)) by {
        reveal_with_fuel(asked, 4);
    }
    assert(replies =~= three + replies.skip(3));
    lemma_done_is_final(first, next, three, replies.skip(3));
}

/// A request to show a folder without a path, when something exists at
/// today's dated path, shows today's folder if what is there is a directory,
/// and the base path of the settings if it is not.
pub proof fn lemma_open_todays_folder_when_it_is_there(
    settings: SettingsView,
    today: DateView,
    platform: Platform,
    replies: Seq<ReplyView>,
)
    requires
        replies.len() >= 4,
        replies[0].ok,
    ensures
        open_run(None, settings, today, platform, replies) == StepView::<
            OpenRequestView,
            Result<(), AppErrorView>,
        >::Done(opening_result(platform, replies[2].ok, replies[3].ok)),
        open_asked(None, settings, today, platform, replies) == seq![
            EffectView::CheckExists(dated_path(settings, today)),
            EffectView::CheckIsDir(dated_path(settings, today)),
        ] + opening_requests(
            if replies[1].ok {
                dated_path(settings, today)
            } else {
                settings.folder_path
            },
            platform,
            replies[2].ok,
        ),
{
    let next = |request: OpenRequestView, reply: ReplyView| open_next(request, reply);
    let first = open_first(None, settings, today, platform);
    let four = seq![replies[0], replies[1], replies[2], replies[3]];
    assert(run(first, next, four) == StepView::<OpenRequestView, Result<(), AppErrorView>>::Done(
        opening_result(platform, replies[2].ok, replies[3].ok),
    )) by {
        reveal_with_fuel(run, 5);
    }
    assert(asked(first, next, four) =~= seq![
        EffectView::CheckExists(dated_path(settings, today)),
        EffectView::CheckIsDir(dated_path(settings, today)),
    ] + opening_requests(
        if replies[1].ok {
            dated_path(settings, today)
        } else {
            settings.folder_path
        },
        platform,
        replies[2].ok,
    )) by {
        reveal_with_fuel(asked, 5);
    }
    assert(replies =~= four + replies.skip(4));
    lemma_done_is_final(first, next, four, replies.skip(4));
}

} // verus!
