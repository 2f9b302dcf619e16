//! The settings record, its defaults and its persisted form, and the ways a
//! date becomes a folder name.

use crate::date::{
    format_with_pattern,
    is_plain,
    iso_date_text,
    lemma_date_text_is_plain,
    month_day_text,
    CalendarDate,
    DateView,
};
use crate::error::{AppError, AppErrorView, ErrorType};
use crate::host::{
    asked,
    lemma_done_is_final,
    run,
    Effect,
    EffectView,
    Outcome,
    Reply,
    ReplyView,
    Step,
    StepView,
};
use crate::text::{optional_text, same_text};
use crate::validation::{
    check_first,
    check_next,
    check_requests,
    check_verdict,
    CheckSubject,
    PathCheck,
    PathCheckView,
};
use vstd::prelude::*;

verus! {

/// How a date is written as a folder name.
#[derive(Debug, Clone, Copy, PartialEq, Eq, Structural)]
pub enum DateFormat {
    /// Month and day, four digits: `0315`.
    MMDD,
    /// Year, month and day with hyphens: `2024-03-15`.
    YYYYMMDD,
}

/// The folder name of `date` under `format`.
pub open spec fn formatted(format: DateFormat, date: DateView) -> Seq<char> {
    match format {
        DateFormat::MMDD => month_day_text(date),
        DateFormat::YYYYMMDD => iso_date_text(date),
    }
}

/// The word that stands for a format in the persisted document.
pub open spec fn format_name(format: DateFormat) -> Seq<char> {
    match format {
        DateFormat::MMDD => "MMDD"@,
        DateFormat::YYYYMMDD => "YYYYMMDD"@,
    }
}

/// The format that a word of the persisted document stands for, if any.
pub open spec fn format_named(name: Seq<char>) -> Option<DateFormat> {
    if name == "MMDD"@ {
        Some(DateFormat::MMDD)
    } else if name == "YYYYMMDD"@ {
        Some(DateFormat::YYYYMMDD)
    } else {
        None
    }
}

impl DateFormat {
    /// The folder name of `date`: digits and hyphens only, fixed by the fields
    /// of the date and by nothing else.
    pub fn format_date(&self, date: &CalendarDate) -> (name: String)
        ensures
            name@ == formatted(*self, date@),
    {
        proof {
            use_type_invariant(date);
            reveal_strlit("%m%d");
            reveal_strlit("%Y-%m-%d");
        }
        match self {
            DateFormat::MMDD => format_with_pattern(date, "%m%d"),
            DateFormat::YYYYMMDD => format_with_pattern(date, "%Y-%m-%d"),
        }
    }

    /// The word that stands for this format in the persisted document.
    pub fn name(&self) -> (name: &'static str)
        ensures
            name@ == format_name(*self),
    {
        match self {
            DateFormat::MMDD => "MMDD",
            DateFormat::YYYYMMDD => "YYYYMMDD",
        }
    }

    /// Reads a format from its word; any other word gives `None`.
    pub fn from_name(name: &str) -> (format: Option<DateFormat>)
        ensures
            format == format_named(name@),
    {
        if same_text(name, "MMDD") {
            Some(DateFormat::MMDD)
        } else if same_text(name, "YYYYMMDD") {
            Some(DateFormat::YYYYMMDD)
        } else {
            None
        }
    }
}

/// The one settings record: where the dated folders go, how they are named,
/// and what happens at startup.
#[derive(Debug, Clone, PartialEq, Eq)]
pub struct AppSettings {
    /// The directory under which the dated folders are made.
    pub folder_path: String,
    pub date_format: DateFormat,
    /// Whether the program asks to be launched at login.
    pub auto_start: bool,
    /// Whether today's folder is made when the program starts.
    pub auto_create_on_startup: bool,
}

/// The mathematical content of an [`AppSettings`].
pub struct SettingsView {
    pub folder_path: Seq<char>,
    pub date_format: DateFormat,
    pub auto_start: bool,
    pub auto_create_on_startup: bool,
}

impl View for AppSettings {
    type V = SettingsView;

    open spec fn view(&self) -> SettingsView {
        SettingsView {
            folder_path: self.folder_path@,
            date_format: self.date_format,
            auto_start: self.auto_start,
            auto_create_on_startup: self.auto_create_on_startup,
        }
    }
}

/// The settings as they are persisted: a flat document of four entries, the
/// date format written as a word.
#[derive(Debug, Clone, PartialEq, Eq)]
pub struct SettingsDocument {
    pub folder_path: String,
    pub date_format: String,
    pub auto_start: bool,
    pub auto_create_on_startup: bool,
}

/// The mathematical content of a [`SettingsDocument`].
pub struct DocumentView {
    pub folder_path: Seq<char>,
    pub date_format: Seq<char>,
    pub auto_start: bool,
    pub auto_create_on_startup: bool,
}

impl View for SettingsDocument {
    type V = DocumentView;

    open spec fn view(&self) -> DocumentView {
        DocumentView {
            folder_path: self.folder_path@,
            date_format: self.date_format@,
            auto_start: self.auto_start,
            auto_create_on_startup: self.auto_create_on_startup,
        }
    }
}

/// The record that is used when nothing was persisted yet: the dated folders
/// go to the desktop, or to `.` where no desktop is known.
pub open spec fn default_record(desktop: Option<Seq<char>>) -> SettingsView {
    SettingsView {
        folder_path: match desktop {
            Some(path) => path,
            None => "."@,
        },
        date_format: DateFormat::YYYYMMDD,
        auto_start: true,
        auto_create_on_startup: true,
    }
}

/// The document that persists a record.
pub open spec fn document_of(settings: SettingsView) -> DocumentView {
    DocumentView {
        folder_path: settings.folder_path,
        date_format: format_name(settings.date_format),
        auto_start: settings.auto_start,
        auto_create_on_startup: settings.auto_create_on_startup,
    }
}

/// The record that a document persists, if its date format is a known word.
pub open spec fn record_of(document: DocumentView) -> Option<SettingsView> {
    match format_named(document.date_format) {
        Some(format) => Some(
            SettingsView {
                folder_path: document.folder_path,
                date_format: format,
                auto_start: document.auto_start,
                auto_create_on_startup: document.auto_create_on_startup,
            },
        ),
        None => None,
    }
}

/// The error for a document that persists no record.
pub open spec fn malformed_document() -> AppErrorView {
    AppErrorView { message: "配置文件格式错误"@, error_type: ErrorType::Configuration }
}

/// The error for a place of the settings that the host could not name.
pub open spec fn unlocated_error() -> AppErrorView {
    AppErrorView { message: "无法获取配置目录"@, error_type: ErrorType::Configuration }
}

/// The error for persisted settings that could not be read.
pub open spec fn unreadable_error() -> AppErrorView {
    AppErrorView { message: "无法读取配置文件"@, error_type: ErrorType::Configuration }
}

/// The error for settings that the host could not persist; `detail` is the
/// host's account of the failure.
pub open spec fn persist_error(detail: Seq<char>) -> AppErrorView {
    AppErrorView { message: detail, error_type: ErrorType::Configuration }
}

/// What the host found at the place where the settings are kept.
#[derive(Debug, Clone, PartialEq, Eq)]
pub enum StoredSettings {
    /// The host could not tell where the settings are kept.
    Unlocated,
    /// Nothing was persisted yet.
    Absent,
    /// Something is there and could not be read.
    Unreadable,
    /// Something was read and is no settings document.
    Malformed,
    /// A settings document.
    Found(SettingsDocument),
}

/// Settings that were loaded.
#[derive(Debug, Clone, PartialEq, Eq)]
pub enum Loaded {
    /// The record that was persisted.
    Stored(AppSettings),
    /// The default record, made because nothing was persisted. The host
    /// persists it before it is used.
    Fresh(AppSettings),
}

/// The mathematical content of a [`Loaded`].
pub enum LoadedView {
    Stored(SettingsView),
    Fresh(SettingsView),
}

impl View for Loaded {
    type V = LoadedView;

    open spec fn view(&self) -> LoadedView {
        match self {
            Loaded::Stored(settings) => LoadedView::Stored(settings@),
            Loaded::Fresh(settings) => LoadedView::Fresh(settings@),
        }
    }
}

impl Outcome for Result<Loaded, AppError> {
    type Model = Result<LoadedView, AppErrorView>;

    open spec fn model(&self) -> Result<LoadedView, AppErrorView> {
        match self {
            Ok(loaded) => Ok(loaded@),
            Err(error) => Err(error@),
        }
    }
}

/// The saving of a record, in progress.
#[derive(Debug, Clone, PartialEq, Eq)]
pub struct SettingsSave {
    state: SaveState,
}

#[derive(Debug, Clone, PartialEq, Eq)]
enum SaveState {
    Validating { check: PathCheck, document: SettingsDocument },
    Persisting,
}

/// The mathematical content of a [`SettingsSave`].
pub enum SaveView {
    /// The base path of the record is being checked.
    Validating { check: PathCheckView, document: DocumentView },
    /// The host was asked to persist the document.
    Persisting,
}

impl View for SettingsSave {
    type V = SaveView;

    closed spec fn view(&self) -> SaveView {
        match self.state {
            SaveState::Validating { check, document } => SaveView::Validating {
                check: check@,
                document: document@,
            },
            SaveState::Persisting => SaveView::Persisting,
        }
    }
}

/// A step of the base path's check, seen as a step of saving `document`: when
/// the check has passed, the host is asked to persist the document.
pub open spec fn save_after_check(
    step: StepView<PathCheckView, Result<(), AppErrorView>>,
    document: DocumentView,
) -> StepView<SaveView, Result<(), AppErrorView>> {
    match step {
        StepView::Ask(check, effect) => StepView::Ask(
            SaveView::Validating { check, document },
            effect,
        ),
        StepView::Done(Ok(_)) => StepView::Ask(
            SaveView::Persisting,
            EffectView::PersistSettings(document),
        ),
        StepView::Done(Err(error)) => StepView::Done(Err(error)),
    }
}

/// The first step of saving a record: the check of its base path begins.
pub open spec fn save_first(settings: SettingsView) -> StepView<
    SaveView,
    Result<(), AppErrorView>,
> {
    save_after_check(
        check_first(settings.folder_path, CheckSubject::BasePath),
        document_of(settings),
    )
}

/// The step that follows a reply. Nothing is persisted before the base path
/// has passed its check.
pub open spec fn save_next(save: SaveView, reply: ReplyView) -> StepView<
    SaveView,
    Result<(), AppErrorView>,
> {
    match save {
        SaveView::Validating { check, document } => save_after_check(
            check_next(check, reply),
            document,
        ),
        SaveView::Persisting => if reply.ok {
            StepView::Done(Ok(()))
        } else {
            StepView::Done(Err(persist_error(reply.detail)))
        },
    }
}

/// What loading yields for what the host found.
pub open spec fn load_result(stored: StoredSettings, desktop: Option<Seq<char>>) -> Result<
    LoadedView,
    AppErrorView,
> {
    match stored {
        StoredSettings::Unlocated => Err(unlocated_error()),
        StoredSettings::Absent => Ok(LoadedView::Fresh(default_record(desktop))),
        StoredSettings::Unreadable => Err(unreadable_error()),
        StoredSettings::Malformed => Err(malformed_document()),
        StoredSettings::Found(document) => match record_of(document@) {
            Some(record) => Ok(LoadedView::Stored(record)),
            None => Err(malformed_document()),
        },
    }
}

impl SettingsSave {
    fn after_check(step: Step<PathCheck, Result<(), AppError>>, document: SettingsDocument) -> (next:
        Step<SettingsSave, Result<(), AppError>>)
        ensures
            next@ == save_after_check(step@, document@),
    {
        match step {
            Step::Ask(check, effect) => Step::Ask(
                SettingsSave { state: SaveState::Validating { check, document } },
                effect,
            ),
            Step::Done(Ok(_)) => Step::Ask(
                SettingsSave { state: SaveState::Persisting },
                Effect::PersistSettings(document),
            ),
            Step::Done(Err(error)) => Step::Done(Err(error)),
        }
    }

    /// Continues the saving with the host's reply to the last request.
    pub fn resume(self, reply: &Reply) -> (step: Step<SettingsSave, Result<(), AppError>>)
        ensures
            step@ == save_next(self@, reply@),
    {
        match self.state {
            SaveState::Validating { check, document } => Self::after_check(
                check.resume(reply),
                document,
            ),
            SaveState::Persisting => {
                if reply.ok {
                    Step::Done(Ok(()))
                } else {
                    Step::Done(Err(AppError::configuration(reply.detail.as_str())))
                }
            },
        }
    }
}

/// The user's desktop directory by the `dirs` crate: `dirs::desktop_dir()`, as
/// text. The answer depends on the platform and on the user's environment, so
/// nothing is promised of it.
#[verifier::external_body]
pub(crate) fn desktop_directory() -> (desktop: Option<String>) {
    match dirs::desktop_dir() {
        Some(path) => Some(path.to_string_lossy().to_string()),
        None => None,
    }
}

impl AppSettings {
    /// The default record for a given desktop directory.
    pub fn with_desktop(desktop: Option<String>) -> (settings: AppSettings)
        ensures
            settings@ == default_record(optional_text(desktop)),
    {
        let folder_path = match desktop {
            Some(path) => path,
            None => ".".to_owned(),
        };
        AppSettings {
            folder_path,
            date_format: DateFormat::YYYYMMDD,
            auto_start: true,
            auto_create_on_startup: true,
        }
    }

    /// The document that persists this record.
    pub fn to_document(&self) -> (document: SettingsDocument)
        ensures
            document@ == document_of(self@),
    {
        SettingsDocument {
            folder_path: self.folder_path.clone(),
            date_format: self.date_format.name().to_owned(),
            auto_start: self.auto_start,
            auto_create_on_startup: self.auto_create_on_startup,
        }
    }

    /// Reads a record from its document. It fails, with a configuration
    /// error, exactly when the date format is not one of the known words.
    pub fn from_document(document: &SettingsDocument) -> (settings: Result<AppSettings, AppError>)
        ensures
            match record_of(document@) {
                Some(record) => settings matches Ok(found) && found@ == record,
                None => settings matches Err(error) && error@ == malformed_document(),
            },
    {
        match DateFormat::from_name(document.date_format.as_str()) {
            Some(date_format) => Ok(
                AppSettings {
                    folder_path: document.folder_path.clone(),
                    date_format,
                    auto_start: document.auto_start,
                    auto_create_on_startup: document.auto_create_on_startup,
                },
            ),
            None => Err(AppError::configuration("配置文件格式错误")),
        }
    }

    /// Decides what loading yields from what the host found at the place of
    /// the settings. Where nothing was persisted, the default record is made
    /// for the desktop directory that the platform reports at the call.
    pub fn load(stored: StoredSettings) -> (loaded: Result<Loaded, AppError>)
        ensures
            exists|desktop: Option<Seq<char>>|
                loaded.model() == #[trigger] load_result(stored, desktop),
    {
        let loaded = match stored {
            StoredSettings::Unlocated => Err(AppError::configuration("无法获取配置目录")),
            StoredSettings::Absent => Ok(Loaded::Fresh(AppSettings::default())),
            StoredSettings::Unreadable => Err(AppError::configuration("无法读取配置文件")),
            StoredSettings::Malformed => Err(AppError::configuration("配置文件格式错误")),
            StoredSettings::Found(document) => match AppSettings::from_document(&document) {
                Ok(settings) => Ok(Loaded::Stored(settings)),
                Err(error) => Err(error),
            },
        };
        proof {
            let desktop = match loaded.model() {
                Ok(LoadedView::Fresh(settings)) => choose|desktop: Option<Seq<char>>|
                    settings == default_record(desktop),
                _ => None,
            };
            assert(loaded.model() == load_result(stored, desktop));
        }
        loaded
    }

    /// Begins the saving of this record: its base path is checked, then the
    /// host is asked to persist its document.
    pub fn save(&self) -> (step: Step<SettingsSave, Result<(), AppError>>)
        ensures
            step@ == save_first(self@),
    {
        SettingsSave::after_check(
            PathCheck::start(self.folder_path.as_str(), CheckSubject::BasePath),
            self.to_document(),
        )
    }

    /// Begins the check of this record's base path.
    pub fn validate_path(&self) -> (step: Step<PathCheck, Result<(), AppError>>)
        ensures
            step@ == check_first(self@.folder_path, CheckSubject::BasePath),
    {
        PathCheck::start(self.folder_path.as_str(), CheckSubject::BasePath)
    }
}

impl Default for AppSettings {
    /// The default record for the desktop directory that the platform
    /// reports at the moment of the call.
    fn default() -> (settings: AppSettings)
        ensures
            exists|desktop: Option<Seq<char>>| settings@ == default_record(desktop),
    {
        AppSettings::with_desktop(desktop_directory())
    }
}

/// A folder name holds nothing but digits, hyphens and a sign, whatever the
/// format: it can be told from the date alone, and no locale has a say in it.
pub proof fn lemma_folder_name_is_plain(format: DateFormat, date: DateView)
    requires
        date.valid(),
    ensures
        is_plain(formatted(format, date)),
{
    lemma_date_text_is_plain(date);
}

/// A format is read back from its own word.
pub proof fn lemma_format_name_round_trip(format: DateFormat)
    ensures
        format_named(format_name(format)) == Some(format),
{
    reveal_strlit("MMDD");
    reveal_strlit("YYYYMMDD");
    assert("MMDD"@.len() != "YYYYMMDD"@.len());
}

/// Persisting loses nothing: the document of a record is read back as that
/// same record.
pub proof fn lemma_document_round_trip(settings: SettingsView)
    ensures
        record_of(document_of(settings)) == Some(settings),
{
    lemma_format_name_round_trip(settings.date_format);
}

/// A fresh start repeats itself: where nothing was persisted, loading makes
/// the default record; and once the host has persisted that record's
/// document, loading finds the same record again.
pub proof fn lemma_fresh_record_is_loaded_again(
    desktop: Option<Seq<char>>,
    document: SettingsDocument,
    later: Option<Seq<char>>,
)
    requires
        document@ == document_of(default_record(desktop)),
    ensures
        load_result(StoredSettings::Absent, desktop) == Ok::<LoadedView, AppErrorView>(
            LoadedView::Fresh(default_record(desktop)),
        ),
        load_result(StoredSettings::Found(document), later) == Ok::<LoadedView, AppErrorView>(
            LoadedView::Stored(default_record(desktop)),
        ),
{
    lemma_document_round_trip(default_record(desktop));
}

/// The step that the saving of a record has reached after the host's
/// `replies`.
pub open spec fn save_run(settings: SettingsView, replies: Seq<ReplyView>) -> StepView<
    SaveView,
    Result<(), AppErrorView>,
> {
    run(save_first(settings), |save: SaveView, reply: ReplyView| save_next(save, reply), replies)
}

/// The requests that the saving of a record makes while the host replies
/// with `replies`.
pub open spec fn save_asked(settings: SettingsView, replies: Seq<ReplyView>) -> Seq<EffectView> {
    asked(save_first(settings), |save: SaveView, reply: ReplyView| save_next(save, reply), replies)
}

/// What the saving of a record comes to, from the host's answers to the check
/// of the base path and from how persisting went.
pub open spec fn save_result(exists: bool, is_dir: bool, writable: bool, persisted: ReplyView) -> Result<
    (),
    AppErrorView,
> {
    match check_verdict(CheckSubject::BasePath, exists, is_dir, writable) {
        Err(error) => Err(error),
        Ok(_) => if persisted.ok {
            Ok(())
        } else {
            Err(persist_error(persisted.detail))
        },
    }
}

/// The requests of the saving of a record, as far as the host's answers let
/// it come: the document is handed to the host only when the base path has
/// passed its check.
pub open spec fn save_requests(settings: SettingsView, exists: bool, is_dir: bool, writable: bool) -> Seq<
    EffectView,
> {
    let checks = check_requests(
        settings.folder_path,
        CheckSubject::BasePath,
        exists,
        is_dir,
        writable,
    );
    if exists && is_dir && writable {
        checks + seq![EffectView::PersistSettings(document_of(settings))]
    } else {
        checks
    }
}

/// Saving is over after five replies at most, and it validates before it
/// writes: a record whose base path does not pass its check fails with the
/// check's error and is never handed to the host; a record that passes is
/// persisted as its own document, and saving succeeds exactly when the host
/// could persist it.
pub proof fn lemma_save_result(settings: SettingsView, replies: Seq<ReplyView>)
    requires
        replies.len() >= 5,
    ensures
        save_run(settings, replies) == StepView::<SaveView, Result<(), AppErrorView>>::Done(
            save_result(replies[0].ok, replies[1].ok, replies[2].ok, replies[4]),
        ),
        save_asked(settings, replies) == save_requests(
            settings,
            replies[0].ok,
            replies[1].ok,
            replies[2].ok,
        ),
{
    let next = |save: SaveView, reply: ReplyView| save_next(save, reply);
    let first = save_first(settings);
    let five = seq![replies[0], replies[1], replies[2], replies[3], replies[4]];
    assert(run(first, next, five) == StepView::<SaveView, Result<(), AppErrorView>>::Done(
        save_result(replies[0].ok, replies[1].ok, replies[2].ok, replies[4]),
    )) by {
        reveal_with_fuel(run, 6);
    }
    assert(asked(first, next, five) =~= save_requests(
        settings,
        replies[0].ok,
        replies[1].ok,
        replies[2].ok,
    )) by {
        reveal_with_fuel(asked, 6);
    }
    assert(replies =~= five + replies.skip(5));
    lemma_done_is_final(first, next, five, replies.skip(5));
}

} // verus!
