use smart_folder_zen::error::AppError;
use smart_folder_zen::settings::{AppSettings, DateFormat, Loaded};
use smart_folder_zen::startup::{
    shutdown_plan, startup_plan, startup_settings, ShutdownTask, StartupTask,
};
use smart_folder_zen::tray::MenuAction;

fn record(auto_create_on_startup: bool) -> AppSettings {
    AppSettings {
        folder_path: "/tmp/X".to_string(),
        date_format: DateFormat::MMDD,
        auto_start: false,
        auto_create_on_startup,
    }
}

#[test]
fn menu_entries_have_their_identifiers() {
    assert_eq!(MenuAction::Quit.id(), "quit");
    assert_eq!(MenuAction::Show.id(), "show");
    assert_eq!(MenuAction::CreateNow.id(), "create_now");
    assert_eq!(MenuAction::OpenFolder.id(), "open_folder");
}

#[test]
fn menu_identifiers_lead_back_to_their_actions() {
    assert_eq!(MenuAction::from_id("quit"), Some(MenuAction::Quit));
    assert_eq!(MenuAction::from_id("show"), Some(MenuAction::Show));
    assert_eq!(MenuAction::from_id("create_now"), Some(MenuAction::CreateNow));
    assert_eq!(MenuAction::from_id("open_folder"), Some(MenuAction::OpenFolder));
    for action in [MenuAction::Quit, MenuAction::Show, MenuAction::CreateNow, MenuAction::OpenFolder] {
        assert_eq!(MenuAction::from_id(action.id()), Some(action));
    }
}

#[test]
fn other_identifiers_trigger_nothing() {
    for id in ["", "Quit", "quit ", "create", "create-now", "open", "open_folder_in_explorer", "main-tray"] {
        assert_eq!(MenuAction::from_id(id), None, "{id:?}");
    }
}

#[test]
fn startup_creates_todays_folder_only_when_asked_to() {
    assert_eq!(
        startup_plan(&record(true)),
        vec![StartupTask::RegisterTray, StartupTask::CreateTodayFolder, StartupTask::HideWindow]
    );
    assert_eq!(
        startup_plan(&record(false)),
        vec![StartupTask::RegisterTray, StartupTask::HideWindow]
    );
}

#[test]
fn shutdown_cleans_up_before_it_exits() {
    assert_eq!(shutdown_plan(), vec![ShutdownTask::DisableAutostart, ShutdownTask::Exit]);
}

#[test]
fn startup_works_with_the_record_that_was_loaded() {
    assert_eq!(startup_settings(Ok(Loaded::Stored(record(false)))), record(false));
    assert_eq!(startup_settings(Ok(Loaded::Fresh(record(true)))), record(true));
}

#[test]
fn startup_falls_back_to_the_default_record() {
    let settings = startup_settings(Err(AppError::configuration("配置文件格式错误")));
    assert_eq!(settings.date_format, DateFormat::YYYYMMDD);
    assert!(settings.auto_start);
    assert!(settings.auto_create_on_startup);
    assert_eq!(
        startup_plan(&settings),
        vec![StartupTask::RegisterTray, StartupTask::CreateTodayFolder, StartupTask::HideWindow]
    );
}
