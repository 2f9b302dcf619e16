//! What the program does when it starts and when it leaves.

use crate::error::AppError;
use crate::settings::{default_record, AppSettings, Loaded, SettingsView};
use vstd::prelude::*;

verus! {

/// One thing to do at startup, after the settings were loaded.
#[derive(Debug, Clone, Copy, PartialEq, Eq, Structural)]
pub enum StartupTask {
    /// Put the tray icon and its menu in place.
    RegisterTray,
    /// Create today's folder. A failure is logged and does not stop the
    /// startup.
    CreateTodayFolder,
    /// Hide the main window, so that the program starts in the tray.
    HideWindow,
}

/// One thing to do when the program leaves.
#[derive(Debug, Clone, Copy, PartialEq, Eq, Structural)]
pub enum ShutdownTask {
    /// Take the program out of the launch-at-login list. A failure is logged
    /// and does not stop the exit.
    DisableAutostart,
    /// End the process.
    Exit,
}

/// The tasks of a startup, in order: today's folder is created only where
/// the settings ask for it.
pub open spec fn startup_tasks(auto_create: bool) -> Seq<StartupTask> {
    if auto_create {
        seq![StartupTask::RegisterTray, StartupTask::CreateTodayFolder, StartupTask::HideWindow]
    } else {
        seq![StartupTask::RegisterTray, StartupTask::HideWindow]
    }
}

/// The tasks of a shutdown, in order.
pub open spec fn shutdown_tasks() -> Seq<ShutdownTask> {
    seq![ShutdownTask::DisableAutostart, ShutdownTask::Exit]
}

/// The record that a startup works with: the one that was loaded, or the
/// default record where loading failed.
pub open spec fn startup_record(
    loaded: Result<Loaded, AppError>,
    desktop: Option<Seq<char>>,
) -> SettingsView {
    match loaded {
        Ok(Loaded::Stored(settings)) => settings@,
        Ok(Loaded::Fresh(settings)) => settings@,
        Err(_) => default_record(desktop),
    }
}

/// The settings that a startup works with. Loading that failed does not stop
/// the startup: the default record takes the place of the one that could not
/// be loaded, made for the desktop directory that the platform reports at the
/// call.
pub fn startup_settings(loaded: Result<Loaded, AppError>) -> (settings: AppSettings)
    ensures
        exists|desktop: Option<Seq<char>>| settings@ == #[trigger] startup_record(loaded, desktop),
{
    let settings = match loaded {
        Ok(Loaded::Stored(settings)) => settings,
        Ok(Loaded::Fresh(settings)) => settings,
        Err(_) => AppSettings::default(),
    };
    proof {
        let desktop = if loaded is Err {
            choose|desktop: Option<Seq<char>>| settings@ == default_record(desktop)
        } else {
            None
        };
        assert(settings@ == startup_record(loaded, desktop));
    }
    settings
}

/// The tasks of a startup under `settings`, in order.
pub fn startup_plan(settings: &AppSettings) -> (plan: Vec<StartupTask>)
    ensures
        plan@ == startup_tasks(settings@.auto_create_on_startup),
{
    let mut plan: Vec<StartupTask> = Vec::new();
    plan.push(StartupTask::RegisterTray);
    if settings.auto_create_on_startup {
        plan.push(StartupTask::CreateTodayFolder);
    }
    plan.push(StartupTask::HideWindow);
    assert(plan@ =~= startup_tasks(settings@.auto_create_on_startup));
    plan
}

/// The tasks of a shutdown, in order.
pub fn shutdown_plan() -> (plan: Vec<ShutdownTask>)
    ensures
        plan@ == shutdown_tasks(),
{
    let mut plan: Vec<ShutdownTask> = Vec::new();
    plan.push(ShutdownTask::DisableAutostart);
    plan.push(ShutdownTask::Exit);
    assert(plan@ =~= shutdown_tasks());
    plan
}

} // verus!
