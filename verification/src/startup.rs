//! The start-up sequence: the main window and its two webviews, the global
//! shortcut with its fallback, launch at login, the shared and persisted
//! settings, the settings window and the tray. Only the main window and its
//! webviews are essential; every other failure is logged and start-up goes on.
use vstd::prelude::*;

use crate::settings::{
    default_shortcut, default_shortcut_view, with_launch_view, Platform, Settings, SettingsView,
};
use crate::shortcut::{
    fallback_shortcut_failed_message, fallback_shortcut_failed_view,
    saved_shortcut_failed_message, saved_shortcut_failed_view,
};
use crate::text::joined;

verus! {

/// How far start-up has come; each stage waits for the outcome of one call.
#[derive(Clone, Copy, Debug, PartialEq, Eq, Structural)]
pub enum StartupStage {
    AccessoryPolicy,
    MainWindow,
    ContentWebview,
    TitlebarWebview,
    MainWindowEvents,
    SavedShortcut,
    FallbackShortcut,
    LaunchAtLogin,
    ReadLaunchAtLogin,
    ShareSettings,
    PersistSettings,
    SettingsWindowEvents,
    Tray,
    Done,
}

/// The order of the stages.
pub open spec fn stage_rank(s: StartupStage) -> int {
    match s {
        StartupStage::AccessoryPolicy => 1,
        StartupStage::MainWindow => 2,
        StartupStage::ContentWebview => 3,
        StartupStage::TitlebarWebview => 4,
        StartupStage::MainWindowEvents => 5,
        StartupStage::SavedShortcut => 6,
        StartupStage::FallbackShortcut => 7,
        StartupStage::LaunchAtLogin => 8,
        StartupStage::ReadLaunchAtLogin => 9,
        StartupStage::ShareSettings => 10,
        StartupStage::PersistSettings => 11,
        StartupStage::SettingsWindowEvents => 12,
        StartupStage::Tray => 13,
        StartupStage::Done => 14,
    }
}

/// What start-up asks the application to do next.
#[derive(Debug)]
pub enum StartupCall {
    /// Keep the application out of the macOS Dock.
    SetAccessoryPolicy,
    /// Build the main window, above other windows or not.
    CreateMainWindow { always_on_top: bool },
    /// Add the webview that shows the site.
    AddContentWebview,
    /// Add the webview that draws the title bar.
    AddTitlebarWebview,
    /// Make closing the main window hide it and resizing it lay out its webviews.
    WatchMainWindow,
    /// Register this text as the global shortcut.
    RegisterShortcut(String),
    /// Bring launch at login to this state.
    ApplyLaunchAtLogin(bool),
    /// Read whether launch at login is registered.
    ReadLaunchAtLogin,
    /// Keep these settings as the state shared with the settings window.
    ShareSettings(Settings),
    /// Write these settings to the settings file.
    PersistSettings(Settings),
    /// Make closing the settings window, if it exists, hide it.
    WatchSettingsWindow,
    /// Build the tray icon and its menu.
    SetupTray,
}

pub enum StartupCallView {
    SetAccessoryPolicy,
    CreateMainWindow { always_on_top: bool },
    AddContentWebview,
    AddTitlebarWebview,
    WatchMainWindow,
    RegisterShortcut(Seq<char>),
    ApplyLaunchAtLogin(bool),
    ReadLaunchAtLogin,
    ShareSettings(SettingsView),
    PersistSettings(SettingsView),
    WatchSettingsWindow,
    SetupTray,
}

impl View for StartupCall {
    type V = StartupCallView;

    open spec fn view(&self) -> StartupCallView {
        match self {
            StartupCall::SetAccessoryPolicy => StartupCallView::SetAccessoryPolicy,
            StartupCall::CreateMainWindow { always_on_top } => StartupCallView::CreateMainWindow {
                always_on_top: *always_on_top,
            },
            StartupCall::AddContentWebview => StartupCallView::AddContentWebview,
            StartupCall::AddTitlebarWebview => StartupCallView::AddTitlebarWebview,
            StartupCall::WatchMainWindow => StartupCallView::WatchMainWindow,
            StartupCall::RegisterShortcut(s) => StartupCallView::RegisterShortcut(s@),
            StartupCall::ApplyLaunchAtLogin(b) => StartupCallView::ApplyLaunchAtLogin(*b),
            StartupCall::ReadLaunchAtLogin => StartupCallView::ReadLaunchAtLogin,
            StartupCall::ShareSettings(s) => StartupCallView::ShareSettings(s@),
            StartupCall::PersistSettings(s) => StartupCallView::PersistSettings(s@),
            StartupCall::WatchSettingsWindow => StartupCallView::WatchSettingsWindow,
            StartupCall::SetupTray => StartupCallView::SetupTray,
        }
    }
}

/// Either one more call, or the end of start-up with its result.
#[derive(Debug)]
pub enum StartupNext {
    Call(StartupCall),
    Finish(Result<(), String>),
}

pub enum StartupNextView {
    Call(StartupCallView),
    Finish(Result<(), Seq<char>>),
}

impl View for StartupNext {
    type V = StartupNextView;

    open spec fn view(&self) -> StartupNextView {
        match self {
            StartupNext::Call(c) => StartupNextView::Call(c@),
            StartupNext::Finish(Ok(())) => StartupNextView::Finish(Ok(())),
            StartupNext::Finish(Err(m)) => StartupNextView::Finish(Err(m@)),
        }
    }
}

/// A line for the start-up log, if any, and what comes next.
#[derive(Debug)]
pub struct StartupStep {
    pub log: Option<String>,
    pub next: StartupNext,
}

pub struct StartupStepView {
    pub log: Option<Seq<char>>,
    pub next: StartupNextView,
}

impl View for StartupStep {
    type V = StartupStepView;

    open spec fn view(&self) -> StartupStepView {
        StartupStepView {
            log: match self.log {
                Some(l) => Some(l@),
                None => None,
            },
            next: self.next@,
        }
    }
}

/// What the application reports back after a call.
#[derive(Debug)]
pub enum StartupEvent {
    /// The call was made; `Err` carries its error text.
    Completed(Result<(), String>),
    /// Launch at login was read; `None` where it could not be.
    LaunchAtLoginRead(Option<bool>),
}

pub enum StartupEventView {
    Completed(Result<(), Seq<char>>),
    LaunchAtLoginRead(Option<bool>),
}

impl View for StartupEvent {
    type V = StartupEventView;

    open spec fn view(&self) -> StartupEventView {
        match self {
            StartupEvent::Completed(Ok(())) => StartupEventView::Completed(Ok(())),
            StartupEvent::Completed(Err(m)) => StartupEventView::Completed(Err(m@)),
            StartupEvent::LaunchAtLoginRead(b) => StartupEventView::LaunchAtLoginRead(*b),
        }
    }
}

/// The value of a call's outcome.
pub open spec fn outcome_view(r: Result<(), String>) -> Result<(), Seq<char>> {
    match r {
        Ok(()) => Ok(()),
        Err(m) => Err(m@),
    }
}

/// The outcome an event reports; a reading of launch at login counts as a
/// call that went through.
pub open spec fn event_outcome(e: StartupEventView) -> Result<(), Seq<char>> {
    match e {
        StartupEventView::Completed(r) => r,
        StartupEventView::LaunchAtLoginRead(_) => Ok(()),
    }
}

/// The launch-at-login state an event reports; any other event counts as a
/// reading that failed.
pub open spec fn event_launch_state(e: StartupEventView) -> Option<bool> {
    match e {
        StartupEventView::LaunchAtLoginRead(b) => b,
        StartupEventView::Completed(_) => None,
    }
}

/// Start-up in progress: the platform, the settings as they stand, and the
/// stage reached.
#[derive(Debug)]
pub struct Startup {
    platform: Platform,
    settings: Settings,
    stage: StartupStage,
}

pub struct StartupView {
    pub platform: Platform,
    pub settings: SettingsView,
    pub stage: StartupStage,
}

impl View for Startup {
    type V = StartupView;

    closed spec fn view(&self) -> StartupView {
        StartupView { platform: self.platform, settings: self.settings@, stage: self.stage }
    }
}

pub open spec fn accessory_failed_view(detail: Seq<char>) -> Seq<char> {
    "Set macOS activation policy failed: "@ + detail
}

pub open spec fn main_window_failed_view(detail: Seq<char>) -> Seq<char> {
    "Unable to create main window: "@ + detail
}

pub open spec fn content_webview_failed_view(detail: Seq<char>) -> Seq<char> {
    "Unable to create content webview: "@ + detail
}

pub open spec fn titlebar_webview_failed_view(detail: Seq<char>) -> Seq<char> {
    "Unable to create titlebar webview: "@ + detail
}

pub open spec fn autostart_failed_view(detail: Seq<char>) -> Seq<char> {
    "Autostart apply failed: "@ + detail
}

pub open spec fn persist_failed_view(detail: Seq<char>) -> Seq<char> {
    "Persist settings failed: "@ + detail
}

pub open spec fn tray_failed_view(detail: Seq<char>) -> Seq<char> {
    "Tray setup failed: "@ + detail
}

/// A step that asks for `call` and logs nothing.
pub open spec fn call_view(call: StartupCallView) -> StartupStepView {
    StartupStepView { log: None, next: StartupNextView::Call(call) }
}

/// A step that asks for `call`, logging `line` where the last call failed with
/// the text that `line` makes into a log line.
pub open spec fn call_logging_view(
    outcome: Result<(), Seq<char>>,
    line: spec_fn(Seq<char>) -> Seq<char>,
    call: StartupCallView,
) -> StartupStepView {
    StartupStepView {
        log: match outcome {
            Ok(()) => None,
            Err(e) => Some(line(e)),
        },
        next: StartupNextView::Call(call),
    }
}

/// A step that ends start-up, with an error where the last call failed with
/// the text that `line` makes into the error.
pub open spec fn essential_view(
    outcome: Result<(), Seq<char>>,
    line: spec_fn(Seq<char>) -> Seq<char>,
    call: StartupCallView,
) -> StartupStepView {
    match outcome {
        Ok(()) => StartupStepView { log: None, next: StartupNextView::Call(call) },
        Err(e) => StartupStepView { log: None, next: StartupNextView::Finish(Err(line(e))) },
    }
}

/// Where start-up begins: on macOS by leaving the Dock, elsewhere by building
/// the main window.
pub open spec fn start_view(settings: SettingsView, platform: Platform) -> (
    StartupView,
    StartupStepView,
) {
    if platform == Platform::MacOs {
        (
            StartupView { platform, settings, stage: StartupStage::AccessoryPolicy },
            call_view(StartupCallView::SetAccessoryPolicy),
        )
    } else {
        (
            StartupView { platform, settings, stage: StartupStage::MainWindow },
            call_view(
                StartupCallView::CreateMainWindow { always_on_top: settings.always_on_top },
            ),
        )
    }
}

/// One step of start-up: the state after the event and what to do next.
pub open spec fn transition_view(s: StartupView, e: StartupEventView) -> (
    StartupView,
    StartupStepView,
) {
    let outcome = event_outcome(e);
    let at = |stage: StartupStage| StartupView { stage, ..s };
    match s.stage {
        StartupStage::AccessoryPolicy => (
            at(StartupStage::MainWindow),
            call_logging_view(
                outcome,
                |d: Seq<char>| accessory_failed_view(d),
                StartupCallView::CreateMainWindow { always_on_top: s.settings.always_on_top },
            ),
        ),
        StartupStage::MainWindow => (
            at(
                if outcome is Ok {
                    StartupStage::ContentWebview
                } else {
                    StartupStage::Done
                },
            ),
            essential_view(
                outcome,
                |d: Seq<char>| main_window_failed_view(d),
                StartupCallView::AddContentWebview,
            ),
        ),
        StartupStage::ContentWebview => (
            at(
                if outcome is Ok {
                    StartupStage::TitlebarWebview
                } else {
                    StartupStage::Done
                },
            ),
            essential_view(
                outcome,
                |d: Seq<char>| content_webview_failed_view(d),
                StartupCallView::AddTitlebarWebview,
            ),
        ),
        StartupStage::TitlebarWebview => (
            at(
                if outcome is Ok {
                    StartupStage::MainWindowEvents
                } else {
                    StartupStage::Done
                },
            ),
            essential_view(
                outcome,
                |d: Seq<char>| titlebar_webview_failed_view(d),
                StartupCallView::WatchMainWindow,
            ),
        ),
        StartupStage::MainWindowEvents => (
            at(StartupStage::SavedShortcut),
            call_view(StartupCallView::RegisterShortcut(s.settings.shortcut)),
        ),
        StartupStage::SavedShortcut => match outcome {
            Ok(()) => (
                at(StartupStage::LaunchAtLogin),
                call_view(StartupCallView::ApplyLaunchAtLogin(s.settings.launch_at_login)),
            ),
            Err(_) => {
                let fallback = default_shortcut_view(s.platform);
                (
                    StartupView {
                        stage: StartupStage::FallbackShortcut,
                        settings: SettingsView { shortcut: fallback, ..s.settings },
                        ..s
                    },
                    StartupStepView {
                        log: Some(saved_shortcut_failed_view(s.settings.shortcut, fallback)),
                        next: StartupNextView::Call(StartupCallView::RegisterShortcut(fallback)),
                    },
                )
            },
        },
        StartupStage::FallbackShortcut => (
            at(StartupStage::LaunchAtLogin),
            StartupStepView {
                log: match outcome {
                    Ok(()) => None,
                    Err(_) => Some(fallback_shortcut_failed_view(s.settings.shortcut)),
                },
                next: StartupNextView::Call(
                    StartupCallView::ApplyLaunchAtLogin(s.settings.launch_at_login),
                ),
            },
        ),
        StartupStage::LaunchAtLogin => (
            at(StartupStage::ReadLaunchAtLogin),
            call_logging_view(
                outcome,
                |d: Seq<char>| autostart_failed_view(d),
                StartupCallView::ReadLaunchAtLogin,
            ),
        ),
        StartupStage::ReadLaunchAtLogin => {
            let settings = match event_launch_state(e) {
                Some(enabled) => with_launch_view(s.settings, enabled),
                None => s.settings,
            };
            (
                StartupView { stage: StartupStage::ShareSettings, settings, ..s },
                call_view(StartupCallView::ShareSettings(settings)),
            )
        },
        StartupStage::ShareSettings => (
            at(StartupStage::PersistSettings),
            call_view(StartupCallView::PersistSettings(s.settings)),
        ),
        StartupStage::PersistSettings => (
            at(StartupStage::SettingsWindowEvents),
            call_logging_view(
                outcome,
                |d: Seq<char>| persist_failed_view(d),
                StartupCallView::WatchSettingsWindow,
            ),
        ),
        StartupStage::SettingsWindowEvents => (
            at(StartupStage::Tray),
            call_view(StartupCallView::SetupTray),
        ),
        StartupStage::Tray => (
            at(StartupStage::Done),
            StartupStepView {
                log: match outcome {
                    Ok(()) => None,
                    Err(d) => Some(tray_failed_view(d)),
                },
                next: StartupNextView::Finish(Ok(())),
            },
        ),
        StartupStage::Done => (s, StartupStepView { log: None, next: StartupNextView::Finish(Ok(())) }),
    }
}

/// Every step before the end moves start-up to a later stage, and start-up
/// ends exactly when a step says it is finished; so it ends after at most
/// fourteen steps, and an ended start-up stays ended.
pub proof fn law_startup_advances(s: StartupView, e: StartupEventView)
    ensures
        s.stage != StartupStage::Done ==> stage_rank(transition_view(s, e).0.stage) > stage_rank(
            s.stage,
        ),
        s.stage != StartupStage::Done ==> (transition_view(s, e).0.stage == StartupStage::Done
            <==> transition_view(s, e).1.next is Finish),
        s.stage == StartupStage::Done ==> transition_view(s, e).0 == s,
{
}

/// The start-up begins before its end and not finished.
pub proof fn law_startup_begins(settings: SettingsView, platform: Platform)
    ensures
        start_view(settings, platform).0.stage != StartupStage::Done,
        start_view(settings, platform).1.next is Call,
        start_view(settings, platform).0.settings == settings,
{
}

/// Start-up fails only when the main window or one of its webviews cannot be
/// built; every other failure is logged and start-up goes on.
pub proof fn law_only_window_failures_are_fatal(s: StartupView, e: StartupEventView)
    ensures
        transition_view(s, e).1.next matches StartupNextView::Finish(Err(_)) ==> {
            &&& event_outcome(e) is Err
            &&& (s.stage == StartupStage::MainWindow || s.stage == StartupStage::ContentWebview
                || s.stage == StartupStage::TitlebarWebview)
        },
        event_outcome(e) is Err && s.stage != StartupStage::MainWindow && s.stage
            != StartupStage::ContentWebview && s.stage != StartupStage::TitlebarWebview && (
        s.stage == StartupStage::AccessoryPolicy || s.stage == StartupStage::SavedShortcut
            || s.stage == StartupStage::FallbackShortcut || s.stage == StartupStage::LaunchAtLogin
            || s.stage == StartupStage::PersistSettings || s.stage == StartupStage::Tray)
            ==> transition_view(s, e).1.log is Some && !(transition_view(
            s,
            e,
        ).1.next matches StartupNextView::Finish(Err(_))),
        event_outcome(e) is Ok ==> transition_view(s, e).1.log is None,
{
}

/// The shortcut in the settings changes only when the saved one cannot be
/// registered, and then it becomes the platform's default, which is
/// registered next.
pub proof fn law_shortcut_falls_back_to_default(s: StartupView, e: StartupEventView)
    ensures
        transition_view(s, e).0.settings.shortcut == s.settings.shortcut || (s.stage
            == StartupStage::SavedShortcut && event_outcome(e) is Err && transition_view(
            s,
            e,
        ).0.settings.shortcut == default_shortcut_view(s.platform) && transition_view(s, e).1.next
            == StartupNextView::Call(
            StartupCallView::RegisterShortcut(default_shortcut_view(s.platform)),
        )),
        transition_view(s, e).0.settings.always_on_top == s.settings.always_on_top,
{
}

/// Once launch at login has been read, the settings shared with the settings
/// window take the state that was read, where it could be read, and the
/// settings written to disk next are exactly those shared.
pub proof fn law_shared_settings_are_persisted(
    s: StartupView,
    read: StartupEventView,
    shared: StartupEventView,
)
    requires
        s.stage == StartupStage::ReadLaunchAtLogin,
    ensures
        ({
            let (s1, step1) = transition_view(s, read);
            let (s2, step2) = transition_view(s1, shared);
            let expected = match event_launch_state(read) {
                Some(enabled) => with_launch_view(s.settings, enabled),
                None => s.settings,
            };
            &&& step1.next == StartupNextView::Call(StartupCallView::ShareSettings(expected))
            &&& step2.next == StartupNextView::Call(StartupCallView::PersistSettings(expected))
            &&& s2.settings == expected
        }),
{
}

/// The main window is built above other windows exactly when the settings
/// start-up began with say so: at once on Windows and other platforms, right
/// after leaving the Dock on macOS; any request to build it carries the flag
/// of the settings at hand, which no step changes.
pub proof fn law_main_window_follows_settings(
    settings: SettingsView,
    platform: Platform,
    s: StartupView,
    e: StartupEventView,
)
    ensures
        platform != Platform::MacOs ==> start_view(settings, platform).1.next
            == StartupNextView::Call(
            StartupCallView::CreateMainWindow { always_on_top: settings.always_on_top },
        ),
        platform == Platform::MacOs ==> start_view(settings, platform).1.next
            == StartupNextView::Call(StartupCallView::SetAccessoryPolicy) && transition_view(
            start_view(settings, platform).0,
            e,
        ).1.next == StartupNextView::Call(
            StartupCallView::CreateMainWindow { always_on_top: settings.always_on_top },
        ),
        transition_view(s, e).1.next matches StartupNextView::Call(
            StartupCallView::CreateMainWindow { always_on_top },
        ) ==> always_on_top == s.settings.always_on_top,
        transition_view(s, e).0.settings.always_on_top == s.settings.always_on_top,
{
}

/// Launch at login is applied as the settings say: after the saved shortcut
/// is registered, and after the fallback shortcut whatever became of it; any
/// request to apply it carries the flag of the settings at hand, which no step
/// changes before launch at login is read back.
pub proof fn law_launch_at_login_follows_settings(s: StartupView, e: StartupEventView)
    ensures
        s.stage == StartupStage::SavedShortcut && event_outcome(e) is Ok ==> transition_view(
            s,
            e,
        ).1.next == StartupNextView::Call(
            StartupCallView::ApplyLaunchAtLogin(s.settings.launch_at_login),
        ),
        s.stage == StartupStage::FallbackShortcut ==> transition_view(s, e).1.next
            == StartupNextView::Call(
            StartupCallView::ApplyLaunchAtLogin(s.settings.launch_at_login),
        ),
        transition_view(s, e).1.next matches StartupNextView::Call(
            StartupCallView::ApplyLaunchAtLogin(b),
        ) ==> b == s.settings.launch_at_login,
        s.stage != StartupStage::ReadLaunchAtLogin ==> transition_view(s, e).0.settings.launch_at_login
            == s.settings.launch_at_login,
{
}

/// A start-up away from macOS where every call goes through (launch at login
/// included, though its state cannot be read back) makes its calls in this
/// order, with the settings it began with, logs nothing and succeeds.
pub proof fn law_smooth_startup(settings: SettingsView, platform: Platform)
    requires
        platform != Platform::MacOs,
    ensures
        ({
            let ok = StartupEventView::Completed(Ok(()));
            let (s0, c0) = start_view(settings, platform);
            let (s1, c1) = transition_view(s0, ok);
            let (s2, c2) = transition_view(s1, ok);
            let (s3, c3) = transition_view(s2, ok);
            let (s4, c4) = transition_view(s3, ok);
            let (s5, c5) = transition_view(s4, ok);
            let (s6, c6) = transition_view(s5, ok);
            let (s7, c7) = transition_view(s6, ok);
            let (s8, c8) = transition_view(s7, ok);
            let (s9, c9) = transition_view(s8, ok);
            let (s10, c10) = transition_view(s9, ok);
            let (s11, c11) = transition_view(s10, ok);
            &&& c0 == call_view(
                StartupCallView::CreateMainWindow { always_on_top: settings.always_on_top },
            )
            &&& c1 == call_view(StartupCallView::AddContentWebview)
            &&& c2 == call_view(StartupCallView::AddTitlebarWebview)
            &&& c3 == call_view(StartupCallView::WatchMainWindow)
            &&& c4 == call_view(StartupCallView::RegisterShortcut(settings.shortcut))
            &&& c5 == call_view(StartupCallView::ApplyLaunchAtLogin(settings.launch_at_login))
            &&& c6 == call_view(StartupCallView::ReadLaunchAtLogin)
            &&& c7 == call_view(StartupCallView::ShareSettings(settings))
            &&& c8 == call_view(StartupCallView::PersistSettings(settings))
            &&& c9 == call_view(StartupCallView::WatchSettingsWindow)
            &&& c10 == call_view(StartupCallView::SetupTray)
            &&& c11 == (StartupStepView { log: None, next: StartupNextView::Finish(Ok(())) })
            &&& s11.stage == StartupStage::Done
            &&& s11.settings == settings
        }),
{
}

/// The log lines of start-up name the failed step and carry the failure's own
/// text; a saved shortcut that cannot be registered is logged with itself and
/// the default that replaces it, and a default that cannot be registered either
/// is logged with itself.
pub proof fn law_startup_log_lines(s: StartupView, d: Seq<char>)
    ensures
        ({
            let step = transition_view(s, StartupEventView::Completed(Err(d))).1;
            &&& s.stage == StartupStage::AccessoryPolicy ==> step.log == Some(
                "Set macOS activation policy failed: "@ + d,
            )
            &&& s.stage == StartupStage::MainWindow ==> step.next == StartupNextView::Finish(
                Err("Unable to create main window: "@ + d),
            )
            &&& s.stage == StartupStage::ContentWebview ==> step.next == StartupNextView::Finish(
                Err("Unable to create content webview: "@ + d),
            )
            &&& s.stage == StartupStage::TitlebarWebview ==> step.next == StartupNextView::Finish(
                Err("Unable to create titlebar webview: "@ + d),
            )
            &&& s.stage == StartupStage::SavedShortcut ==> step.log == Some(
                "Failed to register saved shortcut `"@ + s.settings.shortcut
                    + "`. Falling back to default `"@ + default_shortcut_view(s.platform) + "`."@,
            )
            &&& s.stage == StartupStage::FallbackShortcut ==> step.log == Some(
                "Failed to register fallback shortcut `"@ + s.settings.shortcut
                    + "`. App will continue without global shortcut."@,
            )
            &&& s.stage == StartupStage::LaunchAtLogin ==> step.log == Some(
                "Autostart apply failed: "@ + d,
            )
            &&& s.stage == StartupStage::PersistSettings ==> step.log == Some(
                "Persist settings failed: "@ + d,
            )
            &&& s.stage == StartupStage::Tray ==> step.log == Some("Tray setup failed: "@ + d)
        }),
{
}

impl Startup {
    /// Begins start-up with the settings read from disk.
    pub fn start(settings: Settings, platform: Platform) -> (r: (Startup, StartupStep))
        ensures
            (r.0@, r.1@) == start_view(settings@, platform),
    {
        if platform == Platform::MacOs {
            (
                Startup { platform, settings, stage: StartupStage::AccessoryPolicy },
                StartupStep { log: None, next: StartupNext::Call(StartupCall::SetAccessoryPolicy) },
            )
        } else {
            let always_on_top = settings.always_on_top;
            (
                Startup { platform, settings, stage: StartupStage::MainWindow },
                StartupStep {
                    log: None,
                    next: StartupNext::Call(StartupCall::CreateMainWindow { always_on_top }),
                },
            )
        }
    }

    /// The settings as start-up has left them so far.
    pub fn settings(&self) -> (r: &Settings)
        ensures
            r@ == self@.settings,
    {
        &self.settings
    }

    /// Whether start-up has ended.
    pub fn is_finished(&self) -> (b: bool)
        ensures
            b == (self@.stage == StartupStage::Done),
    {
        self.stage == StartupStage::Done
    }

    /// Takes in the outcome of the last call and says what comes next. A
    /// start-up that has ended stays as it is and answers any further event
    /// with a plain end and no log line.
    pub fn step(&mut self, event: StartupEvent) -> (r: StartupStep)
        ensures
            (final(self)@, r@) == transition_view(old(self)@, event@),
    {
        let (outcome, launch_state): (Result<(), String>, Option<bool>) = match event {
            StartupEvent::Completed(r) => (r, None),
            StartupEvent::LaunchAtLoginRead(b) => (Ok(()), b),
        };
        assert(outcome_view(outcome) == event_outcome(event@));
        assert(launch_state == event_launch_state(event@));
        match self.stage {
            StartupStage::AccessoryPolicy => {
                self.stage = StartupStage::MainWindow;
                let next = StartupNext::Call(
                    StartupCall::CreateMainWindow { always_on_top: self.settings.always_on_top },
                );
                match outcome {
                    Ok(()) => StartupStep { log: None, next },
                    Err(d) => StartupStep {
                        log: Some(joined("Set macOS activation policy failed: ", d.as_str())),
                        next,
                    },
                }
            },
            StartupStage::MainWindow => match outcome {
                Ok(()) => {
                    self.stage = StartupStage::ContentWebview;
                    StartupStep { log: None, next: StartupNext::Call(StartupCall::AddContentWebview) }
                },
                Err(d) => {
                    self.stage = StartupStage::Done;
                    StartupStep {
                        log: None,
                        next: StartupNext::Finish(
                            Err(joined("Unable to create main window: ", d.as_str())),
                        ),
                    }
                },
            },
            StartupStage::ContentWebview => match outcome {
                Ok(()) => {
                    self.stage = StartupStage::TitlebarWebview;
                    StartupStep { log: None, next: StartupNext::Call(StartupCall::AddTitlebarWebview) }
                },
                Err(d) => {
                    self.stage = StartupStage::Done;
                    StartupStep {
                        log: None,
                        next: StartupNext::Finish(
                            Err(joined("Unable to create content webview: ", d.as_str())),
                        ),
                    }
                },
            },
            StartupStage::TitlebarWebview => match outcome {
                Ok(()) => {
                    self.stage = StartupStage::MainWindowEvents;
                    StartupStep { log: None, next: StartupNext::Call(StartupCall::WatchMainWindow) }
                },
                Err(d) => {
                    self.stage = StartupStage::Done;
                    StartupStep {
                        log: None,
                        next: StartupNext::Finish(
                            Err(joined("Unable to create titlebar webview: ", d.as_str())),
                        ),
                    }
                },
            },
            StartupStage::MainWindowEvents => {
                self.stage = StartupStage::SavedShortcut;
                StartupStep {
                    log: None,
                    next: StartupNext::Call(
                        StartupCall::RegisterShortcut(String::from_str(self.settings.shortcut.as_str())),
                    ),
                }
            },
            StartupStage::SavedShortcut => match outcome {
                Ok(()) => {
                    self.stage = StartupStage::LaunchAtLogin;
                    StartupStep {
                        log: None,
                        next: StartupNext::Call(
                            StartupCall::ApplyLaunchAtLogin(self.settings.launch_at_login),
                        ),
                    }
                },
                Err(_) => {
                    let fallback = default_shortcut(self.platform);
                    let line = saved_shortcut_failed_message(self.settings.shortcut.as_str(), fallback);
                    self.settings = Settings {
                        shortcut: String::from_str(fallback),
                        always_on_top: self.settings.always_on_top,
                        launch_at_login: self.settings.launch_at_login,
                    };
                    self.stage = StartupStage::FallbackShortcut;
                    StartupStep {
                        log: Some(line),
                        next: StartupNext::Call(StartupCall::RegisterShortcut(String::from_str(fallback))),
                    }
                },
            },
            StartupStage::FallbackShortcut => {
                self.stage = StartupStage::LaunchAtLogin;
                let next = StartupNext::Call(
                    StartupCall::ApplyLaunchAtLogin(self.settings.launch_at_login),
                );
                match outcome {
                    Ok(()) => StartupStep { log: None, next },
                    Err(_) => StartupStep {
                        log: Some(fallback_shortcut_failed_message(self.settings.shortcut.as_str())),
                        next,
                    },
                }
            },
            StartupStage::LaunchAtLogin => {
                self.stage = StartupStage::ReadLaunchAtLogin;
                let next = StartupNext::Call(StartupCall::ReadLaunchAtLogin);
                match outcome {
                    Ok(()) => StartupStep { log: None, next },
                    Err(d) => StartupStep {
                        log: Some(joined("Autostart apply failed: ", d.as_str())),
                        next,
                    },
                }
            },
            StartupStage::ReadLaunchAtLogin => {
                match launch_state {
                    Some(enabled) => {
                        self.settings = self.settings.with_launch_at_login(enabled);
                    },
                    None => {},
                }
                self.stage = StartupStage::ShareSettings;
                StartupStep {
                    log: None,
                    next: StartupNext::Call(StartupCall::ShareSettings(self.settings.duplicate())),
                }
            },
            StartupStage::ShareSettings => {
                self.stage = StartupStage::PersistSettings;
                StartupStep {
                    log: None,
                    next: StartupNext::Call(StartupCall::PersistSettings(self.settings.duplicate())),
                }
            },
            StartupStage::PersistSettings => {
                self.stage = StartupStage::SettingsWindowEvents;
                let next = StartupNext::Call(StartupCall::WatchSettingsWindow);
                match outcome {
                    Ok(()) => StartupStep { log: None, next },
                    Err(d) => StartupStep {
                        log: Some(joined("Persist settings failed: ", d.as_str())),
                        next,
                    },
                }
            },
            StartupStage::SettingsWindowEvents => {
                self.stage = StartupStage::Tray;
                StartupStep { log: None, next: StartupNext::Call(StartupCall::SetupTray) }
            },
            StartupStage::Tray => {
                self.stage = StartupStage::Done;
                let next = StartupNext::Finish(Ok(()));
                match outcome {
                    Ok(()) => StartupStep { log: None, next },
                    Err(d) => StartupStep {
                        log: Some(joined("Tray setup failed: ", d.as_str())),
                        next,
                    },
                }
            },
            StartupStage::Done => StartupStep { log: None, next: StartupNext::Finish(Ok(())) },
        }
    }
}

} // verus!
