use grok_overlay::settings::{Platform, Settings};
use grok_overlay::startup::{Startup, StartupCall, StartupEvent, StartupNext, StartupStep};

fn settings(shortcut: &str, always_on_top: bool, launch_at_login: bool) -> Settings {
    Settings { shortcut: shortcut.to_string(), always_on_top, launch_at_login }
}

/// Runs start-up, answering each call with `answer`; returns the calls made,
/// the log lines and the result.
fn run(
    s: Settings,
    platform: Platform,
    mut answer: impl FnMut(&StartupCall) -> StartupEvent,
) -> (Vec<String>, Vec<String>, Result<(), String>, Startup) {
    let (mut startup, mut step) = Startup::start(s, platform);
    let mut calls = Vec::new();
    let mut logs = Vec::new();
    let mut steps = 0;
    loop {
        let StartupStep { log, next } = step;
        if let Some(l) = log {
            logs.push(l);
        }
        match next {
            StartupNext::Finish(r) => {
                assert!(startup.is_finished());
                return (calls, logs, r, startup);
            }
            StartupNext::Call(c) => {
                assert!(!startup.is_finished());
                calls.push(format!("{:?}", c));
                let e = answer(&c);
                step = startup.step(e);
                steps += 1;
                assert!(steps <= 14);
            }
        }
    }
}

fn ok() -> StartupEvent {
    StartupEvent::Completed(Ok(()))
}

#[test]
fn smooth_start_on_windows() {
    let (calls, logs, r, st) = run(settings("Ctrl+K", true, false), Platform::Windows, |c| match c {
        StartupCall::ReadLaunchAtLogin => StartupEvent::LaunchAtLoginRead(Some(false)),
        _ => ok(),
    });
    assert_eq!(r, Ok(()));
    assert!(logs.is_empty());
    assert_eq!(
        calls,
        vec![
            "CreateMainWindow { always_on_top: true }",
            "AddContentWebview",
            "AddTitlebarWebview",
            "WatchMainWindow",
            "RegisterShortcut(\"Ctrl+K\")",
            "ApplyLaunchAtLogin(false)",
            "ReadLaunchAtLogin",
            "ShareSettings(Settings { shortcut: \"Ctrl+K\", always_on_top: true, launch_at_login: false })",
            "PersistSettings(Settings { shortcut: \"Ctrl+K\", always_on_top: true, launch_at_login: false })",
            "WatchSettingsWindow",
            "SetupTray",
        ]
    );
    assert_eq!(st.settings().shortcut, "Ctrl+K");
}

#[test]
fn macos_leaves_the_dock_first_and_logs_failure() {
    let (calls, logs, r, _) = run(settings("Alt+Space", false, false), Platform::MacOs, |c| match c {
        StartupCall::SetAccessoryPolicy => StartupEvent::Completed(Err("no".to_string())),
        _ => ok(),
    });
    assert_eq!(r, Ok(()));
    assert_eq!(calls[0], "SetAccessoryPolicy");
    assert_eq!(calls[1], "CreateMainWindow { always_on_top: false }");
    assert_eq!(logs, vec!["Set macOS activation policy failed: no"]);
}

#[test]
fn main_window_failures_are_fatal() {
    let (calls, logs, r, _) = run(settings("Alt+Space", true, false), Platform::Other, |c| match c {
        StartupCall::CreateMainWindow { .. } => StartupEvent::Completed(Err("no display".to_string())),
        _ => ok(),
    });
    assert_eq!(r, Err("Unable to create main window: no display".to_string()));
    assert_eq!(calls.len(), 1);
    assert!(logs.is_empty());
    let (_, _, r, _) = run(settings("Alt+Space", true, false), Platform::Other, |c| match c {
        StartupCall::AddContentWebview => StartupEvent::Completed(Err("x".to_string())),
        _ => ok(),
    });
    assert_eq!(r, Err("Unable to create content webview: x".to_string()));
    let (_, _, r, _) = run(settings("Alt+Space", true, false), Platform::Other, |c| match c {
        StartupCall::AddTitlebarWebview => StartupEvent::Completed(Err("y".to_string())),
        _ => ok(),
    });
    assert_eq!(r, Err("Unable to create titlebar webview: y".to_string()));
}

#[test]
fn saved_shortcut_falls_back_to_default() {
    let (calls, logs, r, st) = run(settings("Bogus", true, false), Platform::Windows, |c| match c {
        StartupCall::RegisterShortcut(s) if s == "Bogus" => StartupEvent::Completed(Err("bad".to_string())),
        StartupCall::ReadLaunchAtLogin => StartupEvent::LaunchAtLoginRead(None),
        _ => ok(),
    });
    assert_eq!(r, Ok(()));
    assert!(calls.contains(&"RegisterShortcut(\"Ctrl+Alt+G\")".to_string()));
    assert_eq!(
        logs,
        vec!["Failed to register saved shortcut `Bogus`. Falling back to default `Ctrl+Alt+G`."]
    );
    assert_eq!(st.settings().shortcut, "Ctrl+Alt+G");
}

#[test]
fn every_later_failure_is_logged() {
    let (_, logs, r, st) = run(settings("Bogus", true, true), Platform::Other, |c| match c {
        StartupCall::RegisterShortcut(_) => StartupEvent::Completed(Err("bad".to_string())),
        StartupCall::ApplyLaunchAtLogin(_) => StartupEvent::Completed(Err("denied".to_string())),
        StartupCall::ReadLaunchAtLogin => StartupEvent::LaunchAtLoginRead(Some(false)),
        StartupCall::PersistSettings(_) => StartupEvent::Completed(Err("disk full".to_string())),
        StartupCall::SetupTray => StartupEvent::Completed(Err("no tray".to_string())),
        _ => ok(),
    });
    assert_eq!(r, Ok(()));
    assert_eq!(
        logs,
        vec![
            "Failed to register saved shortcut `Bogus`. Falling back to default `Alt+Space`.",
            "Failed to register fallback shortcut `Alt+Space`. App will continue without global shortcut.",
            "Autostart apply failed: denied",
            "Persist settings failed: disk full",
            "Tray setup failed: no tray",
        ]
    );
    assert!(!st.settings().launch_at_login);
}
