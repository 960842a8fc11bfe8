use grok_overlay::save::{SaveCall, SaveProcedure, SaveStep};
use grok_overlay::settings::{SaveSettingsPayload, Settings};

fn payload(shortcut: &str, always_on_top: bool, launch_at_login: bool) -> SaveSettingsPayload {
    SaveSettingsPayload { shortcut: shortcut.to_string(), always_on_top, launch_at_login }
}

/// Runs a save, answering each call with `answer`; returns the calls and the result.
fn run(
    p: &SaveSettingsPayload,
    mut answer: impl FnMut(&SaveCall) -> Result<(), String>,
) -> (Vec<String>, Result<Settings, String>) {
    let (mut procedure, mut step) = SaveProcedure::start(p);
    let mut calls = Vec::new();
    loop {
        match step {
            SaveStep::Finished(r) => {
                assert!(procedure.is_finished());
                return (calls, r);
            }
            SaveStep::Call(c) => {
                assert!(!procedure.is_finished());
                calls.push(format!("{:?}", c));
                let outcome = answer(&c);
                step = procedure.step(outcome);
            }
        }
    }
}

#[test]
fn blank_request_makes_no_call() {
    let (calls, r) = run(&payload("  ", true, false), |_| Ok(()));
    assert!(calls.is_empty());
    assert_eq!(r.unwrap_err(), "Shortcut cannot be empty");
}

#[test]
fn successful_save_goes_in_order() {
    let (calls, r) = run(&payload("  Ctrl+K ", false, true), |_| Ok(()));
    assert_eq!(
        calls,
        vec![
            "RegisterShortcut(\"Ctrl+K\")",
            "ApplyAlwaysOnTop(false)",
            "ApplyLaunchAtLogin(true)",
            "StoreSettings(Settings { shortcut: \"Ctrl+K\", always_on_top: false, launch_at_login: true })",
            "PersistSettings(Settings { shortcut: \"Ctrl+K\", always_on_top: false, launch_at_login: true })",
        ]
    );
    let s = r.unwrap();
    assert_eq!(s.shortcut, "Ctrl+K");
    assert!(!s.always_on_top);
    assert!(s.launch_at_login);
}

#[test]
fn first_failure_stops_with_its_error() {
    let (calls, r) = run(&payload("Bogus", true, false), |c| match c {
        SaveCall::RegisterShortcut(_) => Err("Invalid shortcut `Bogus`: x".to_string()),
        _ => Ok(()),
    });
    assert_eq!(calls.len(), 1);
    assert_eq!(r.unwrap_err(), "Invalid shortcut `Bogus`: x");
    let (calls, r) = run(&payload("Alt+K", true, false), |c| match c {
        SaveCall::ApplyLaunchAtLogin(_) => Err("Unable to enable launch at login: no".to_string()),
        _ => Ok(()),
    });
    assert_eq!(calls.len(), 3);
    assert_eq!(r.unwrap_err(), "Unable to enable launch at login: no");
    let (calls, r) = run(&payload("Alt+K", true, false), |c| match c {
        SaveCall::StoreSettings(_) => Err("poisoned".to_string()),
        _ => Ok(()),
    });
    assert_eq!(calls.len(), 4);
    assert_eq!(r.unwrap_err(), "Unable to lock settings state");
    let (calls, r) = run(&payload("Alt+K", true, false), |c| match c {
        SaveCall::PersistSettings(_) => Err("Unable to write /x: full".to_string()),
        _ => Ok(()),
    });
    assert_eq!(calls.len(), 5);
    assert_eq!(r.unwrap_err(), "Unable to write /x: full");
}
