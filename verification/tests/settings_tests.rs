use grok_overlay::settings::{
    default_shortcut, loaded_settings, lock_failed_error, settings_file_name,
    startup_log_file_name, Platform, SaveSettingsPayload, Settings,
};

fn payload(shortcut: &str, always_on_top: bool, launch_at_login: bool) -> SaveSettingsPayload {
    SaveSettingsPayload { shortcut: shortcut.to_string(), always_on_top, launch_at_login }
}

#[test]
fn default_shortcut_depends_on_platform() {
    assert_eq!(default_shortcut(Platform::MacOs), "Alt+Space");
    assert_eq!(default_shortcut(Platform::Windows), "Ctrl+Alt+G");
    assert_eq!(default_shortcut(Platform::Other), "Alt+Space");
}

#[test]
fn default_settings_are_on_top_and_not_launched_at_login() {
    let s = Settings::default_for(Platform::Windows);
    assert_eq!(s.shortcut, "Ctrl+Alt+G");
    assert!(s.always_on_top);
    assert!(!s.launch_at_login);
    let m = Settings::default_for(Platform::MacOs);
    assert_eq!(m.shortcut, "Alt+Space");
}

#[test]
fn unreadable_settings_file_gives_defaults() {
    let s = loaded_settings(None, Platform::Other);
    assert_eq!(s.shortcut, "Alt+Space");
    assert!(s.always_on_top);
    assert!(!s.launch_at_login);
}

#[test]
fn parsed_settings_file_is_kept() {
    let parsed = Settings { shortcut: "Ctrl+K".to_string(), always_on_top: false, launch_at_login: true };
    let s = loaded_settings(Some(parsed), Platform::Windows);
    assert_eq!(s.shortcut, "Ctrl+K");
    assert!(!s.always_on_top);
    assert!(s.launch_at_login);
}

#[test]
fn blank_shortcut_is_refused() {
    let e = payload("", true, false).requested_shortcut().unwrap_err();
    assert_eq!(e, "Shortcut cannot be empty");
    let e = payload(" \t\n\u{3000}", true, false).requested_shortcut().unwrap_err();
    assert_eq!(e, "Shortcut cannot be empty");
}

#[test]
fn requested_shortcut_is_trimmed() {
    let p = payload("  Ctrl+Shift+K \n", true, false);
    assert_eq!(p.requested_shortcut().unwrap(), "Ctrl+Shift+K");
    let p = payload("Alt+Space", true, false);
    assert_eq!(p.requested_shortcut().unwrap(), "Alt+Space");
}

#[test]
fn saved_settings_take_the_request() {
    let p = payload("  Ctrl+K ", false, true);
    let shortcut = p.requested_shortcut().unwrap();
    let s = p.saved_settings(&shortcut);
    assert_eq!(s.shortcut, "Ctrl+K");
    assert!(!s.always_on_top);
    assert!(s.launch_at_login);
}

#[test]
fn read_after_save_gives_what_was_saved() {
    let p = payload(" Alt+G ", true, true);
    let shortcut = p.requested_shortcut().unwrap();
    let saved = p.saved_settings(&shortcut);
    for os in [None, Some(true)] {
        let read = saved.reported(os);
        assert_eq!(read.shortcut, "Alt+G");
        assert!(read.always_on_top);
        assert!(read.launch_at_login);
    }
}

#[test]
fn reported_settings_follow_the_operating_system() {
    let stored = Settings { shortcut: "Ctrl+K".to_string(), always_on_top: true, launch_at_login: false };
    assert!(stored.reported(Some(true)).launch_at_login);
    assert!(!stored.reported(None).launch_at_login);
    let changed = stored.with_launch_at_login(true);
    assert!(changed.launch_at_login);
    assert_eq!(changed.shortcut, "Ctrl+K");
    let copy = stored.duplicate();
    assert_eq!(copy.shortcut, "Ctrl+K");
    assert!(copy.always_on_top);
}

#[test]
fn file_names_and_lock_error() {
    assert_eq!(settings_file_name(), "settings.json");
    assert_eq!(startup_log_file_name(), "startup.log");
    assert_eq!(lock_failed_error(), "Unable to lock settings state");
}
