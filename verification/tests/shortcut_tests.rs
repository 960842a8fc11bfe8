use global_hotkey::hotkey::HotKey;
use grok_overlay::shortcut::{
    clear_shortcuts_error, fallback_shortcut_failed_message, invalid_shortcut_error, parse_shortcut,
    register_shortcut_error, saved_shortcut_failed_message, shortcut_toggles_main_window, KeyMotion,
};

#[test]
fn default_shortcuts_parse() {
    for good in ["Alt+Space", "Ctrl+Alt+G", "shift+alt+KeyQ"] {
        let key = match parse_shortcut(good) {
            Ok(p) => p.into_key(),
            Err(e) => panic!("{e}"),
        };
        assert_eq!(key, good.parse::<HotKey>().unwrap());
    }
    let a = match parse_shortcut("Alt+Space") { Ok(p) => p.into_key(), Err(e) => panic!("{e}") };
    let b = match parse_shortcut("Ctrl+Alt+G") { Ok(p) => p.into_key(), Err(e) => panic!("{e}") };
    assert_ne!(a, b);
}

#[test]
fn bad_shortcuts_are_refused_with_the_text() {
    for bad in ["Ctrl+", "shift+KeyQ+alt", "Ctrl+Banana", "", "Ctrl++K"] {
        let e = match parse_shortcut(bad) {
            Ok(_) => panic!("{bad} parsed"),
            Err(e) => e,
        };
        let why = bad.parse::<HotKey>().unwrap_err();
        assert_eq!(e, format!("Invalid shortcut `{bad}`: {why}"));
    }
}

#[test]
fn shortcut_messages() {
    assert_eq!(invalid_shortcut_error("X", "why"), "Invalid shortcut `X`: why");
    assert_eq!(clear_shortcuts_error("busy"), "Unable to clear current shortcuts: busy");
    assert_eq!(register_shortcut_error("Alt+Space", "taken"), "Unable to register shortcut `Alt+Space`: taken");
    assert_eq!(
        saved_shortcut_failed_message("Ctrl+K", "Alt+Space"),
        "Failed to register saved shortcut `Ctrl+K`. Falling back to default `Alt+Space`."
    );
    assert_eq!(
        fallback_shortcut_failed_message("Alt+Space"),
        "Failed to register fallback shortcut `Alt+Space`. App will continue without global shortcut."
    );
}

#[test]
fn only_a_press_toggles() {
    assert!(shortcut_toggles_main_window(KeyMotion::Pressed));
    assert!(!shortcut_toggles_main_window(KeyMotion::Released));
}
