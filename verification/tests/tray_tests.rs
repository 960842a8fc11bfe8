use grok_overlay::settings::Settings;
use grok_overlay::tray::{
    command_id, command_label, launch_toggle_settings, launch_toggle_target, menu_command, tray_menu,
    tray_spec, MenuCommand,
};

#[test]
fn tray_menu_entries() {
    let entries: Vec<(&str, &str)> =
        tray_menu().into_iter().map(|c| (command_id(c), command_label(c))).collect();
    assert_eq!(
        entries,
        vec![
            ("toggle_main", "Show / Hide Grok"),
            ("open_home", "Go To grok.com"),
            ("open_settings", "Settings"),
            ("toggle_launch_at_login", "Toggle Launch At Login"),
            ("quit", "Quit"),
        ]
    );
    let t = tray_spec();
    assert_eq!(t.id, "main-tray");
    assert_eq!(t.tooltip, "Grok Overlay");
    assert!(!t.menu_on_left_click);
    assert!(t.default_window_icon);
}

#[test]
fn menu_ids_dispatch_to_their_entries() {
    for c in tray_menu() {
        assert_eq!(menu_command(command_id(c)), Some(c));
    }
    assert_eq!(menu_command("quit"), Some(MenuCommand::Quit));
    assert_eq!(menu_command("Quit"), None);
    assert_eq!(menu_command(""), None);
    assert_eq!(menu_command("toggle_main "), None);
}

#[test]
fn launch_toggle_goes_to_the_opposite() {
    assert!(!launch_toggle_target(Some(true)));
    assert!(launch_toggle_target(Some(false)));
    assert!(launch_toggle_target(None));
}

#[test]
fn launch_toggle_stores_only_after_success() {
    let stored = Settings { shortcut: "Ctrl+K".to_string(), always_on_top: false, launch_at_login: false };
    let s = launch_toggle_settings(&stored, true, &Ok(())).unwrap();
    assert_eq!(s.shortcut, "Ctrl+K");
    assert!(!s.always_on_top);
    assert!(s.launch_at_login);
    assert!(launch_toggle_settings(&stored, true, &Err("denied".to_string())).is_none());
}
