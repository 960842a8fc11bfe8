//! The tray icon and its menu.
use vstd::prelude::*;

use crate::settings::{with_launch_view, Settings};
use crate::text::same_text;

verus! {

/// An entry of the tray menu.
#[derive(Clone, Copy, Debug, PartialEq, Eq, Structural)]
pub enum MenuCommand {
    ToggleMain,
    OpenHome,
    OpenSettings,
    ToggleLaunchAtLogin,
    Quit,
}

/// The identifier with which the menu reports a click on an entry.
pub open spec fn command_id_view(c: MenuCommand) -> Seq<char> {
    match c {
        MenuCommand::ToggleMain => "toggle_main"@,
        MenuCommand::OpenHome => "open_home"@,
        MenuCommand::OpenSettings => "open_settings"@,
        MenuCommand::ToggleLaunchAtLogin => "toggle_launch_at_login"@,
        MenuCommand::Quit => "quit"@,
    }
}

/// The text the user sees on an entry.
pub open spec fn command_label_view(c: MenuCommand) -> Seq<char> {
    match c {
        MenuCommand::ToggleMain => "Show / Hide Grok"@,
        MenuCommand::OpenHome => "Go To grok.com"@,
        MenuCommand::OpenSettings => "Settings"@,
        MenuCommand::ToggleLaunchAtLogin => "Toggle Launch At Login"@,
        MenuCommand::Quit => "Quit"@,
    }
}

/// The entries of the tray menu, top to bottom.
pub open spec fn tray_menu_view() -> Seq<MenuCommand> {
    seq![
        MenuCommand::ToggleMain,
        MenuCommand::OpenHome,
        MenuCommand::OpenSettings,
        MenuCommand::ToggleLaunchAtLogin,
        MenuCommand::Quit,
    ]
}

/// The entry that a clicked identifier stands for; other identifiers are
/// ignored.
pub open spec fn command_for_id(id: Seq<char>) -> Option<MenuCommand> {
    if id == "toggle_main"@ {
        Some(MenuCommand::ToggleMain)
    } else if id == "open_home"@ {
        Some(MenuCommand::OpenHome)
    } else if id == "open_settings"@ {
        Some(MenuCommand::OpenSettings)
    } else if id == "toggle_launch_at_login"@ {
        Some(MenuCommand::ToggleLaunchAtLogin)
    } else if id == "quit"@ {
        Some(MenuCommand::Quit)
    } else {
        None
    }
}

pub fn command_id(c: MenuCommand) -> (s: &'static str)
    ensures
        s@ == command_id_view(c),
{
    match c {
        MenuCommand::ToggleMain => "toggle_main",
        MenuCommand::OpenHome => "open_home",
        MenuCommand::OpenSettings => "open_settings",
        MenuCommand::ToggleLaunchAtLogin => "toggle_launch_at_login",
        MenuCommand::Quit => "quit",
    }
}

pub fn command_label(c: MenuCommand) -> (s: &'static str)
    ensures
        s@ == command_label_view(c),
{
    match c {
        MenuCommand::ToggleMain => "Show / Hide Grok",
        MenuCommand::OpenHome => "Go To grok.com",
        MenuCommand::OpenSettings => "Settings",
        MenuCommand::ToggleLaunchAtLogin => "Toggle Launch At Login",
        MenuCommand::Quit => "Quit",
    }
}

/// The entries of the tray menu, top to bottom.
pub fn tray_menu() -> (v: Vec<MenuCommand>)
    ensures
        v@ == tray_menu_view(),
{
    let mut v: Vec<MenuCommand> = Vec::new();
    v.push(MenuCommand::ToggleMain);
    v.push(MenuCommand::OpenHome);
    v.push(MenuCommand::OpenSettings);
    v.push(MenuCommand::ToggleLaunchAtLogin);
    v.push(MenuCommand::Quit);
    assert(v@ =~= tray_menu_view());
    v
}

/// The entry that a click identifier names, if any.
pub fn menu_command(id: &str) -> (r: Option<MenuCommand>)
    ensures
        r == command_for_id(id@),
{
    if same_text(id, "toggle_main") {
        Some(MenuCommand::ToggleMain)
    } else if same_text(id, "open_home") {
        Some(MenuCommand::OpenHome)
    } else if same_text(id, "open_settings") {
        Some(MenuCommand::OpenSettings)
    } else if same_text(id, "toggle_launch_at_login") {
        Some(MenuCommand::ToggleLaunchAtLogin)
    } else if same_text(id, "quit") {
        Some(MenuCommand::Quit)
    } else {
        None
    }
}

/// How the tray icon is built.
#[derive(Clone, Copy, Debug)]
pub struct TraySpec {
    pub id: &'static str,
    pub tooltip: &'static str,
    /// Whether a left click opens the menu.
    pub menu_on_left_click: bool,
    /// Whether the icon is the application's default window icon, where it has
    /// one.
    pub default_window_icon: bool,
}

/// The tray icon: identifier `main-tray`, tooltip `Grok Overlay`, the menu
/// only on a right click, the application's own icon.
pub fn tray_spec() -> (t: TraySpec)
    ensures
        t.id@ == "main-tray"@,
        t.tooltip@ == "Grok Overlay"@,
        !t.menu_on_left_click,
        t.default_window_icon,
{
    TraySpec {
        id: "main-tray",
        tooltip: "Grok Overlay",
        menu_on_left_click: false,
        default_window_icon: true,
    }
}

/// The launch-at-login state that the tray entry asks for: the opposite of the
/// current one, taken as off where it cannot be read.
pub fn launch_toggle_target(current: Option<bool>) -> (t: bool)
    ensures
        t == !(current == Some(true)),
{
    match current {
        Some(enabled) => !enabled,
        None => true,
    }
}

/// What the launch-at-login entry leaves behind once launch at login was
/// brought to `target`: where that succeeded, the stored settings with the new
/// flag, to be stored and written to disk; where it failed, nothing is stored
/// or written.
pub fn launch_toggle_settings(stored: &Settings, target: bool, applied: &Result<(), String>) -> (r:
    Option<Settings>)
    ensures
        match r {
            Some(s) => applied is Ok && s@ == with_launch_view(stored@, target),
            None => applied is Err,
        },
{
    match applied {
        Ok(()) => Some(stored.with_launch_at_login(target)),
        Err(_) => None,
    }
}

/// A click on an entry is dispatched to that entry: every entry's identifier
/// leads back to it.
pub proof fn law_menu_ids_round_trip(c: MenuCommand)
    ensures
        command_for_id(command_id_view(c)) == Some(c),
{
    reveal_strlit("toggle_main");
    reveal_strlit("open_home");
    reveal_strlit("open_settings");
    reveal_strlit("toggle_launch_at_login");
    reveal_strlit("quit");
    assert("toggle_main"@.len() == 11);
    assert("open_home"@.len() == 9);
    assert("open_settings"@.len() == 13);
    assert("toggle_launch_at_login"@.len() == 22);
    assert("quit"@.len() == 4);
}

/// The tray menu offers every entry exactly once, in five lines, ending with
/// `Quit`.
pub proof fn law_tray_menu_complete(c: MenuCommand)
    ensures
        tray_menu_view().contains(c),
        tray_menu_view().len() == 5,
        tray_menu_view().last() == MenuCommand::Quit,
        forall|i: int, j: int|
            0 <= i < j < 5 ==> tray_menu_view()[i] != tray_menu_view()[j],
{
    match c {
        MenuCommand::ToggleMain => assert(tray_menu_view()[0] == c),
        MenuCommand::OpenHome => assert(tray_menu_view()[1] == c),
        MenuCommand::OpenSettings => assert(tray_menu_view()[2] == c),
        MenuCommand::ToggleLaunchAtLogin => assert(tray_menu_view()[3] == c),
        MenuCommand::Quit => assert(tray_menu_view()[4] == c),
    }
}

/// Every entry of the menu can be told apart by its identifier.
pub proof fn law_menu_ids_distinct(a: MenuCommand, b: MenuCommand)
    requires
        a != b,
    ensures
        command_id_view(a) != command_id_view(b),
{
    law_menu_ids_round_trip(a);
    law_menu_ids_round_trip(b);
}

} // verus!
