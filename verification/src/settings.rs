use vstd::prelude::*;

use crate::text::{trim, trimmed};

verus! {

/// The operating system family the overlay runs on; it decides the default
/// global shortcut.
#[derive(Clone, Copy, Debug, PartialEq, Eq, Structural)]
pub enum Platform {
    MacOs,
    Windows,
    Other,
}

/// The shortcut used when none has been saved: `Ctrl+Alt+G` on Windows,
/// `Alt+Space` everywhere else.
pub open spec fn default_shortcut_view(platform: Platform) -> Seq<char> {
    match platform {
        Platform::Windows => "Ctrl+Alt+G"@,
        _ => "Alt+Space"@,
    }
}

pub fn default_shortcut(platform: Platform) -> (s: &'static str)
    ensures
        s@ == default_shortcut_view(platform),
{
    match platform {
        Platform::Windows => "Ctrl+Alt+G",
        _ => "Alt+Space",
    }
}


/// The name of the settings file in the application's configuration
/// directory.
pub fn settings_file_name() -> (s: &'static str)
    ensures
        s@ == "settings.json"@,
{
    "settings.json"
}

/// The name of the start-up log in the application's log directory.
pub fn startup_log_file_name() -> (s: &'static str)
    ensures
        s@ == "startup.log"@,
{
    "startup.log"
}

/// What the user can change: the global shortcut that shows and hides the
/// overlay, whether the overlay stays above other windows, and whether it
/// starts when the user logs in.
#[derive(Debug)]
pub struct Settings {
    pub shortcut: String,
    pub always_on_top: bool,
    pub launch_at_login: bool,
}

/// The mathematical value of [`Settings`].
pub struct SettingsView {
    pub shortcut: Seq<char>,
    pub always_on_top: bool,
    pub launch_at_login: bool,
}

impl View for Settings {
    type V = SettingsView;

    open spec fn view(&self) -> SettingsView {
        SettingsView {
            shortcut: self.shortcut@,
            always_on_top: self.always_on_top,
            launch_at_login: self.launch_at_login,
        }
    }
}

/// The settings of a first start: the platform's shortcut, always on top, not
/// launched at login.
pub open spec fn default_settings_view(platform: Platform) -> SettingsView {
    SettingsView {
        shortcut: default_shortcut_view(platform),
        always_on_top: true,
        launch_at_login: false,
    }
}

/// `s` with its launch-at-login flag replaced by `enabled`.
pub open spec fn with_launch_view(s: SettingsView, enabled: bool) -> SettingsView {
    SettingsView { launch_at_login: enabled, ..s }
}

/// The settings that the operating system's launch-at-login state, where it
/// could be read, overrides.
pub open spec fn reported_view(stored: SettingsView, os_enabled: Option<bool>) -> SettingsView {
    match os_enabled {
        Some(enabled) => with_launch_view(stored, enabled),
        None => stored,
    }
}

/// The settings that a save request stores: its shortcut without surrounding
/// white space and its two flags.
pub open spec fn saved_view(payload: SaveSettingsPayloadView) -> SettingsView {
    SettingsView {
        shortcut: trimmed(payload.shortcut),
        always_on_top: payload.always_on_top,
        launch_at_login: payload.launch_at_login,
    }
}

impl Settings {
    /// The settings used when none could be read.
    pub fn default_for(platform: Platform) -> (s: Settings)
        ensures
            s@ == default_settings_view(platform),
    {
        Settings {
            shortcut: String::from_str(default_shortcut(platform)),
            always_on_top: true,
            launch_at_login: false,
        }
    }

    /// A second value equal to this one.
    pub fn duplicate(&self) -> (r: Settings)
        ensures
            r@ == self@,
    {
        Settings {
            shortcut: String::from_str(self.shortcut.as_str()),
            always_on_top: self.always_on_top,
            launch_at_login: self.launch_at_login,
        }
    }

    /// These settings with the launch-at-login flag set to `enabled`.
    pub fn with_launch_at_login(&self, enabled: bool) -> (r: Settings)
        ensures
            r@ == with_launch_view(self@, enabled),
    {
        Settings {
            shortcut: String::from_str(self.shortcut.as_str()),
            always_on_top: self.always_on_top,
            launch_at_login: enabled,
        }
    }

    /// What the settings window is shown: the stored settings, with the
    /// launch-at-login flag taken from the operating system where it could be
    /// read.
    pub fn reported(&self, os_enabled: Option<bool>) -> (r: Settings)
        ensures
            r@ == reported_view(self@, os_enabled),
    {
        match os_enabled {
            Some(enabled) => self.with_launch_at_login(enabled),
            None => self.duplicate(),
        }
    }
}

/// The settings read at start: those parsed from the settings file, or the
/// defaults where the file could not be located, read or parsed.
pub fn loaded_settings(parsed: Option<Settings>, platform: Platform) -> (s: Settings)
    ensures
        s@ == match parsed {
            Some(p) => p@,
            None => default_settings_view(platform),
        },
{
    match parsed {
        Some(p) => p,
        None => Settings::default_for(platform),
    }
}

/// A request from the settings window to change the settings.
#[derive(Debug)]
pub struct SaveSettingsPayload {
    pub shortcut: String,
    pub always_on_top: bool,
    pub launch_at_login: bool,
}

/// The mathematical value of [`SaveSettingsPayload`].
pub struct SaveSettingsPayloadView {
    pub shortcut: Seq<char>,
    pub always_on_top: bool,
    pub launch_at_login: bool,
}

impl View for SaveSettingsPayload {
    type V = SaveSettingsPayloadView;

    open spec fn view(&self) -> SaveSettingsPayloadView {
        SaveSettingsPayloadView {
            shortcut: self.shortcut@,
            always_on_top: self.always_on_top,
            launch_at_login: self.launch_at_login,
        }
    }
}

/// The answer to a save request whose shortcut is blank.
pub open spec fn empty_shortcut_message() -> Seq<char> {
    "Shortcut cannot be empty"@
}

/// The answer when the shared settings cannot be locked.
pub open spec fn lock_failed_message() -> Seq<char> {
    "Unable to lock settings state"@
}

pub fn lock_failed_error() -> (m: String)
    ensures
        m@ == lock_failed_message(),
{
    String::from_str("Unable to lock settings state")
}

impl SaveSettingsPayload {
    /// The shortcut that a save request asks for, without surrounding white
    /// space; refused when nothing else is left.
    pub fn requested_shortcut(&self) -> (r: Result<String, String>)
        ensures
            match r {
                Ok(s) => s@ == trimmed(self.shortcut@) && s@.len() > 0,
                Err(m) => trimmed(self.shortcut@).len() == 0 && m@ == empty_shortcut_message(),
            },
    {
        let t = trim(self.shortcut.as_str());
        if t.unicode_len() == 0 {
            Err(String::from_str("Shortcut cannot be empty"))
        } else {
            Ok(String::from_str(t))
        }
    }

    /// The settings that this request stores once every part of it has been
    /// applied; `shortcut` is what [`SaveSettingsPayload::requested_shortcut`]
    /// gave.
    pub fn saved_settings(&self, shortcut: &str) -> (s: Settings)
        requires
            shortcut@ == trimmed(self.shortcut@),
        ensures
            s@ == saved_view(self@),
    {
        Settings {
            shortcut: String::from_str(shortcut),
            always_on_top: self.always_on_top,
            launch_at_login: self.launch_at_login,
        }
    }
}

/// The settings of a first start are always on top and not launched at login
/// on every platform; only the shortcut depends on the platform: `Ctrl+Alt+G`
/// on Windows, `Alt+Space` elsewhere.
pub proof fn law_defaults(platform: Platform)
    ensures
        default_settings_view(platform).always_on_top,
        !default_settings_view(platform).launch_at_login,
        platform == Platform::Windows ==> default_settings_view(platform).shortcut
            == "Ctrl+Alt+G"@,
        platform != Platform::Windows ==> default_settings_view(platform).shortcut == "Alt+Space"@,
{
}

/// Changing the launch-at-login flag sets exactly that flag and keeps the
/// shortcut and always-on-top.
pub proof fn law_with_launch(s: SettingsView, enabled: bool)
    ensures
        with_launch_view(s, enabled).launch_at_login == enabled,
        with_launch_view(s, enabled).shortcut == s.shortcut,
        with_launch_view(s, enabled).always_on_top == s.always_on_top,
{
}

/// The settings reported to the settings window: where the operating system's
/// launch-at-login state could be read, that state, whatever was stored;
/// everything else as stored.
pub proof fn law_reported(stored: SettingsView, os_enabled: Option<bool>)
    ensures
        reported_view(stored, os_enabled).shortcut == stored.shortcut,
        reported_view(stored, os_enabled).always_on_top == stored.always_on_top,
        os_enabled matches Some(b) ==> reported_view(stored, os_enabled).launch_at_login == b,
        os_enabled is None ==> reported_view(stored, os_enabled).launch_at_login
            == stored.launch_at_login,
{
}

/// A save stores the requested shortcut without surrounding white space and
/// the two requested flags.
pub proof fn law_saved(payload: SaveSettingsPayloadView)
    ensures
        saved_view(payload).shortcut == trimmed(payload.shortcut),
        saved_view(payload).always_on_top == payload.always_on_top,
        saved_view(payload).launch_at_login == payload.launch_at_login,
{
}

/// Reading the settings back after a save gives what was saved, whenever the
/// operating system's launch-at-login state agrees with the request or cannot
/// be read.
pub proof fn law_read_after_save(payload: SaveSettingsPayloadView, os_enabled: Option<bool>)
    requires
        os_enabled is None || os_enabled == Some(payload.launch_at_login),
    ensures
        reported_view(saved_view(payload), os_enabled) == saved_view(payload),
{
}

/// A saved shortcut is never blank and never starts or ends with white space.
pub proof fn law_saved_shortcut_is_trimmed(payload: SaveSettingsPayloadView)
    requires
        trimmed(payload.shortcut).len() > 0,
    ensures
        saved_view(payload).shortcut.len() > 0,
        !crate::text::is_white_space(saved_view(payload).shortcut[0]),
        !crate::text::is_white_space(saved_view(payload).shortcut.last()),
        trimmed(saved_view(payload).shortcut) == saved_view(payload).shortcut,
{
    crate::text::lemma_trimmed_ends(payload.shortcut);
    crate::text::law_trim_idempotent(payload.shortcut);
}

} // verus!
