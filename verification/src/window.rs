//! The overlay's windows: what is built, and which commands each user action
//! sends to a window.
use vstd::prelude::*;

use crate::text::joined3;

verus! {

/// A command sent to a native window.
#[derive(Clone, Copy, Debug, PartialEq, Eq, Structural)]
pub enum WindowCommand {
    Show,
    Hide,
    Unminimize,
    Focus,
}

/// What a window looks like to the user, as far as the commands change it.
#[derive(Clone, Copy, Debug, PartialEq, Eq, Structural)]
pub struct WindowState {
    pub visible: bool,
    pub minimized: bool,
    pub focused: bool,
}

/// The effect of one command: showing makes the window visible, hiding makes
/// it invisible and takes its focus, restoring ends minimisation, focusing
/// gives it the keyboard focus.
pub open spec fn apply_command(s: WindowState, c: WindowCommand) -> WindowState {
    match c {
        WindowCommand::Show => WindowState { visible: true, ..s },
        WindowCommand::Hide => WindowState { visible: false, focused: false, ..s },
        WindowCommand::Unminimize => WindowState { minimized: false, ..s },
        WindowCommand::Focus => WindowState { focused: true, ..s },
    }
}

/// The effect of commands sent in order.
pub open spec fn apply_commands(s: WindowState, cs: Seq<WindowCommand>) -> WindowState
    decreases cs.len(),
{
    if cs.len() == 0 {
        s
    } else {
        apply_commands(apply_command(s, cs[0]), cs.drop_first())
    }
}

/// Bringing a window to the front: show it, restore it, focus it.
pub open spec fn bring_forward_view() -> Seq<WindowCommand> {
    seq![WindowCommand::Show, WindowCommand::Unminimize, WindowCommand::Focus]
}

/// The commands that toggle the main window, given what asking whether it is
/// visible gave: hide it when it is visible, bring it forward otherwise (also
/// when the answer could not be had).
pub open spec fn toggle_view(visible: Option<bool>) -> Seq<WindowCommand> {
    if visible == Some(true) {
        seq![WindowCommand::Hide]
    } else {
        bring_forward_view()
    }
}

/// The commands that bring the main window forward.
pub fn show_main_window_plan() -> (cs: Vec<WindowCommand>)
    ensures
        cs@ == bring_forward_view(),
{
    let mut cs: Vec<WindowCommand> = Vec::new();
    cs.push(WindowCommand::Show);
    cs.push(WindowCommand::Unminimize);
    cs.push(WindowCommand::Focus);
    assert(cs@ =~= bring_forward_view());
    cs
}

/// The commands that hide the main window.
pub fn hide_main_window_plan() -> (cs: Vec<WindowCommand>)
    ensures
        cs@ == seq![WindowCommand::Hide],
{
    let mut cs: Vec<WindowCommand> = Vec::new();
    cs.push(WindowCommand::Hide);
    assert(cs@ =~= seq![WindowCommand::Hide]);
    cs
}

/// The commands that toggle the main window; `visible` is what asking the
/// window gave, `None` where it could not answer.
pub fn toggle_main_window_plan(visible: Option<bool>) -> (cs: Vec<WindowCommand>)
    ensures
        cs@ == toggle_view(visible),
{
    match visible {
        Some(true) => hide_main_window_plan(),
        _ => show_main_window_plan(),
    }
}

/// The commands that bring the settings window up: show it and focus it.
pub open spec fn open_settings_view() -> Seq<WindowCommand> {
    seq![WindowCommand::Show, WindowCommand::Focus]
}

pub fn open_settings_window_plan() -> (cs: Vec<WindowCommand>)
    ensures
        cs@ == open_settings_view(),
{
    let mut cs: Vec<WindowCommand> = Vec::new();
    cs.push(WindowCommand::Show);
    cs.push(WindowCommand::Focus);
    assert(cs@ =~= open_settings_view());
    cs
}

/// The answer to a request to close one of the overlay's windows.
#[derive(Debug)]
pub struct CloseResponse {
    /// Whether closing is refused.
    pub prevent_close: bool,
    /// What is done to the window instead.
    pub commands: Vec<WindowCommand>,
}

/// Closing a window only hides it: the close is refused and the window hidden,
/// so the overlay keeps running in the tray.
pub fn close_request_response() -> (r: CloseResponse)
    ensures
        r.prevent_close,
        r.commands@ == seq![WindowCommand::Hide],
{
    CloseResponse { prevent_close: true, commands: hide_main_window_plan() }
}

/// After the commands that toggle a window whose visibility could be read, the
/// window's visibility is the opposite of before.
pub proof fn law_toggle_flips_visibility(s: WindowState)
    ensures
        apply_commands(s, toggle_view(Some(s.visible))).visible == !s.visible,
{
    reveal_with_fuel(apply_commands, 4);
}

/// Bringing a window forward leaves it visible, restored and focused, from any
/// state.
pub proof fn law_bring_forward_result(s: WindowState)
    ensures
        apply_commands(s, bring_forward_view()) == (WindowState {
            visible: true,
            minimized: false,
            focused: true,
        }),
{
    reveal_with_fuel(apply_commands, 4);
}

/// Toggling a window whose visibility could not be read brings it forward.
pub proof fn law_toggle_unknown_brings_forward(s: WindowState)
    ensures
        apply_commands(s, toggle_view(None)) == (WindowState {
            visible: true,
            minimized: false,
            focused: true,
        }),
{
    reveal_with_fuel(apply_commands, 4);
}

/// Opening the settings window leaves it visible and focused.
pub proof fn law_open_settings(s: WindowState)
    ensures
        apply_commands(s, open_settings_view()).visible,
        apply_commands(s, open_settings_view()).focused,
        apply_commands(s, open_settings_view()).minimized == s.minimized,
{
    reveal_with_fuel(apply_commands, 3);
}

/// Bringing a window forward twice has the effect of doing it once.
pub proof fn law_bring_forward_idempotent(s: WindowState)
    ensures
        apply_commands(apply_commands(s, bring_forward_view()), bring_forward_view())
            == apply_commands(s, bring_forward_view()),
{
    law_bring_forward_result(s);
    law_bring_forward_result(apply_commands(s, bring_forward_view()));
}

/// Toggling a visible window twice, each time with its visibility read, leaves
/// it visible, restored and focused.
pub proof fn law_toggle_twice(s: WindowState)
    requires
        s.visible,
    ensures
        ({
            let once = apply_commands(s, toggle_view(Some(s.visible)));
            apply_commands(once, toggle_view(Some(once.visible))) == (WindowState {
                visible: true,
                minimized: false,
                focused: true,
            })
        }),
{
    law_toggle_flips_visibility(s);
    let once = apply_commands(s, toggle_view(Some(s.visible)));
    law_bring_forward_result(once);
}

/// Where a webview's page comes from.
#[derive(Clone, Copy, Debug, PartialEq, Eq)]
pub enum PageSource {
    /// A page bundled with the application.
    Bundled(&'static str),
    /// A page on the web.
    External(&'static str),
}

/// How a native window is built. Sizes are logical pixels.
#[derive(Clone, Copy, Debug)]
pub struct WindowSpec {
    pub label: &'static str,
    pub title: &'static str,
    /// The page the window shows itself, where it is a webview window.
    pub page: Option<PageSource>,
    pub width: u32,
    pub height: u32,
    /// The smallest inner size the user can resize it to, where limited.
    pub min_size: Option<(u32, u32)>,
    pub resizable: bool,
    pub decorations: bool,
    pub always_on_top: bool,
    pub centered: bool,
    pub visible: bool,
}

/// A webview placed inside the main window at `(x, y)`.
#[derive(Clone, Copy, Debug)]
pub struct WebviewSpec {
    pub label: &'static str,
    pub page: PageSource,
    pub x: u32,
    pub y: u32,
    pub width: u32,
    pub height: u32,
}

pub open spec fn main_label_view() -> Seq<char> {
    "main"@
}

pub open spec fn settings_label_view() -> Seq<char> {
    "settings"@
}

pub open spec fn content_label_view() -> Seq<char> {
    "content"@
}

pub open spec fn titlebar_label_view() -> Seq<char> {
    "titlebar"@
}

pub open spec fn home_url_view() -> Seq<char> {
    "https://grok.com?referrer=grok-overlay-tauri"@
}

/// The height of the title bar strip at the top of the main window.
pub const TITLEBAR_HEIGHT: u32 = 36;

/// The main window's label.
pub fn main_label() -> (s: &'static str)
    ensures
        s@ == main_label_view(),
{
    "main"
}

/// The settings window's label.
pub fn settings_label() -> (s: &'static str)
    ensures
        s@ == settings_label_view(),
{
    "settings"
}

/// The label of the webview that shows the site.
pub fn content_label() -> (s: &'static str)
    ensures
        s@ == content_label_view(),
{
    "content"
}

/// The label of the webview that draws the title bar.
pub fn titlebar_label() -> (s: &'static str)
    ensures
        s@ == titlebar_label_view(),
{
    "titlebar"
}

/// The page the overlay shows.
pub fn home_url() -> (s: &'static str)
    ensures
        s@ == home_url_view(),
{
    "https://grok.com?referrer=grok-overlay-tauri"
}

/// The script that sends the content webview back to the home page.
pub fn home_script() -> (s: String)
    ensures
        s@ == "window.location.replace('"@ + home_url_view() + "')"@,
{
    joined3("window.location.replace('", home_url(), "')")
}

/// The main window: frameless, 550 by 620, at least 420 by 460, resizable,
/// centred, above other windows as the settings say.
pub fn main_window_spec(always_on_top: bool) -> (w: WindowSpec)
    ensures
        w.label@ == main_label_view(),
        w.title@ == ""@,
        w.page is None,
        w.width == 550 && w.height == 620,
        w.min_size == Some((420u32, 460u32)),
        w.resizable,
        !w.decorations,
        w.always_on_top == always_on_top,
        w.centered,
        w.visible,
{
    WindowSpec {
        label: main_label(),
        title: "",
        page: None,
        width: 550,
        height: 620,
        min_size: Some((420, 460)),
        resizable: true,
        decorations: false,
        always_on_top,
        centered: true,
        visible: true,
    }
}

/// The settings window: the bundled settings page, 420 by 460, fixed size,
/// centred, built hidden.
pub fn settings_window_spec() -> (w: WindowSpec)
    ensures
        w.label@ == settings_label_view(),
        w.title@ == "Grok Overlay Settings"@,
        w.page matches Some(PageSource::Bundled(p)) && p@ == "settings.html"@,
        w.width == 420 && w.height == 460,
        w.min_size is None,
        !w.resizable,
        w.decorations,
        !w.always_on_top,
        w.centered,
        !w.visible,
{
    WindowSpec {
        label: settings_label(),
        title: "Grok Overlay Settings",
        page: Some(PageSource::Bundled("settings.html")),
        width: 420,
        height: 460,
        min_size: None,
        resizable: false,
        decorations: true,
        always_on_top: false,
        centered: true,
        visible: false,
    }
}

/// The title bar strip across the top of a main window `width` wide.
pub fn titlebar_webview_spec(width: u32) -> (v: WebviewSpec)
    ensures
        v.label@ == titlebar_label_view(),
        v.page matches PageSource::Bundled(p) && p@ == "titlebar.html"@,
        v.x == 0 && v.y == 0,
        v.width == width,
        v.height == TITLEBAR_HEIGHT,
{
    WebviewSpec {
        label: titlebar_label(),
        page: PageSource::Bundled("titlebar.html"),
        x: 0,
        y: 0,
        width,
        height: TITLEBAR_HEIGHT,
    }
}

/// The site, below the title bar, filling the rest of a main window of the
/// given size.
pub fn content_webview_spec(width: u32, height: u32) -> (v: WebviewSpec)
    requires
        height >= TITLEBAR_HEIGHT,
    ensures
        v.label@ == content_label_view(),
        v.page matches PageSource::External(u) && u@ == home_url_view(),
        v.x == 0 && v.y == TITLEBAR_HEIGHT,
        v.width == width,
        v.height == height - TITLEBAR_HEIGHT,
{
    WebviewSpec {
        label: content_label(),
        page: PageSource::External(home_url()),
        x: 0,
        y: TITLEBAR_HEIGHT,
        width,
        height: height - TITLEBAR_HEIGHT,
    }
}

} // verus!
