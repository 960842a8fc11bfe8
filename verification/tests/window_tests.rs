use grok_overlay::window::{
    close_request_response, content_label, content_webview_spec, hide_main_window_plan, home_script,
    home_url, main_label, main_window_spec, open_settings_window_plan, settings_label,
    settings_window_spec, show_main_window_plan, titlebar_label, titlebar_webview_spec,
    toggle_main_window_plan, PageSource, WindowCommand, WindowState, TITLEBAR_HEIGHT,
};

fn apply(mut s: WindowState, cs: &[WindowCommand]) -> WindowState {
    for c in cs {
        match c {
            WindowCommand::Show => s.visible = true,
            WindowCommand::Hide => {
                s.visible = false;
                s.focused = false;
            }
            WindowCommand::Unminimize => s.minimized = false,
            WindowCommand::Focus => s.focused = true,
        }
    }
    s
}

#[test]
fn toggle_hides_a_visible_window_and_shows_a_hidden_one() {
    assert_eq!(toggle_main_window_plan(Some(true)), vec![WindowCommand::Hide]);
    let forward = vec![WindowCommand::Show, WindowCommand::Unminimize, WindowCommand::Focus];
    assert_eq!(toggle_main_window_plan(Some(false)), forward);
    assert_eq!(toggle_main_window_plan(None), forward);
    assert_eq!(show_main_window_plan(), forward);
    assert_eq!(hide_main_window_plan(), vec![WindowCommand::Hide]);
    assert_eq!(open_settings_window_plan(), vec![WindowCommand::Show, WindowCommand::Focus]);
}

#[test]
fn toggling_flips_visibility() {
    for visible in [false, true] {
        for minimized in [false, true] {
            for focused in [false, true] {
                let s = WindowState { visible, minimized, focused };
                let once = apply(s, &toggle_main_window_plan(Some(s.visible)));
                assert_eq!(once.visible, !visible);
                let shown = apply(s, &show_main_window_plan());
                assert_eq!(shown, WindowState { visible: true, minimized: false, focused: true });
                assert_eq!(apply(shown, &show_main_window_plan()), shown);
            }
        }
    }
}

#[test]
fn closing_hides() {
    let r = close_request_response();
    assert!(r.prevent_close);
    assert_eq!(r.commands, vec![WindowCommand::Hide]);
}

#[test]
fn home_page_and_script() {
    assert_eq!(home_url(), "https://grok.com?referrer=grok-overlay-tauri");
    assert_eq!(home_script(), "window.location.replace('https://grok.com?referrer=grok-overlay-tauri')");
}

#[test]
fn labels() {
    assert_eq!(main_label(), "main");
    assert_eq!(settings_label(), "settings");
    assert_eq!(content_label(), "content");
    assert_eq!(titlebar_label(), "titlebar");
}

#[test]
fn window_specs() {
    let m = main_window_spec(false);
    assert_eq!((m.label, m.title, m.width, m.height), ("main", "", 550, 620));
    assert_eq!(m.min_size, Some((420, 460)));
    assert!(m.resizable && !m.decorations && !m.always_on_top && m.centered && m.visible);
    assert!(main_window_spec(true).always_on_top);
    let s = settings_window_spec();
    assert_eq!((s.label, s.title, s.width, s.height), ("settings", "Grok Overlay Settings", 420, 460));
    assert_eq!(s.page, Some(PageSource::Bundled("settings.html")));
    assert!(!s.resizable && !s.visible && s.centered);
}

#[test]
fn webviews_tile_the_main_window() {
    let t = titlebar_webview_spec(550);
    let c = content_webview_spec(550, 620);
    assert_eq!(TITLEBAR_HEIGHT, 36);
    assert_eq!((t.x, t.y, t.width, t.height), (0, 0, 550, 36));
    assert_eq!((c.x, c.y, c.width, c.height), (0, 36, 550, 584));
    assert_eq!(t.page, PageSource::Bundled("titlebar.html"));
    assert_eq!(c.page, PageSource::External("https://grok.com?referrer=grok-overlay-tauri"));
    assert_eq!(t.height + c.height, 620);
}
