//! The error texts that the overlay reports; each names the failed step and
//! carries the underlying error's own text.
use vstd::prelude::*;

use crate::text::{joined, joined4};

verus! {

pub fn config_dir_error(detail: &str) -> (m: String)
    ensures
        m@ == "Unable to resolve app config directory: "@ + detail@,
{
    joined("Unable to resolve app config directory: ", detail)
}

pub fn create_config_dir_error(dir: &str, detail: &str) -> (m: String)
    ensures
        m@ == "Unable to create app config directory "@ + dir@ + ": "@ + detail@,
{
    joined4("Unable to create app config directory ", dir, ": ", detail)
}

pub fn serialize_error(detail: &str) -> (m: String)
    ensures
        m@ == "Unable to serialize settings: "@ + detail@,
{
    joined("Unable to serialize settings: ", detail)
}

pub fn write_error(path: &str, detail: &str) -> (m: String)
    ensures
        m@ == "Unable to write "@ + path@ + ": "@ + detail@,
{
    joined4("Unable to write ", path, ": ", detail)
}

pub fn settings_window_error(detail: &str) -> (m: String)
    ensures
        m@ == "Unable to create settings window: "@ + detail@,
{
    joined("Unable to create settings window: ", detail)
}

pub fn show_settings_window_error(detail: &str) -> (m: String)
    ensures
        m@ == "Unable to show settings window: "@ + detail@,
{
    joined("Unable to show settings window: ", detail)
}

pub fn focus_settings_window_error(detail: &str) -> (m: String)
    ensures
        m@ == "Unable to focus settings window: "@ + detail@,
{
    joined("Unable to focus settings window: ", detail)
}

pub fn always_on_top_error(detail: &str) -> (m: String)
    ensures
        m@ == "Unable to apply always-on-top: "@ + detail@,
{
    joined("Unable to apply always-on-top: ", detail)
}

pub fn tray_menu_error(detail: &str) -> (m: String)
    ensures
        m@ == "Unable to create tray menu: "@ + detail@,
{
    joined("Unable to create tray menu: ", detail)
}

pub fn tray_icon_error(detail: &str) -> (m: String)
    ensures
        m@ == "Unable to build tray icon: "@ + detail@,
{
    joined("Unable to build tray icon: ", detail)
}

} // verus!
