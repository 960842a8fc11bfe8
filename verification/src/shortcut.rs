//! The global shortcut that shows and hides the overlay.
use vstd::prelude::*;

use crate::hotkey::{hotkey_parse_error, parse_hotkey, ParsedShortcut};
use crate::text::{joined, joined3, joined4};

verus! {

/// The answer to a shortcut text that is no key combination, with the
/// parser's own explanation `detail`.
pub open spec fn invalid_shortcut_message(text: Seq<char>, detail: Seq<char>) -> Seq<char> {
    "Invalid shortcut `"@ + text + "`: "@ + detail
}

/// The key combination that a shortcut text names, or why it names none: the
/// text and the parser's explanation.
pub fn parse_shortcut(text: &str) -> (r: Result<ParsedShortcut, String>)
    ensures
        match r {
            Ok(p) => p.source() == text@ && hotkey_parse_error(text@) is None,
            Err(m) => hotkey_parse_error(text@) matches Some(detail) && m@
                == invalid_shortcut_message(text@, detail),
        },
{
    match parse_hotkey(text) {
        Ok(p) => Ok(p),
        Err(detail) => Err(invalid_shortcut_error(text, detail.as_str())),
    }
}

/// The answer to a shortcut text that is no key combination, given the
/// parser's explanation.
pub fn invalid_shortcut_error(text: &str, detail: &str) -> (m: String)
    ensures
        m@ == invalid_shortcut_message(text@, detail@),
{
    joined4("Invalid shortcut `", text, "`: ", detail)
}

/// A refused shortcut is answered with the text as given, between backquotes,
/// followed by the parser's own explanation.
pub proof fn law_invalid_shortcut_message(text: Seq<char>, detail: Seq<char>)
    ensures
        invalid_shortcut_message(text, detail) == "Invalid shortcut `"@ + text + "`: "@ + detail,
        invalid_shortcut_message(text, detail).len() == text.len() + detail.len() + 21,
{
    reveal_strlit("Invalid shortcut `");
    reveal_strlit("`: ");
}

/// The answer when the shortcuts registered before cannot be removed.
pub fn clear_shortcuts_error(detail: &str) -> (m: String)
    ensures
        m@ == "Unable to clear current shortcuts: "@ + detail@,
{
    joined("Unable to clear current shortcuts: ", detail)
}

/// The answer when a shortcut cannot be registered with the system.
pub fn register_shortcut_error(shortcut: &str, detail: &str) -> (m: String)
    ensures
        m@ == "Unable to register shortcut `"@ + shortcut@ + "`: "@ + detail@,
{
    joined4("Unable to register shortcut `", shortcut, "`: ", detail)
}

/// Whether a key of the shortcut went down or came up.
#[derive(Clone, Copy, Debug, PartialEq, Eq, Structural)]
pub enum KeyMotion {
    Pressed,
    Released,
}

/// The main window is toggled when the shortcut is pressed, not when it is
/// released.
pub fn shortcut_toggles_main_window(motion: KeyMotion) -> (b: bool)
    ensures
        b == (motion == KeyMotion::Pressed),
{
    match motion {
        KeyMotion::Pressed => true,
        KeyMotion::Released => false,
    }
}

/// The start-up log line for a saved shortcut that could not be registered.
pub open spec fn saved_shortcut_failed_view(saved: Seq<char>, fallback: Seq<char>) -> Seq<char> {
    "Failed to register saved shortcut `"@ + saved + "`. Falling back to default `"@ + fallback
        + "`."@
}

/// The start-up log line for a default shortcut that could not be registered
/// either.
pub open spec fn fallback_shortcut_failed_view(fallback: Seq<char>) -> Seq<char> {
    "Failed to register fallback shortcut `"@ + fallback
        + "`. App will continue without global shortcut."@
}

pub fn saved_shortcut_failed_message(saved: &str, fallback: &str) -> (m: String)
    ensures
        m@ == saved_shortcut_failed_view(saved@, fallback@),
{
    let mut m = joined3("Failed to register saved shortcut `", saved, "`. Falling back to default `");
    m.append(fallback);
    m.append("`.");
    m
}

pub fn fallback_shortcut_failed_message(fallback: &str) -> (m: String)
    ensures
        m@ == fallback_shortcut_failed_view(fallback@),
{
    joined3(
        "Failed to register fallback shortcut `",
        fallback,
        "`. App will continue without global shortcut.",
    )
}

} // verus!
