//! Key combinations parsed by global-hotkey, each kept together with the text
//! it was parsed from.
use vstd::prelude::*;

use global_hotkey::hotkey::HotKey;

verus! {

#[verifier::external_type_specification]
#[verifier::external_body]
pub struct ExHotKey(HotKey);

/// A key combination and the text it was parsed from. Only
/// [`parse_hotkey`] builds one, so its key is always what parsing its source
/// text gave.
pub struct ParsedShortcut {
    key: HotKey,
    source: Ghost<Seq<char>>,
}

impl ParsedShortcut {
    /// The text the key combination was parsed from.
    pub closed spec fn source(&self) -> Seq<char> {
        self.source@
    }

    /// The key combination, for registering with the system.
    pub fn into_key(self) -> HotKey {
        self.key
    }
}

/// What parsing a text with global-hotkey reports: nothing where the text is a
/// key combination (modifiers first, then exactly one key, separated by `+`),
/// otherwise the parser's explanation, which depends on the text alone.
pub uninterp spec fn hotkey_parse_error(text: Seq<char>) -> Option<Seq<char>>;

/// Calls `<HotKey as FromStr>::from_str` of global-hotkey and, on failure, the
/// `Display` of its `HotKeyParseError`. Claimed: the parse succeeds exactly for
/// the texts that the grammar accepts, the key combination returned is the one
/// parsed from `text`, and the error text is the parser's explanation for
/// `text`; both depend on the text alone. Not claimed: which key combination
/// comes out, which on some texts depends on the operating system.
#[verifier::external_body]
pub(crate) fn parse_hotkey(text: &str) -> (r: Result<ParsedShortcut, String>)
    ensures
        match r {
            Ok(p) => p.source() == text@ && hotkey_parse_error(text@) is None,
            Err(m) => hotkey_parse_error(text@) == Some(m@),
        },
{
    match text.parse::<HotKey>() {
        Ok(key) => Ok(ParsedShortcut { key, source: Ghost(text@) }),
        Err(e) => Err(e.to_string()),
    }
}

} // verus!
