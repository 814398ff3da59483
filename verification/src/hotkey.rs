//! Push-to-talk key names and key-event filtering.
//!
//! Key names resolve to Linux input key codes through evdev's name table;
//! reading `/dev/input` itself is the program's job, which hands each raw
//! event to [`classify_key_event`].

use vstd::prelude::*;

use crate::text::{has_prefix, to_uppercase, unicode_uppercase};

verus! {

/// An edge of the configured key: pressed down or let go.
#[derive(Debug, Clone, Copy, PartialEq, Eq, Structural)]
pub enum HotkeyEvent {
    Pressed,
    Released,
}

/// A key name that evdev does not know.
#[derive(Debug, Clone)]
pub enum HotkeyError {
    UnknownKey { name: String },
}

/// The message shown for an unknown key name.
pub open spec fn unknown_key_message(name: Seq<char>) -> Seq<char> {
    "tecla desconhecida: '"@ + name + "' (tente por ex. F12, F9, PAUSE)"@
}

impl HotkeyError {
    /// The message shown to the user.
    pub fn message(&self) -> (r: String)
        ensures
            match self {
                HotkeyError::UnknownKey { name } => r@ == unknown_key_message(name@),
            },
    {
        match self {
            HotkeyError::UnknownKey { name } => {
                let mut r = String::from_str("tecla desconhecida: '");
                r.append(name.as_str());
                r.append("' (tente por ex. F12, F9, PAUSE)");
                r
            },
        }
    }
}

/// The name evdev gives to the key code `KeyCode::from_str` finds for
/// `name`, if any (`KEY_F12` for 88, ...). A lookup in evdev's fixed name
/// table: a function of the name alone.
pub uninterp spec fn evdev_key_code(name: Seq<char>) -> Option<u16>;

/// `evdev::KeyCode::from_str`, taken by its code: `Some(code)` where evdev's
/// name table holds `name`, `None` otherwise; named by `evdev_key_code`.
#[verifier::external_body]
fn key_code_from_name(name: &str) -> (r: Option<u16>)
    ensures
        r == evdev_key_code(name@),
{
    name.parse::<evdev::KeyCode>().ok().map(|k| k.code())
}

/// The characters `K`, `E`, `Y`, `_`.
pub open spec fn key_prefix() -> Seq<char> {
    seq!['K', 'E', 'Y', '_']
}

/// The evdev name looked up for a friendly key name: the name in upper
/// case, with `KEY_` put in front unless it already starts with it.
pub open spec fn full_key_name(name: Seq<char>) -> Seq<char> {
    let upper = unicode_uppercase(name);
    if upper.len() >= 4 && upper.subrange(0, 4) == key_prefix() {
        upper
    } else {
        key_prefix() + upper
    }
}

/// The key code that a friendly key name denotes, if any.
pub open spec fn key_code_of(name: Seq<char>) -> Option<u16> {
    evdev_key_code(full_key_name(name))
}

/// Key names are read without regard to case: names with the same upper
/// case denote the same key.
pub proof fn lemma_key_names_ignore_case(a: Seq<char>, b: Seq<char>)
    requires
        unicode_uppercase(a) == unicode_uppercase(b),
    ensures
        key_code_of(a) == key_code_of(b),
{
}

/// Maps a friendly name ("F12", "pause", "KEY_F9") to its evdev key code.
pub fn parse_key(name: &str) -> (r: Result<u16, HotkeyError>)
    ensures
        key_code_of(name@) is Some <==> r is Ok,
        r matches Ok(code) ==> key_code_of(name@) == Some(code),
        r matches Err(HotkeyError::UnknownKey { name: n }) ==> n@ == name@,
{
    let upper = to_uppercase(name);
    let prefix = String::from_str("KEY_");
    proof {
        reveal_strlit("KEY_");
        assert("KEY_"@ =~= key_prefix());
    }
    let full = if has_prefix(upper.as_str(), prefix.as_str()) {
        upper
    } else {
        let mut f = prefix;
        f.append(upper.as_str());
        f
    };
    match key_code_from_name(full.as_str()) {
        Some(code) => Ok(code),
        None => Err(HotkeyError::UnknownKey { name: String::from_str(name) }),
    }
}

/// What one raw input event means for the watched key: a key-type event for
/// `key` with value 1 is a press, with value 0 a release; everything else
/// (other keys, other event types, kernel auto-repeat with value 2) is
/// ignored.
pub open spec fn key_event_meaning(is_key_type: bool, code: u16, value: i32, key: u16) -> Option<
    HotkeyEvent,
> {
    if !is_key_type || code != key {
        None
    } else if value == 1 {
        Some(HotkeyEvent::Pressed)
    } else if value == 0 {
        Some(HotkeyEvent::Released)
    } else {
        None
    }
}

/// Classifies one raw evdev event for the watched key.
pub fn classify_key_event(is_key_type: bool, code: u16, value: i32, key: u16) -> (r: Option<
    HotkeyEvent,
>)
    ensures
        r == key_event_meaning(is_key_type, code, value, key),
{
    if !is_key_type || code != key {
        None
    } else if value == 1 {
        Some(HotkeyEvent::Pressed)
    } else if value == 0 {
        Some(HotkeyEvent::Released)
    } else {
        None
    }
}

} // verus!
