//! Keys as the event stream names them, and the text a key press produces.

use smol_str::SmolStr;
use vstd::prelude::*;

verus! {

/// `smol_str::SmolStr`, an immutable string. The verifier sees nothing of its inside.
#[verifier::external_type_specification]
#[verifier::external_body]
pub struct ExSmolStr(SmolStr);

/// The characters that a small string holds, in order: those of `SmolStr::as_str`.
pub uninterp spec fn smol_text(s: SmolStr) -> Seq<char>;

/// Calls `SmolStr::new`: the new string holds exactly the characters of `text`.
#[verifier::external_body]
pub(crate) fn smol_from_str(text: &str) -> (s: SmolStr)
    ensures
        smol_text(s) == text@,
{
    SmolStr::new(text)
}

/// Calls `SmolStr::from_iter` on the one character `c`: the new string holds `c` alone.
#[verifier::external_body]
pub(crate) fn smol_from_char(c: char) -> (s: SmolStr)
    ensures
        smol_text(s) == seq![c],
{
    SmolStr::from_iter([c])
}

/// Whether two strings hold the same characters.
fn str_eq(a: &str, b: &str) -> (equal: bool)
    ensures
        equal == (a@ == b@),
{
    a.to_owned() == b.to_owned()
}

/// `SmolStr::clone`: the copy holds the same characters.
pub assume_specification[ <SmolStr as Clone>::clone ](s: &SmolStr) -> (c: SmolStr)
    ensures
        smol_text(c) == smol_text(*s),
;

/// A key with a name of its own rather than a character.
#[derive(Clone, Copy, Debug, PartialEq, Eq, Hash, Structural)]
pub enum NamedKey {
    Alt,
    CapsLock,
    Control,
    Shift,
    Enter,
    Tab,
    Space,
    ArrowDown,
    ArrowLeft,
    ArrowRight,
    ArrowUp,
    End,
    Home,
    PageDown,
    PageUp,
    Backspace,
    Delete,
    Insert,
    Escape,
}

/// A physical key by its position on the keyboard.
#[derive(Clone, Copy, Debug, PartialEq, Eq, Hash, Structural)]
pub enum KeyCode {
    Backspace,
    Tab,
    Enter,
    Space,
    Escape,
    Delete,
    ArrowDown,
    ArrowLeft,
    ArrowRight,
    ArrowUp,
}

/// A key code as the platform reports it.
#[derive(Clone, Copy, Debug, PartialEq, Eq, Hash, Structural)]
pub enum NativeKeyCode {
    Unidentified,
}

/// The physical key behind a key event.
#[derive(Clone, Copy, Debug, PartialEq, Eq, Hash, Structural)]
pub enum PhysicalKey {
    Code(KeyCode),
    Unidentified(NativeKeyCode),
}

/// Where on the keyboard a key sits, for keys that exist more than once.
#[derive(Clone, Copy, Debug, PartialEq, Eq, Hash, Structural)]
pub enum KeyLocation {
    Standard,
    Left,
    Right,
    Numpad,
}

/// The meaning of a key press under the current layout.
#[derive(Clone, Debug, PartialEq, Eq, Hash)]
pub enum Key {
    Named(NamedKey),
    Character(SmolStr),
    Unidentified,
    Dead(Option<char>),
}

/// What `key_text` yields for `key`: the key's own characters, or the one
/// character that Tab, Enter or Space types.
pub open spec fn spec_key_text(key: Key) -> Option<Seq<char>> {
    match key {
        Key::Character(text) => Some(smol_text(text)),
        Key::Named(NamedKey::Tab) => Some(seq!['\t']),
        Key::Named(NamedKey::Enter) => Some(seq!['\r']),
        Key::Named(NamedKey::Space) => Some(seq![' ']),
        _ => None,
    }
}

/// The text that pressing `key` inserts, if it inserts any.
pub fn key_text(key: &Key) -> (text: Option<SmolStr>)
    ensures
        match spec_key_text(*key) {
            Some(chars) => text matches Some(s) && smol_text(s) == chars,
            None => text is None,
        },
{
    match key {
        Key::Character(text) => Some(text.clone()),
        Key::Named(NamedKey::Tab) => {
            proof {
                reveal_strlit("\t");
            }
            assert("\t"@ =~= seq!['\t']);
            Some(smol_from_str("\t"))
        },
        Key::Named(NamedKey::Enter) => {
            proof {
                reveal_strlit("\r");
            }
            assert("\r"@ =~= seq!['\r']);
            Some(smol_from_str("\r"))
        },
        Key::Named(NamedKey::Space) => {
            proof {
                reveal_strlit(" ");
            }
            assert(" "@ =~= seq![' ']);
            Some(smol_from_str(" "))
        },
        _ => None,
    }
}

/// The named key that the browser calls `value`, if the library names it.
pub open spec fn named_key_of(value: Seq<char>) -> Option<NamedKey> {
    if value == "Alt"@ {
        Some(NamedKey::Alt)
    } else if value == "CapsLock"@ {
        Some(NamedKey::CapsLock)
    } else if value == "Control"@ {
        Some(NamedKey::Control)
    } else if value == "Shift"@ {
        Some(NamedKey::Shift)
    } else if value == "Enter"@ {
        Some(NamedKey::Enter)
    } else if value == "Tab"@ {
        Some(NamedKey::Tab)
    } else if value == " "@ {
        Some(NamedKey::Space)
    } else if value == "ArrowDown"@ {
        Some(NamedKey::ArrowDown)
    } else if value == "ArrowLeft"@ {
        Some(NamedKey::ArrowLeft)
    } else if value == "ArrowRight"@ {
        Some(NamedKey::ArrowRight)
    } else if value == "ArrowUp"@ {
        Some(NamedKey::ArrowUp)
    } else if value == "End"@ {
        Some(NamedKey::End)
    } else if value == "Home"@ {
        Some(NamedKey::Home)
    } else if value == "PageDown"@ {
        Some(NamedKey::PageDown)
    } else if value == "PageUp"@ {
        Some(NamedKey::PageUp)
    } else if value == "Backspace"@ {
        Some(NamedKey::Backspace)
    } else if value == "Delete"@ {
        Some(NamedKey::Delete)
    } else if value == "Insert"@ {
        Some(NamedKey::Insert)
    } else if value == "Escape"@ {
        Some(NamedKey::Escape)
    } else {
        None
    }
}

impl NamedKey {
    /// The named key that the browser calls `value` in the `key` attribute of a keyboard
    /// event, if the library names it.
    pub fn from_key_attribute_value(value: &str) -> (named: Option<NamedKey>)
        ensures
            named == named_key_of(value@),
    {
        if str_eq(value, "Alt") {
            Some(NamedKey::Alt)
        } else if str_eq(value, "CapsLock") {
            Some(NamedKey::CapsLock)
        } else if str_eq(value, "Control") {
            Some(NamedKey::Control)
        } else if str_eq(value, "Shift") {
            Some(NamedKey::Shift)
        } else if str_eq(value, "Enter") {
            Some(NamedKey::Enter)
        } else if str_eq(value, "Tab") {
            Some(NamedKey::Tab)
        } else if str_eq(value, " ") {
            Some(NamedKey::Space)
        } else if str_eq(value, "ArrowDown") {
            Some(NamedKey::ArrowDown)
        } else if str_eq(value, "ArrowLeft") {
            Some(NamedKey::ArrowLeft)
        } else if str_eq(value, "ArrowRight") {
            Some(NamedKey::ArrowRight)
        } else if str_eq(value, "ArrowUp") {
            Some(NamedKey::ArrowUp)
        } else if str_eq(value, "End") {
            Some(NamedKey::End)
        } else if str_eq(value, "Home") {
            Some(NamedKey::Home)
        } else if str_eq(value, "PageDown") {
            Some(NamedKey::PageDown)
        } else if str_eq(value, "PageUp") {
            Some(NamedKey::PageUp)
        } else if str_eq(value, "Backspace") {
            Some(NamedKey::Backspace)
        } else if str_eq(value, "Delete") {
            Some(NamedKey::Delete)
        } else if str_eq(value, "Insert") {
            Some(NamedKey::Insert)
        } else if str_eq(value, "Escape") {
            Some(NamedKey::Escape)
        } else {
            None
        }
    }
}

/// Whether `key` is the key that the browser calls `value`: the named key of that name,
/// the unidentified key, a dead key, or else the key that types `value`.
pub open spec fn is_key_of(key: Key, value: Seq<char>) -> bool {
    match named_key_of(value) {
        Some(named) => key == Key::Named(named),
        None => {
            if value == "Unidentified"@ {
                key == Key::Unidentified
            } else if value == "Dead"@ {
                key == Key::Dead(None)
            } else {
                key matches Key::Character(typed) && smol_text(typed) == value
            }
        },
    }
}

impl Key {
    /// The key that the browser calls `value` in the `key` attribute of a keyboard event.
    pub fn from_key_attribute_value(value: &str) -> (key: Key)
        ensures
            is_key_of(key, value@),
    {
        match NamedKey::from_key_attribute_value(value) {
            Some(named) => Key::Named(named),
            None => {
                if str_eq(value, "Unidentified") {
                    Key::Unidentified
                } else if str_eq(value, "Dead") {
                    Key::Dead(None)
                } else {
                    Key::Character(smol_from_str(value))
                }
            },
        }
    }
}

/// The physical key that the browser calls `code`.
pub open spec fn physical_key_of(code: Seq<char>) -> PhysicalKey {
    if code == "Backspace"@ {
        PhysicalKey::Code(KeyCode::Backspace)
    } else if code == "Tab"@ {
        PhysicalKey::Code(KeyCode::Tab)
    } else if code == "Enter"@ {
        PhysicalKey::Code(KeyCode::Enter)
    } else if code == "Space"@ {
        PhysicalKey::Code(KeyCode::Space)
    } else if code == "Escape"@ {
        PhysicalKey::Code(KeyCode::Escape)
    } else if code == "Delete"@ {
        PhysicalKey::Code(KeyCode::Delete)
    } else if code == "ArrowDown"@ {
        PhysicalKey::Code(KeyCode::ArrowDown)
    } else if code == "ArrowLeft"@ {
        PhysicalKey::Code(KeyCode::ArrowLeft)
    } else if code == "ArrowRight"@ {
        PhysicalKey::Code(KeyCode::ArrowRight)
    } else if code == "ArrowUp"@ {
        PhysicalKey::Code(KeyCode::ArrowUp)
    } else {
        PhysicalKey::Unidentified(NativeKeyCode::Unidentified)
    }
}

impl PhysicalKey {
    /// The physical key that the browser calls `code` in the `code` attribute of a
    /// keyboard event; a code that the library does not name is unidentified.
    pub fn from_key_code_attribute_value(code: &str) -> (key: PhysicalKey)
        ensures
            key == physical_key_of(code@),
    {
        if str_eq(code, "Backspace") {
            PhysicalKey::Code(KeyCode::Backspace)
        } else if str_eq(code, "Tab") {
            PhysicalKey::Code(KeyCode::Tab)
        } else if str_eq(code, "Enter") {
            PhysicalKey::Code(KeyCode::Enter)
        } else if str_eq(code, "Space") {
            PhysicalKey::Code(KeyCode::Space)
        } else if str_eq(code, "Escape") {
            PhysicalKey::Code(KeyCode::Escape)
        } else if str_eq(code, "Delete") {
            PhysicalKey::Code(KeyCode::Delete)
        } else if str_eq(code, "ArrowDown") {
            PhysicalKey::Code(KeyCode::ArrowDown)
        } else if str_eq(code, "ArrowLeft") {
            PhysicalKey::Code(KeyCode::ArrowLeft)
        } else if str_eq(code, "ArrowRight") {
            PhysicalKey::Code(KeyCode::ArrowRight)
        } else if str_eq(code, "ArrowUp") {
            PhysicalKey::Code(KeyCode::ArrowUp)
        } else {
            PhysicalKey::Unidentified(NativeKeyCode::Unidentified)
        }
    }
}

} // verus!
