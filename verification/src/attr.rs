//! Plain-value models of terminal key events, and the classification
//! tables that turn a key code or a modifier set into its normalized
//! string name.

use vstd::prelude::*;
use vstd::string::StringExecFns;

verus! {

/// The set of modifier keys held while a key was pressed.
///
/// `alt` stands for any held modifier other than Control and Shift, so an
/// exotic modifier still makes the set non-empty.
#[derive(Clone, Copy, Debug, PartialEq, Eq, Structural)]
pub struct Modifiers {
    pub shift: bool,
    pub control: bool,
    pub alt: bool,
}

impl Modifiers {
    /// No modifier key held at all.
    pub open spec fn spec_is_empty(self) -> bool {
        !self.shift && !self.control && !self.alt
    }

    /// Exactly the Control key, and nothing else.
    pub open spec fn spec_is_control_only(self) -> bool {
        self.control && !self.shift && !self.alt
    }

    pub fn none() -> (r: Modifiers)
        ensures
            r == (Modifiers { shift: false, control: false, alt: false }),
    {
        Modifiers { shift: false, control: false, alt: false }
    }

    pub fn control() -> (r: Modifiers)
        ensures
            r == (Modifiers { shift: false, control: true, alt: false }),
    {
        Modifiers { shift: false, control: true, alt: false }
    }

    pub fn is_empty(&self) -> (r: bool)
        ensures
            r == self.spec_is_empty(),
    {
        !self.shift && !self.control && !self.alt
    }

    pub fn is_control_only(&self) -> (r: bool)
        ensures
            r == self.spec_is_control_only(),
    {
        self.control && !self.shift && !self.alt
    }
}

/// A key code as delivered by the terminal, reduced to the distinctions
/// the classification table makes. Every key that the table maps to
/// `"UNKNOWN"` and that is neither a printable character nor the null
/// code (function keys, Tab, Backspace, ...) is `Other`.
#[derive(Clone, Copy, Debug, PartialEq, Eq, Structural)]
pub enum KeyCode {
    Down,
    Enter,
    Esc,
    Up,
    Left,
    Right,
    Char(char),
    Null,
    Other,
}

/// The key classification table: the normalized name of a key code.
pub open spec fn key_name(code: KeyCode) -> Seq<char> {
    match code {
        KeyCode::Down => "DOWN"@,
        KeyCode::Enter => "ENTER"@,
        KeyCode::Right => "ENTER"@,
        KeyCode::Esc => "ESC"@,
        KeyCode::Left => "ESC"@,
        KeyCode::Up => "UP"@,
        KeyCode::Char(c) => seq![c],
        KeyCode::Null => "UNKNOWN"@,
        KeyCode::Other => "UNKNOWN"@,
    }
}

/// The modifier classification table: `"CONTROL"` for exactly the Control
/// key, `"UNKNOWN"` for every other set (the empty set included; the
/// capture loop never asks for the empty set's name).
pub open spec fn modifier_name(mods: Modifiers) -> Seq<char> {
    if mods.spec_is_control_only() {
        "CONTROL"@
    } else {
        "UNKNOWN"@
    }
}

/// Either half of a key event, ready to be classified: a key code or a
/// modifier set.
#[derive(Debug)]
pub enum ValidKeyCodes {
    KeyCode(KeyCode),
    KeyModifiers(Modifiers),
}

/// The normalized name of either half of a key event.
pub open spec fn spec_from_val(val: ValidKeyCodes) -> Seq<char> {
    match val {
        ValidKeyCodes::KeyCode(key) => key_name(key),
        ValidKeyCodes::KeyModifiers(key_mod) => modifier_name(key_mod),
    }
}

impl ValidKeyCodes {
    /// Classifies a key code or a modifier set into its normalized name.
    pub fn from_val(val: ValidKeyCodes) -> (r: String)
        ensures
            r@ == spec_from_val(val),
    {
        match val {
            ValidKeyCodes::KeyCode(key) => match key {
                KeyCode::Down => String::from_str("DOWN"),
                KeyCode::Enter | KeyCode::Right => String::from_str("ENTER"),
                KeyCode::Esc | KeyCode::Left => String::from_str("ESC"),
                KeyCode::Up => String::from_str("UP"),
                KeyCode::Char(c) => char_string(c),
                KeyCode::Null | KeyCode::Other => String::from_str("UNKNOWN"),
            },
            ValidKeyCodes::KeyModifiers(key_mod) => {
                if key_mod.is_control_only() {
                    String::from_str("CONTROL")
                } else {
                    String::from_str("UNKNOWN")
                }
            },
        }
    }
}

/// The one-character string holding exactly `c`.
fn char_string(c: char) -> (r: String)
    ensures
        r@ == seq![c],
{
    let mut s = String::new();
    push_char(&mut s, c);
    proof {
        assert(Seq::<char>::empty().push(c) =~= seq![c]);
    }
    s
}

/// Relies on std's `String::push`: appends the given character to the end
/// of the string.
#[verifier::external_body]
fn push_char(s: &mut String, c: char)
    ensures
        final(s)@ == old(s)@.push(c),
{
    s.push(c)
}

} // verus!
