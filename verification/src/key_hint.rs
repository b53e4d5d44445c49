//! Key chords named by the footer, and the text they are displayed as.

use vstd::prelude::*;
use crate::text::push_char;
use vstd::string::StringExecFns;

verus! {

/// The keys the footer ever names.
#[derive(Clone, Copy, Debug, PartialEq, Eq, Structural)]
pub enum KeyCode {
    Char(char),
    Enter,
    Esc,
}

/// One key chord: a key with optional ctrl/shift modifiers.
#[derive(Clone, Copy, Debug, PartialEq, Eq, Structural)]
pub struct KeyBinding {
    pub code: KeyCode,
    pub ctrl: bool,
    pub shift: bool,
}

pub fn plain(code: KeyCode) -> (r: KeyBinding)
    ensures
        r == (KeyBinding { code, ctrl: false, shift: false }),
{
    KeyBinding { code, ctrl: false, shift: false }
}

pub fn ctrl(code: KeyCode) -> (r: KeyBinding)
    ensures
        r == (KeyBinding { code, ctrl: true, shift: false }),
{
    KeyBinding { code, ctrl: true, shift: false }
}

pub fn shift(code: KeyCode) -> (r: KeyBinding)
    ensures
        r == (KeyBinding { code, ctrl: false, shift: true }),
{
    KeyBinding { code, ctrl: false, shift: true }
}

/// The display name of a bare key.
pub open spec fn spec_key_name(code: KeyCode) -> Seq<char> {
    match code {
        KeyCode::Char(c) => seq![c],
        KeyCode::Enter => "enter"@,
        KeyCode::Esc => "esc"@,
    }
}

/// The display text of a chord: its modifiers, then the key name.
pub open spec fn spec_key_label(b: KeyBinding) -> Seq<char> {
    (if b.ctrl {
        "ctrl + "@
    } else {
        Seq::<char>::empty()
    }) + (if b.shift {
        "shift + "@
    } else {
        Seq::<char>::empty()
    }) + spec_key_name(b.code)
}

impl KeyBinding {
    /// The text this chord is displayed as.
    pub fn label(&self) -> (s: String)
        ensures
            s@ == spec_key_label(*self),
    {
        let mut s = String::new();
        if self.ctrl {
            s.append("ctrl + ");
        }
        if self.shift {
            s.append("shift + ");
        }
        match self.code {
            KeyCode::Char(c) => push_char(&mut s, c),
            KeyCode::Enter => s.append("enter"),
            KeyCode::Esc => s.append("esc"),
        }
        proof {
            assert(s@ =~= spec_key_label(*self));
        }
        s
    }
}

} // verus!
