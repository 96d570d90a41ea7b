//! Key presses as the plugin sees them.

use vstd::prelude::*;

verus! {

/// The key of a key press, without its modifiers.
#[derive(Clone, Copy, Debug, PartialEq, Eq, Structural)]
pub enum BareKey {
    PageDown,
    PageUp,
    Left,
    Down,
    Up,
    Right,
    Home,
    End,
    Backspace,
    Delete,
    Insert,
    F(u8),
    Char(char),
    Tab,
    Esc,
    Enter,
    CapsLock,
    ScrollLock,
    NumLock,
    PrintScreen,
    Pause,
    Menu,
}

/// A key press: the key and which modifier keys were held.
#[derive(Clone, Copy, Debug, PartialEq, Eq, Structural)]
pub struct KeyWithModifier {
    pub bare_key: BareKey,
    pub ctrl: bool,
    pub alt: bool,
    pub shift: bool,
    pub super_key: bool,
}

impl KeyWithModifier {
    /// No modifier key was held.
    pub open spec fn spec_no_modifiers(self) -> bool {
        !self.ctrl && !self.alt && !self.shift && !self.super_key
    }

    /// A key press without modifiers.
    pub fn new(bare_key: BareKey) -> (res: Self)
        ensures
            res.bare_key == bare_key,
            res.spec_no_modifiers(),
    {
        KeyWithModifier { bare_key, ctrl: false, alt: false, shift: false, super_key: false }
    }

    /// The same key with Ctrl held as well.
    pub fn with_ctrl(self) -> (res: Self)
        ensures
            res == (KeyWithModifier { ctrl: true, ..self }),
    {
        KeyWithModifier { ctrl: true, ..self }
    }

    /// No modifier key was held.
    pub fn has_no_modifiers(&self) -> (res: bool)
        ensures
            res == self.spec_no_modifiers(),
    {
        !self.ctrl && !self.alt && !self.shift && !self.super_key
    }

    /// Ctrl was held (other modifiers may have been held too).
    pub fn has_ctrl(&self) -> (res: bool)
        ensures
            res == self.ctrl,
    {
        self.ctrl
    }
}

} // verus!
