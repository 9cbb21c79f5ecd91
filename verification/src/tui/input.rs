//! Key presses, as the interface receives them from the terminal.
use vstd::prelude::*;

verus! {

/// The key of a key press.
#[derive(Debug, Clone, Copy, PartialEq, Eq, Structural)]
pub enum KeyCode {
    Char(char),
    Enter,
    Esc,
    Tab,
    BackTab,
    Backspace,
    Delete,
    Up,
    Down,
    Left,
    Right,
    Home,
    End,
    PageUp,
    PageDown,
    /// Any key the interface does not act on.
    Other,
}

/// The Shift modifier bit.
pub const SHIFT: u8 = 0b0000_0001;

/// The Control modifier bit.
pub const CONTROL: u8 = 0b0000_0010;

/// The Alt modifier bit.
pub const ALT: u8 = 0b0000_0100;

/// A key press: the key and the modifier bits held with it.
#[derive(Debug, Clone, Copy, PartialEq, Eq, Structural)]
pub struct KeyEvent {
    pub code: KeyCode,
    pub modifiers: u8,
}

/// Whether Control is among the modifiers.
pub open spec fn has_control(k: KeyEvent) -> bool {
    k.modifiers & CONTROL != 0
}

impl KeyEvent {
    /// A key pressed without modifiers.
    pub fn plain(code: KeyCode) -> (k: Self)
        ensures
            k.code == code,
            k.modifiers == 0,
    {
        KeyEvent { code, modifiers: 0 }
    }

    /// A key pressed with Control.
    pub fn ctrl(code: KeyCode) -> (k: Self)
        ensures
            k.code == code,
            k.modifiers == CONTROL,
    {
        KeyEvent { code, modifiers: CONTROL }
    }

    /// Whether Control is held.
    pub fn control(&self) -> (b: bool)
        ensures
            b == has_control(*self),
    {
        self.modifiers & CONTROL != 0
    }
}

/// An input event of the interface.
#[derive(Debug, Clone, Copy, PartialEq, Eq, Structural)]
pub enum InputEvent {
    /// A key was pressed.
    Key(KeyEvent),
    /// The terminal was resized.
    Resize,
    /// Quitting was requested.
    Quit,
    /// Nothing happened.
    NoEvent,
}

/// Whether a key press asks to quit: Control+q with no other modifier, or a
/// capital Q.
pub open spec fn is_quit_spec(k: KeyEvent) -> bool {
    (k.code == KeyCode::Char('q') && k.modifiers == CONTROL) || k.code == KeyCode::Char('Q')
}

/// Whether a key press asks to quit.
pub fn is_quit(key: KeyEvent) -> (b: bool)
    ensures
        b == is_quit_spec(key),
{
    match key.code {
        KeyCode::Char('q') => key.modifiers == CONTROL,
        KeyCode::Char('Q') => true,
        _ => false,
    }
}

} // verus!
