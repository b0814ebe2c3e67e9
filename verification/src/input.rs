//! Keyboard and mouse input as the widgets see it.
use vstd::prelude::*;

verus! {

/// A key on the keyboard.
#[derive(Debug, Clone, Copy, PartialEq, Eq, Structural)]
pub enum Key {
    /// A printable character.
    Char(char),
    /// Enter / Return.
    Enter,
    /// Escape.
    Escape,
    /// Backspace.
    Backspace,
    /// Delete.
    Delete,
    /// Tab.
    Tab,
    /// Arrow up.
    Up,
    /// Arrow down.
    Down,
    /// Arrow left.
    Left,
    /// Arrow right.
    Right,
    /// Home.
    Home,
    /// End.
    End,
    /// Page up.
    PageUp,
    /// Page down.
    PageDown,
}

/// Modifier keys held with a key or a mouse event.
#[derive(Debug, Clone, Copy, PartialEq, Eq, Structural)]
pub struct Modifiers {
    /// Control.
    pub ctrl: bool,
    /// Alt / Option.
    pub alt: bool,
    /// Shift.
    pub shift: bool,
}

impl Modifiers {
    /// No modifier held.
    pub fn none() -> (r: Self)
        ensures
            !r.ctrl && !r.alt && !r.shift,
    {
        Modifiers { ctrl: false, alt: false, shift: false }
    }

    /// Whether any modifier is held.
    pub fn any(&self) -> (r: bool)
        ensures
            r == (self.ctrl || self.alt || self.shift),
    {
        self.ctrl || self.alt || self.shift
    }
}

/// A key together with the modifiers held.
#[derive(Debug, Clone, Copy, PartialEq, Eq, Structural)]
pub struct KeyCombo {
    /// The key.
    pub key: Key,
    /// The modifiers.
    pub modifiers: Modifiers,
}

impl KeyCombo {
    /// A key with no modifier.
    pub fn plain(key: Key) -> (r: Self)
        ensures
            r.key == key,
            !r.modifiers.ctrl && !r.modifiers.alt && !r.modifiers.shift,
    {
        KeyCombo { key, modifiers: Modifiers::none() }
    }
}

/// Direction of a mouse wheel scroll.
#[derive(Debug, Clone, Copy, PartialEq, Eq, Structural)]
pub enum ScrollDirection {
    /// Wheel up.
    Up,
    /// Wheel down.
    Down,
    /// Wheel left.
    Left,
    /// Wheel right.
    Right,
}

/// The name of an application handler.
#[derive(Debug, Clone)]
pub struct HandlerId(pub String);

} // verus!
