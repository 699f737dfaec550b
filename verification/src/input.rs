//! Terminal input as the viewers see it: which key, with which exact set of
//! modifiers, and the mouse wheel.

use vstd::prelude::*;

verus! {

/// The exact set of modifier keys held with a key. A binding for one set
/// does not fire for a larger one (`Ctrl+Shift+f` is `Other`, not `Control`).
#[derive(Clone, Copy, PartialEq, Eq, Structural, Debug)]
pub enum Mods {
    Empty,
    Shift,
    Control,
    Other,
}

/// A key on the keyboard.
#[derive(Clone, Copy, PartialEq, Eq, Structural, Debug)]
pub enum Key {
    Char(char),
    Esc,
    Left,
    Right,
    Up,
    Down,
    PageUp,
    PageDown,
    Home,
    End,
    Other,
}

/// One key event: the key, the modifiers held, and whether it is a release.
#[derive(Clone, Copy, PartialEq, Eq, Structural, Debug)]
pub struct KeyPress {
    pub key: Key,
    pub mods: Mods,
    pub release: bool,
}

/// One terminal event.
#[derive(Clone, Copy, PartialEq, Eq, Structural, Debug)]
pub enum TermEvent {
    Key(KeyPress),
    WheelUp,
    WheelDown,
    WheelLeft,
    WheelRight,
    Resize,
    Other,
}

/// Whether `ev` is a key event (of any kind) for `key` with modifiers `mods`.
pub open spec fn is_key(ev: TermEvent, key: Key, mods: Mods) -> bool {
    ev matches TermEvent::Key(k) && k.key == key && k.mods == mods
}

/// Whether `ev` is a key event (of any kind) for `key`, whatever the modifiers.
pub open spec fn is_key_any(ev: TermEvent, key: Key) -> bool {
    ev matches TermEvent::Key(k) && k.key == key
}

} // verus!
