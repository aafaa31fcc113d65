use vstd::prelude::*;

verus! {

/// A key as the library reads it: which key was pressed, without its modifiers.
#[derive(Clone, Copy, Debug, PartialEq, Eq, Structural)]
pub enum Key {
    Char(char),
    Backspace,
    Enter,
    Esc,
    Tab,
    BackTab,
    Up,
    Down,
    Left,
    Right,
    /// Any key the library gives no meaning to.
    Other,
}

/// A key together with the modifiers that were held.
#[derive(Clone, Copy, Debug, PartialEq, Eq, Structural)]
pub struct KeyPress {
    pub key: Key,
    pub ctrl: bool,
    pub alt: bool,
    pub shift: bool,
}

impl KeyPress {
    /// A key pressed without modifiers.
    pub fn plain(key: Key) -> (res: KeyPress)
        ensures
            res == (KeyPress { key, ctrl: false, alt: false, shift: false }),
    {
        KeyPress { key, ctrl: false, alt: false, shift: false }
    }
}

} // verus!
