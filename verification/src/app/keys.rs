//! Terminal input as plain values: keys, modifiers, mouse events.
use vstd::prelude::*;

verus! {

/// A key on the keyboard.
#[derive(PartialEq, Eq, Structural, Clone, Copy, Debug)]
pub enum KeyCode {
    Backspace,
    Enter,
    Left,
    Right,
    Up,
    Down,
    Home,
    End,
    PageUp,
    PageDown,
    Tab,
    BackTab,
    Delete,
    Insert,
    F(u8),
    Char(char),
    Null,
    Esc,
    /// Any other key (lock keys, media keys, modifier keys, ...).
    Other,
}

/// Modifier keys held during an event.
#[derive(PartialEq, Eq, Structural, Clone, Copy, Debug)]
pub struct KeyModifiers {
    pub shift: bool,
    pub control: bool,
    pub alt: bool,
    pub super_key: bool,
    pub hyper: bool,
    pub meta: bool,
}

impl KeyModifiers {
    /// No modifier held.
    pub fn none() -> (res: Self)
        ensures
            res == KeyModifiers::empty_spec(),
    {
        KeyModifiers {
            shift: false,
            control: false,
            alt: false,
            super_key: false,
            hyper: false,
            meta: false,
        }
    }

    pub open spec fn empty_spec() -> KeyModifiers {
        KeyModifiers {
            shift: false,
            control: false,
            alt: false,
            super_key: false,
            hyper: false,
            meta: false,
        }
    }
}

/// Whether a key was pressed, repeated or released.
#[derive(PartialEq, Eq, Structural, Clone, Copy, Debug)]
pub enum KeyEventKind {
    Press,
    Repeat,
    Release,
}

/// A key event.
#[derive(PartialEq, Eq, Structural, Clone, Copy, Debug)]
pub struct KeyInput {
    pub code: KeyCode,
    pub modifiers: KeyModifiers,
    pub kind: KeyEventKind,
    /// Keyboard state flags (keypad, caps lock, num lock), as bits.
    pub state: u8,
}

/// A key press with no modifier, as the key bindings write it.
pub open spec fn plain_key(code: KeyCode) -> KeyInput {
    KeyInput { code, modifiers: KeyModifiers::empty_spec(), kind: KeyEventKind::Press, state: 0 }
}

/// `c` is an ASCII uppercase letter.
pub open spec fn is_upper(c: char) -> bool {
    'A' <= c <= 'Z'
}

/// `c` is an ASCII lowercase letter.
pub open spec fn is_lower(c: char) -> bool {
    'a' <= c <= 'z'
}

/// The ASCII uppercase form of `c`.
pub open spec fn upper(c: char) -> char {
    if is_lower(c) {
        ((c as u32) - 32) as char
    } else {
        c
    }
}

/// A key event with its letter case made canonical: shift is held exactly
/// when the character is an uppercase letter.
pub open spec fn normalized(k: KeyInput) -> KeyInput {
    match k.code {
        KeyCode::Char(c) => {
            if is_upper(c) {
                KeyInput { modifiers: KeyModifiers { shift: true, ..k.modifiers }, ..k }
            } else if k.modifiers.shift {
                KeyInput { code: KeyCode::Char(upper(c)), ..k }
            } else {
                k
            }
        },
        _ => k,
    }
}

/// Two key events are the same key: equal once their case is canonical.
pub open spec fn same_key(a: KeyInput, b: KeyInput) -> bool {
    normalized(a) == normalized(b)
}

fn to_upper(c: char) -> (res: char)
    ensures
        res == upper(c),
{
    if 'a' <= c && c <= 'z' {
        let u: u32 = (c as u32) - 32;
        char_from(u)
    } else {
        c
    }
}

fn char_from(u: u32) -> (res: char)
    requires
        u < 128,
    ensures
        res == u as char,
{
    let b: u8 = u as u8;
    b as char
}

/// The canonical form of a key event (see `normalized`).
pub fn normalize(k: KeyInput) -> (res: KeyInput)
    ensures
        res == normalized(k),
{
    match k.code {
        KeyCode::Char(c) => {
            if 'A' <= c && c <= 'Z' {
                KeyInput { modifiers: KeyModifiers { shift: true, ..k.modifiers }, ..k }
            } else if k.modifiers.shift {
                KeyInput { code: KeyCode::Char(to_upper(c)), ..k }
            } else {
                k
            }
        },
        _ => k,
    }
}

/// Whether two key events are the same key (see `same_key`).
pub fn keys_match(a: KeyInput, b: KeyInput) -> (res: bool)
    ensures
        res == same_key(a, b),
{
    normalize(a) == normalize(b)
}

/// A key event from the terminal.
#[derive(Clone, Copy, Debug)]
pub struct KeyPress {
    pub key: KeyInput,
}

/// A mouse button.
#[derive(PartialEq, Eq, Structural, Clone, Copy, Debug)]
pub enum MouseButton {
    Left,
    Right,
    Middle,
}

/// What the mouse did.
#[derive(PartialEq, Eq, Structural, Clone, Copy, Debug)]
pub enum MouseEventKind {
    Down(MouseButton),
    Up(MouseButton),
    Drag(MouseButton),
    Moved,
    ScrollDown,
    ScrollUp,
    ScrollLeft,
    ScrollRight,
}

/// A mouse event at a cell of the terminal.
#[derive(PartialEq, Eq, Structural, Clone, Copy, Debug)]
pub struct MouseInput {
    pub kind: MouseEventKind,
    pub column: u16,
    pub row: u16,
    pub modifiers: KeyModifiers,
}

/// An event from the terminal.
#[derive(Clone, Debug)]
pub enum InputEvent {
    FocusGained,
    FocusLost,
    Key(KeyPress),
    Mouse(MouseInput),
    Paste(String),
    Resize(u16, u16),
}

/// Size of the terminal in cells.
#[derive(PartialEq, Eq, Structural, Clone, Copy, Debug)]
pub struct Size {
    pub width: u16,
    pub height: u16,
}

} // verus!
