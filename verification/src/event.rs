//! What the terminal reports, and what the application is told of it.

use crate::Winter;
use vstd::prelude::*;

verus! {

/// The modifier keys that were held with an event, one bit each.
pub struct KeyModifiers(u32);

impl View for KeyModifiers {
    type V = u32;

    closed spec fn view(&self) -> u32 {
        self.0
    }
}

/// The bits for the modifier keys that are held.
pub open spec fn modifier_bits(shift: bool, control: bool, alt: bool) -> u32 {
    ((if control {
        KeyModifiers::CONTROL
    } else {
        0
    }) + (if shift {
        KeyModifiers::SHIFT
    } else {
        0
    }) + (if alt {
        KeyModifiers::ALT
    } else {
        0
    })) as u32
}

/// Each modifier key has a bit of its own: the keys that were held are the
/// keys that `control`, `shift` and `alt` report.
pub proof fn law_modifier_bits(shift: bool, control: bool, alt: bool)
    ensures
        (modifier_bits(shift, control, alt) & KeyModifiers::CONTROL != 0) == control,
        (modifier_bits(shift, control, alt) & KeyModifiers::SHIFT != 0) == shift,
        (modifier_bits(shift, control, alt) & KeyModifiers::ALT != 0) == alt,
{
    let bits = modifier_bits(shift, control, alt);
    assert(bits < 8);
    assert(bits < 8 ==> ((bits & 1 != 0) == (bits % 2 == 1) && (bits & 2 != 0) == ((bits / 2) % 2
        == 1) && (bits & 4 != 0) == (bits >= 4))) by (bit_vector);
}

impl KeyModifiers {
    pub const CONTROL: u32 = 0b001;

    pub const SHIFT: u32 = 0b010;

    pub const ALT: u32 = 0b100;

    /// The modifier keys that are held.
    pub fn from_keys(shift: bool, control: bool, alt: bool) -> (keys: KeyModifiers)
        ensures
            keys@ == modifier_bits(shift, control, alt),
    {
        let mut bits: u32 = 0;
        if shift {
            bits += KeyModifiers::SHIFT;
        }
        if control {
            bits += KeyModifiers::CONTROL;
        }
        if alt {
            bits += KeyModifiers::ALT;
        }
        KeyModifiers(bits)
    }

    pub fn control(&self) -> (held: bool)
        ensures
            held == (self@ & KeyModifiers::CONTROL != 0),
    {
        (self.0 & KeyModifiers::CONTROL) != 0
    }

    pub fn shift(&self) -> (held: bool)
        ensures
            held == (self@ & KeyModifiers::SHIFT != 0),
    {
        (self.0 & KeyModifiers::SHIFT) != 0
    }

    pub fn alt(&self) -> (held: bool)
        ensures
            held == (self@ & KeyModifiers::ALT != 0),
    {
        (self.0 & KeyModifiers::ALT) != 0
    }
}

/// What the application is told.
#[derive(Debug, Clone, Copy, PartialEq, Eq, Structural)]
pub enum Event {
    LeftMouse(u16, u16),
    RightMouse(u16, u16),
    MiddleMouse(u16, u16),
    ScrollUp,
    ScrollDown,
    Char(char),
    Function(u8),
    Enter,
    Backspace,
    Escape,
    Control,
    Shift,
    Alt,
    Tab,
    Up,
    Down,
    Left,
    Right,
    Unknown(u16),
    Resize(u16, u16),
}

/// A key, as the terminal names it.
#[derive(Debug, Clone, Copy, PartialEq, Eq, Structural)]
pub enum Key {
    Backspace,
    Enter,
    Left,
    Right,
    Up,
    Down,
    Tab,
    Function(u8),
    Char(char),
    Escape,
    /// A key that the application is not told of.
    Other,
}

/// What the mouse did.
#[derive(Debug, Clone, Copy, PartialEq, Eq, Structural)]
pub enum Mouse {
    LeftDown,
    RightDown,
    MiddleDown,
    ScrollUp,
    ScrollDown,
    /// A move, a drag or a release: the application is not told.
    Other,
}

/// What was read from the terminal, as plain values.
#[derive(Debug, Clone, Copy, PartialEq, Eq, Structural)]
pub enum Input {
    /// A key; `down` unless it was released.
    Key { key: Key, down: bool, shift: bool, control: bool, alt: bool },
    Mouse { mouse: Mouse, column: u16, row: u16, shift: bool, control: bool, alt: bool },
    Resize(u16, u16),
    /// Anything else: focus, paste.
    Other,
}

/// The event for a key that went down, if the application is told of the key.
pub open spec fn key_event(key: Key) -> Option<Event> {
    match key {
        Key::Backspace => Some(Event::Backspace),
        Key::Enter => Some(Event::Enter),
        Key::Left => Some(Event::Left),
        Key::Right => Some(Event::Right),
        Key::Up => Some(Event::Up),
        Key::Down => Some(Event::Down),
        Key::Tab => Some(Event::Tab),
        Key::Function(n) => Some(Event::Function(n)),
        Key::Char(c) => Some(Event::Char(c)),
        Key::Escape => Some(Event::Escape),
        Key::Other => None,
    }
}

/// The event for what the mouse did at `column`, `row`, if the application is
/// told of it.
pub open spec fn mouse_event(mouse: Mouse, column: u16, row: u16) -> Option<Event> {
    match mouse {
        Mouse::LeftDown => Some(Event::LeftMouse(column, row)),
        Mouse::RightDown => Some(Event::RightMouse(column, row)),
        Mouse::MiddleDown => Some(Event::MiddleMouse(column, row)),
        Mouse::ScrollUp => Some(Event::ScrollUp),
        Mouse::ScrollDown => Some(Event::ScrollDown),
        Mouse::Other => None,
    }
}

/// The event for what was read, and the bits of the modifier keys held with
/// it. A key that was released gives none; a resize comes without modifiers.
pub open spec fn input_event(input: Input) -> Option<(Event, u32)> {
    match input {
        Input::Key { key, down, shift, control, alt } => match key_event(key) {
            Some(event) if down => Some((event, modifier_bits(shift, control, alt))),
            _ => None,
        },
        Input::Mouse { mouse, column, row, shift, control, alt } => match mouse_event(
            mouse,
            column,
            row,
        ) {
            Some(event) => Some((event, modifier_bits(shift, control, alt))),
            None => None,
        },
        Input::Resize(width, height) => Some((Event::Resize(width, height), 0)),
        Input::Other => None,
    }
}

/// What the application is told of what was read from the terminal; `read` is
/// `None` where nothing came in time.
pub fn poll(read: Option<Input>) -> (told: Option<(Event, KeyModifiers)>)
    ensures
        match told {
            Some((event, keys)) => read matches Some(input) && input_event(input) == Some(
                (event, keys@),
            ),
            None => read matches Some(input) ==> input_event(input) is None,
        },
{
    match read {
        None => None,
        Some(Input::Key { key, down, shift, control, alt }) => {
            if !down {
                return None;
            }
            let keys = KeyModifiers::from_keys(shift, control, alt);
            match key {
                Key::Backspace => Some((Event::Backspace, keys)),
                Key::Enter => Some((Event::Enter, keys)),
                Key::Left => Some((Event::Left, keys)),
                Key::Right => Some((Event::Right, keys)),
                Key::Up => Some((Event::Up, keys)),
                Key::Down => Some((Event::Down, keys)),
                Key::Tab => Some((Event::Tab, keys)),
                Key::Function(n) => Some((Event::Function(n), keys)),
                Key::Char(c) => Some((Event::Char(c), keys)),
                Key::Escape => Some((Event::Escape, keys)),
                Key::Other => None,
            }
        },
        Some(Input::Mouse { mouse, column, row, shift, control, alt }) => {
            let keys = KeyModifiers::from_keys(shift, control, alt);
            match mouse {
                Mouse::LeftDown => Some((Event::LeftMouse(column, row), keys)),
                Mouse::RightDown => Some((Event::RightMouse(column, row), keys)),
                Mouse::MiddleDown => Some((Event::MiddleMouse(column, row), keys)),
                Mouse::ScrollUp => Some((Event::ScrollUp, keys)),
                Mouse::ScrollDown => Some((Event::ScrollDown, keys)),
                Mouse::Other => None,
            }
        },
        Some(Input::Resize(width, height)) => Some(
            (Event::Resize(width, height), KeyModifiers::from_keys(false, false, false)),
        ),
        Some(Input::Other) => None,
    }
}

impl Winter {
    /// What the application is told of what was read from the terminal.
    pub fn poll(&self, read: Option<Input>) -> (told: Option<(Event, KeyModifiers)>)
        ensures
            match told {
                Some((event, keys)) => read matches Some(input) && input_event(input) == Some(
                    (event, keys@),
                ),
                None => read matches Some(input) ==> input_event(input) is None,
            },
    {
        poll(read)
    }
}

} // verus!
