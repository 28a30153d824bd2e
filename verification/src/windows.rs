//! The input records of the Windows console, as plain values, and what the
//! application is told of them.
#![allow(non_camel_case_types, non_snake_case)]

use crate::event::Event;
use vstd::prelude::*;

verus! {

pub const CONTROL: u32 = 0b001;

pub const SHIFT: u32 = 0b010;

pub const ALT: u32 = 0b100;

pub const RIGHT_ALT_PRESSED: u32 = 0x0001;

pub const LEFT_ALT_PRESSED: u32 = 0x0002;

pub const RIGHT_CTRL_PRESSED: u32 = 0x0004;

pub const LEFT_CTRL_PRESSED: u32 = 0x0008;

pub const SHIFT_PRESSED: u32 = 0x0010;

pub const KEY_EVENT: u16 = 0x0001;

pub const MOUSE_EVENT: u16 = 0x0002;

pub const WINDOW_BUFFER_SIZE_EVENT: u16 = 0x0004;

pub const FROM_LEFT_1ST_BUTTON_PRESSED: u32 = 0x0001;

pub const RIGHTMOST_BUTTON_PRESSED: u32 = 0x0002;

pub const FROM_LEFT_2ND_BUTTON_PRESSED: u32 = 0x0004;

pub const DOUBLE_CLICK: u32 = 0x0002;

pub const MOUSE_WHEELED: u32 = 0x0004;

pub const VK_BACK: u16 = 0x08;

pub const VK_TAB: u16 = 0x09;

pub const VK_RETURN: u16 = 0x0D;

pub const VK_SHIFT: u16 = 0x10;

pub const VK_CONTROL: u16 = 0x11;

pub const VK_MENU: u16 = 0x12;

pub const VK_ESCAPE: u16 = 0x1B;

pub const VK_SPACE: u16 = 0x20;

pub const VK_LEFT: u16 = 0x25;

pub const VK_UP: u16 = 0x26;

pub const VK_RIGHT: u16 = 0x27;

pub const VK_DOWN: u16 = 0x28;

pub const VK_F1: u16 = 0x70;

pub const VK_F24: u16 = 0x87;

pub const VK_LSHIFT: u16 = 0xA0;

pub const VK_RSHIFT: u16 = 0xA1;

pub const VK_LCONTROL: u16 = 0xA2;

pub const VK_RCONTROL: u16 = 0xA3;

pub const VK_LMENU: u16 = 0xA4;

pub const VK_RMENU: u16 = 0xA5;

pub const VK_OEM_1: u16 = 0xBA;

pub const VK_OEM_PLUS: u16 = 0xBB;

pub const VK_OEM_COMMA: u16 = 0xBC;

pub const VK_OEM_MINUS: u16 = 0xBD;

pub const VK_OEM_PERIOD: u16 = 0xBE;

pub const VK_OEM_2: u16 = 0xBF;

pub const VK_OEM_3: u16 = 0xC0;

pub const VK_OEM_4: u16 = 0xDB;

pub const VK_OEM_5: u16 = 0xDC;

pub const VK_OEM_6: u16 = 0xDD;

pub const VK_OEM_7: u16 = 0xDE;

/// The modifier keys that were held with a key, one bit each.
pub struct KeyState(u32);

impl View for KeyState {
    type V = u32;

    closed spec fn view(&self) -> u32 {
        self.0
    }
}

impl KeyState {
    pub fn control(&self) -> (held: bool)
        ensures
            held == (self@ & CONTROL != 0),
    {
        (self.0 & CONTROL) != 0
    }

    pub fn shift(&self) -> (held: bool)
        ensures
            held == (self@ & SHIFT != 0),
    {
        (self.0 & SHIFT) != 0
    }

    pub fn alt(&self) -> (held: bool)
        ensures
            held == (self@ & ALT != 0),
    {
        (self.0 & ALT) != 0
    }
}

/// What the console reports of its screen buffer.
#[derive(Debug, Clone, Copy)]
pub struct Info {
    pub buffer_size: (u16, u16),
    /// The size of the visible window: the size to draw for.
    pub window_size: (u16, u16),
    pub cursor_position: (u16, u16),
}

#[derive(Debug, Clone, Copy, PartialEq, Eq, Structural)]
pub struct COORD {
    pub X: i16,
    pub Y: i16,
}

#[derive(Debug, Clone, Copy, PartialEq, Eq, Structural)]
pub struct SMALL_RECT {
    pub Left: u16,
    pub Top: u16,
    pub Right: u16,
    pub Bottom: u16,
}

#[derive(Debug, Clone, Copy, PartialEq, Eq, Structural)]
pub struct CONSOLE_SCREEN_BUFFER_INFO {
    pub dwSize: COORD,
    pub dwCursorPosition: COORD,
    pub wAttributes: u16,
    pub srWindow: SMALL_RECT,
    pub dwMaximumWindowSize: COORD,
}

/// The character of a key event, as one UTF-16 unit.
#[derive(Debug, Clone, Copy, PartialEq, Eq, Structural)]
pub struct KEY_EVENT_RECORD_uChar(pub u16);

#[derive(Debug, Clone, Copy, PartialEq, Eq, Structural)]
pub struct KEY_EVENT_RECORD {
    pub bKeyDown: i32,
    pub wRepeatCount: u16,
    pub wVirtualKeyCode: u16,
    pub wVirtualScanCode: u16,
    pub uChar: KEY_EVENT_RECORD_uChar,
    pub dwControlKeyState: u32,
}

#[derive(Debug, Clone, Copy, PartialEq, Eq, Structural)]
pub struct MOUSE_EVENT_RECORD {
    pub dwMousePosition: COORD,
    pub dwButtonState: u32,
    pub dwControlKeyState: u32,
    pub dwEventFlags: u32,
}

#[derive(Debug, Clone, Copy, PartialEq, Eq, Structural)]
pub struct WINDOW_BUFFER_SIZE_RECORD {
    pub dwSize: COORD,
}

#[derive(Debug, Clone, Copy, PartialEq, Eq, Structural)]
pub struct MENU_EVENT_RECORD {
    pub dwCommandId: u32,
}

#[derive(Debug, Clone, Copy, PartialEq, Eq, Structural)]
pub struct FOCUS_EVENT_RECORD {
    pub bSetFocus: i32,
}

/// What an input record holds, by the kind of the event.
#[derive(Debug, Clone, Copy, PartialEq, Eq, Structural)]
pub enum INPUT_RECORD_Event {
    KeyEvent(KEY_EVENT_RECORD),
    MouseEvent(MOUSE_EVENT_RECORD),
    WindowBufferSizeEvent(WINDOW_BUFFER_SIZE_RECORD),
    MenuEvent(MENU_EVENT_RECORD),
    FocusEvent(FOCUS_EVENT_RECORD),
}

/// An input record of the console. `EventType` says which kind of event it
/// holds; a record whose `Event` is of another kind tells nothing.
#[derive(Debug, Clone, Copy, PartialEq, Eq, Structural)]
pub struct INPUT_RECORD {
    pub EventType: u16,
    pub Event: INPUT_RECORD_Event,
}

/// The size of the console's window, and where its buffer and cursor are.
pub open spec fn info_spec(report: CONSOLE_SCREEN_BUFFER_INFO) -> Info {
    Info {
        buffer_size: (report.dwSize.X as u16, report.dwSize.Y as u16),
        window_size: (
            ((report.srWindow.Right - report.srWindow.Left + 1) % 0x10000) as u16,
            ((report.srWindow.Bottom - report.srWindow.Top + 1) % 0x10000) as u16,
        ),
        cursor_position: (report.dwCursorPosition.X as u16, report.dwCursorPosition.Y as u16),
    }
}

/// The bits of the modifier keys, given the control key state of a key event.
pub open spec fn key_state_bits(control_key_state: u32) -> u32 {
    ((if control_key_state & SHIFT_PRESSED != 0 {
        SHIFT
    } else {
        0
    }) + (if control_key_state & LEFT_CTRL_PRESSED != 0 || control_key_state & RIGHT_CTRL_PRESSED
        != 0 {
        CONTROL
    } else {
        0
    }) + (if control_key_state & LEFT_ALT_PRESSED != 0 || control_key_state & RIGHT_ALT_PRESSED
        != 0 {
        ALT
    } else {
        0
    })) as u32
}

/// The modifier keys that were held with `event`: none unless it is a key event.
pub fn key_state(event: INPUT_RECORD) -> (state: KeyState)
    ensures
        state@ == match event.Event {
            INPUT_RECORD_Event::KeyEvent(key) if event.EventType == KEY_EVENT => key_state_bits(
                key.dwControlKeyState,
            ),
            _ => 0,
        },
{
    match event.Event {
        INPUT_RECORD_Event::KeyEvent(key) => {
            if event.EventType == KEY_EVENT {
                let ks = key.dwControlKeyState;
                let mut state: u32 = 0;
                if ks & SHIFT_PRESSED != 0 {
                    state += SHIFT;
                }
                if ks & LEFT_CTRL_PRESSED != 0 || ks & RIGHT_CTRL_PRESSED != 0 {
                    state += CONTROL;
                }
                if ks & LEFT_ALT_PRESSED != 0 || ks & RIGHT_ALT_PRESSED != 0 {
                    state += ALT;
                }
                KeyState(state)
            } else {
                KeyState(0)
            }
        },
        _ => KeyState(0),
    }
}

/// The event for a key that stands for itself, whatever is held with it.
pub open spec fn named_key(vk: u16) -> Option<Event> {
    if vk == VK_UP {
        Some(Event::Up)
    } else if vk == VK_DOWN {
        Some(Event::Down)
    } else if vk == VK_LEFT {
        Some(Event::Left)
    } else if vk == VK_RIGHT {
        Some(Event::Right)
    } else if vk == VK_RETURN {
        Some(Event::Enter)
    } else if vk == VK_SPACE {
        Some(Event::Char(' '))
    } else if vk == VK_BACK {
        Some(Event::Backspace)
    } else if vk == VK_ESCAPE {
        Some(Event::Escape)
    } else if vk == VK_TAB {
        Some(Event::Tab)
    } else if vk == VK_SHIFT || vk == VK_LSHIFT || vk == VK_RSHIFT {
        Some(Event::Shift)
    } else if vk == VK_CONTROL || vk == VK_LCONTROL || vk == VK_RCONTROL {
        Some(Event::Control)
    } else if vk == VK_MENU || vk == VK_LMENU || vk == VK_RMENU {
        Some(Event::Alt)
    } else {
        None
    }
}

/// The character of a punctuation key, with or without shift.
pub open spec fn punctuation(vk: u16, shift: bool) -> Option<char> {
    if vk == VK_OEM_PLUS {
        Some(if shift { '+' } else { '=' })
    } else if vk == VK_OEM_MINUS {
        Some(if shift { '_' } else { '-' })
    } else if vk == VK_OEM_3 {
        Some(if shift { '~' } else { '`' })
    } else if vk == VK_OEM_4 {
        Some(if shift { '{' } else { '[' })
    } else if vk == VK_OEM_6 {
        Some(if shift { '}' } else { ']' })
    } else if vk == VK_OEM_5 {
        Some(if shift { '|' } else { '\\' })
    } else if vk == VK_OEM_1 {
        Some(if shift { ':' } else { ';' })
    } else if vk == VK_OEM_7 {
        Some(if shift { '"' } else { '\'' })
    } else if vk == VK_OEM_COMMA {
        Some(if shift { '<' } else { ',' })
    } else if vk == VK_OEM_PERIOD {
        Some(if shift { '>' } else { '.' })
    } else if vk == VK_OEM_2 {
        Some(if shift { '?' } else { '/' })
    } else {
        None
    }
}

/// Whether the key is a digit or a letter.
pub open spec fn is_alphanumeric(vk: u16) -> bool {
    0x30 <= vk <= 0x39 || 0x41 <= vk <= 0x5A
}

/// The character that a digit or letter key gives with shift held: the sign
/// above the digit, or the capital letter.
pub open spec fn shifted(c: u8) -> u8 {
    if c == 0x31 {
        0x21
    } else if c == 0x32 {
        0x40
    } else if c == 0x33 {
        0x23
    } else if c == 0x34 {
        0x24
    } else if c == 0x35 {
        0x25
    } else if c == 0x36 {
        0x5E
    } else if c == 0x37 {
        0x26
    } else if c == 0x38 {
        0x2A
    } else if c == 0x39 {
        0x28
    } else if c == 0x30 {
        0x29
    } else if 0x61 <= c <= 0x7A {
        (c - 0x20) as u8
    } else {
        c
    }
}

/// The event for a key that went down. `typed` is the character that the
/// keyboard layout gives for a digit or letter key with no modifier held,
/// as one UTF-16 unit.
pub open spec fn key_down_event(key: KEY_EVENT_RECORD, typed: u16) -> Event {
    let vk = key.wVirtualKeyCode;
    let shift = key.dwControlKeyState & SHIFT_PRESSED != 0;
    if named_key(vk) is Some {
        named_key(vk)->0
    } else if punctuation(vk, shift) is Some {
        Event::Char(punctuation(vk, shift)->0)
    } else if VK_F1 <= vk <= VK_F24 {
        Event::Function((vk - VK_F1 + 1) as u8)
    } else if is_alphanumeric(vk) {
        let low = (typed % 0x100) as u8;
        Event::Char(
            (if shift {
                shifted(low)
            } else {
                low
            }) as char,
        )
    } else {
        Event::Unknown(vk)
    }
}

/// The event for what the mouse did, if the application is told of it.
pub open spec fn mouse_record_event(mouse: MOUSE_EVENT_RECORD) -> Option<Event> {
    let x = mouse.dwMousePosition.X as u16;
    let y = mouse.dwMousePosition.Y as u16;
    if mouse.dwEventFlags == 0 || mouse.dwEventFlags == DOUBLE_CLICK {
        if mouse.dwButtonState == FROM_LEFT_1ST_BUTTON_PRESSED {
            Some(Event::LeftMouse(x, y))
        } else if mouse.dwButtonState == RIGHTMOST_BUTTON_PRESSED {
            Some(Event::RightMouse(x, y))
        } else if mouse.dwButtonState == FROM_LEFT_2ND_BUTTON_PRESSED {
            Some(Event::MiddleMouse(x, y))
        } else {
            None
        }
    } else if mouse.dwEventFlags == MOUSE_WHEELED {
        if mouse.dwButtonState == 0x800000 {
            Some(Event::ScrollUp)
        } else if mouse.dwButtonState == 0xff800000 {
            Some(Event::ScrollDown)
        } else {
            None
        }
    } else {
        None
    }
}

/// What the application is told of an input record, if anything.
pub open spec fn record_event(event: INPUT_RECORD, typed: u16) -> Option<Event> {
    match event.Event {
        INPUT_RECORD_Event::KeyEvent(key) if event.EventType == KEY_EVENT => if key.bKeyDown
            == 1 {
            Some(key_down_event(key, typed))
        } else {
            None
        },
        INPUT_RECORD_Event::MouseEvent(mouse) if event.EventType == MOUSE_EVENT
            => mouse_record_event(mouse),
        INPUT_RECORD_Event::WindowBufferSizeEvent(size) if event.EventType
            == WINDOW_BUFFER_SIZE_EVENT => Some(
            Event::Resize(size.dwSize.X as u16, size.dwSize.Y as u16),
        ),
        _ => None,
    }
}

fn named_key_of(vk: u16) -> (event: Option<Event>)
    ensures
        event == named_key(vk),
{
    if vk == VK_UP {
        Some(Event::Up)
    } else if vk == VK_DOWN {
        Some(Event::Down)
    } else if vk == VK_LEFT {
        Some(Event::Left)
    } else if vk == VK_RIGHT {
        Some(Event::Right)
    } else if vk == VK_RETURN {
        Some(Event::Enter)
    } else if vk == VK_SPACE {
        Some(Event::Char(' '))
    } else if vk == VK_BACK {
        Some(Event::Backspace)
    } else if vk == VK_ESCAPE {
        Some(Event::Escape)
    } else if vk == VK_TAB {
        Some(Event::Tab)
    } else if vk == VK_SHIFT || vk == VK_LSHIFT || vk == VK_RSHIFT {
        Some(Event::Shift)
    } else if vk == VK_CONTROL || vk == VK_LCONTROL || vk == VK_RCONTROL {
        Some(Event::Control)
    } else if vk == VK_MENU || vk == VK_LMENU || vk == VK_RMENU {
        Some(Event::Alt)
    } else {
        None
    }
}

fn punctuation_of(vk: u16, shift: bool) -> (c: Option<char>)
    ensures
        c == punctuation(vk, shift),
{
    if vk == VK_OEM_PLUS {
        Some(if shift { '+' } else { '=' })
    } else if vk == VK_OEM_MINUS {
        Some(if shift { '_' } else { '-' })
    } else if vk == VK_OEM_3 {
        Some(if shift { '~' } else { '`' })
    } else if vk == VK_OEM_4 {
        Some(if shift { '{' } else { '[' })
    } else if vk == VK_OEM_6 {
        Some(if shift { '}' } else { ']' })
    } else if vk == VK_OEM_5 {
        Some(if shift { '|' } else { '\\' })
    } else if vk == VK_OEM_1 {
        Some(if shift { ':' } else { ';' })
    } else if vk == VK_OEM_7 {
        Some(if shift { '"' } else { '\'' })
    } else if vk == VK_OEM_COMMA {
        Some(if shift { '<' } else { ',' })
    } else if vk == VK_OEM_PERIOD {
        Some(if shift { '>' } else { '.' })
    } else if vk == VK_OEM_2 {
        Some(if shift { '?' } else { '/' })
    } else {
        None
    }
}

fn shifted_of(c: u8) -> (s: u8)
    ensures
        s == shifted(c),
{
    if c == 0x31 {
        0x21
    } else if c == 0x32 {
        0x40
    } else if c == 0x33 {
        0x23
    } else if c == 0x34 {
        0x24
    } else if c == 0x35 {
        0x25
    } else if c == 0x36 {
        0x5E
    } else if c == 0x37 {
        0x26
    } else if c == 0x38 {
        0x2A
    } else if c == 0x39 {
        0x28
    } else if c == 0x30 {
        0x29
    } else if 0x61 <= c && c <= 0x7A {
        c - 0x20
    } else {
        c
    }
}

/// What the application is told of an input record, if anything. `typed` is
/// the character that the keyboard layout gives for the key with no modifier
/// held, as one UTF-16 unit: it is looked at for digit and letter keys only.
pub fn convert_event(event: INPUT_RECORD, typed: u16) -> (told: Option<Event>)
    ensures
        told == record_event(event, typed),
{
    match event.Event {
        INPUT_RECORD_Event::KeyEvent(key) => {
            if event.EventType != KEY_EVENT || key.bKeyDown != 1 {
                return None;
            }
            let vk = key.wVirtualKeyCode;
            let shift = key.dwControlKeyState & SHIFT_PRESSED != 0;
            if let Some(event) = named_key_of(vk) {
                return Some(event);
            }
            if let Some(c) = punctuation_of(vk, shift) {
                return Some(Event::Char(c));
            }
            if VK_F1 <= vk && vk <= VK_F24 {
                return Some(Event::Function((vk - VK_F1 + 1) as u8));
            }
            if (0x30 <= vk && vk <= 0x39) || (0x41 <= vk && vk <= 0x5A) {
                let low = (typed % 0x100) as u8;
                let c = if shift {
                    shifted_of(low)
                } else {
                    low
                };
                return Some(Event::Char(c as char));
            }
            Some(Event::Unknown(vk))
        },
        INPUT_RECORD_Event::MouseEvent(mouse) => {
            if event.EventType != MOUSE_EVENT {
                return None;
            }
            let x = mouse.dwMousePosition.X as u16;
            let y = mouse.dwMousePosition.Y as u16;
            if mouse.dwEventFlags == 0 || mouse.dwEventFlags == DOUBLE_CLICK {
                if mouse.dwButtonState == FROM_LEFT_1ST_BUTTON_PRESSED {
                    Some(Event::LeftMouse(x, y))
                } else if mouse.dwButtonState == RIGHTMOST_BUTTON_PRESSED {
                    Some(Event::RightMouse(x, y))
                } else if mouse.dwButtonState == FROM_LEFT_2ND_BUTTON_PRESSED {
                    Some(Event::MiddleMouse(x, y))
                } else {
                    None
                }
            } else if mouse.dwEventFlags == MOUSE_WHEELED {
                if mouse.dwButtonState == 0x800000 {
                    Some(Event::ScrollUp)
                } else if mouse.dwButtonState == 0xff800000 {
                    Some(Event::ScrollDown)
                } else {
                    None
                }
            } else {
                None
            }
        },
        INPUT_RECORD_Event::WindowBufferSizeEvent(size) => {
            if event.EventType != WINDOW_BUFFER_SIZE_EVENT {
                return None;
            }
            Some(Event::Resize(size.dwSize.X as u16, size.dwSize.Y as u16))
        },
        _ => None,
    }
}

/// The size of the console's window, and where its buffer and cursor are.
pub fn info(report: CONSOLE_SCREEN_BUFFER_INFO) -> (i: Info)
    ensures
        i == info_spec(report),
{
    let window = report.srWindow;
    Info {
        buffer_size: (report.dwSize.X as u16, report.dwSize.Y as u16),
        window_size: (
            ((window.Right as u32 + 0x10000 - window.Left as u32 + 1) % 0x10000) as u16,
            ((window.Bottom as u32 + 0x10000 - window.Top as u32 + 1) % 0x10000) as u16,
        ),
        cursor_position: (report.dwCursorPosition.X as u16, report.dwCursorPosition.Y as u16),
    }
}

} // verus!
