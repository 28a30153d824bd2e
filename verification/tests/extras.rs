use winter::block::{block, BorderType, Borders};
use winter::buffer::{Brush, Buffer, Cell};
use winter::event::Event;
use winter::gauge::guage;
use winter::layout::Rect;
use winter::style::{bg, fg, style, Color, Modifier, Style};
use winter::text::{Stylize, Text};
use winter::windows::{
    convert_event, info, key_state, CONSOLE_SCREEN_BUFFER_INFO, COORD, FOCUS_EVENT_RECORD,
    INPUT_RECORD, INPUT_RECORD_Event, KEY_EVENT_RECORD, KEY_EVENT_RECORD_uChar,
    MENU_EVENT_RECORD, MOUSE_EVENT_RECORD, SMALL_RECT, WINDOW_BUFFER_SIZE_RECORD,
};

fn rows(buffer: &Buffer) -> Vec<String> {
    let width = buffer.area.width as usize;
    buffer
        .content
        .chunks(width)
        .map(|row| row.iter().map(|c| c.symbol.as_str()).collect::<String>())
        .collect()
}

#[test]
fn gauge_fills_from_the_left_and_centres_its_label() {
    let area = Rect::new(0, 0, 10, 1);
    let mut buffer = Buffer::empty(area);
    buffer.set_stringn(0, 0, "..........", 10, style());
    let g = guage(None, String::from("50%"), bg(Color::Green), bg(Color::Blue));
    g.draw(area, &mut buffer, 5);
    assert_eq!(rows(&buffer), vec!["   50%...."]);
    for x in 0..10 {
        let cell = &buffer.content[x];
        assert_eq!(cell.bg, if x < 5 { Color::Green } else { Color::Blue });
    }
    assert_eq!(buffer.content[3].fg, Color::Black);
    assert_eq!(buffer.content[4].fg, Color::Black);
    assert_eq!(buffer.content[5].fg, Color::Reset);
    assert_eq!(buffer.content[0].fg, Color::Reset);
}

#[test]
fn gauge_draws_inside_its_block_on_the_middle_row() {
    let area = Rect::new(0, 0, 6, 5);
    let mut buffer = Buffer::empty(area);
    let frame = block(None, Borders::from_bits(Borders::ALL), BorderType::Plain);
    let g = guage(Some(frame), String::from("ab"), bg(Color::Red), style());
    assert_eq!(g.bar(area), Rect::new(1, 1, 4, 3));
    g.draw(area, &mut buffer, 4);
    assert_eq!(rows(&buffer)[2], "\u{2502} ab \u{2502}");
    assert_eq!(buffer.content[7].bg, Color::Red);
    assert_eq!(buffer.content[22].bg, Color::Red);
    assert_eq!(buffer.content[0].bg, Color::Reset);
}

#[test]
fn gauge_without_rows_draws_only_its_background() {
    let area = Rect::new(0, 0, 4, 2);
    let mut buffer = Buffer::empty(area);
    let frame = block(None, Borders::from_bits(Borders::TOP | Borders::BOTTOM), BorderType::Plain);
    let g = guage(Some(frame), String::from("ab"), bg(Color::Red), bg(Color::Blue));
    g.draw(area, &mut buffer, 4);
    assert_eq!(rows(&buffer), vec!["\u{2500}\u{2500}\u{2500}\u{2500}"; 2]);
}

#[test]
fn paint_is_clipped_to_the_buffer() {
    let mut buffer = Buffer::empty(Rect::new(2, 2, 3, 2));
    buffer.paint(Rect::new(0, 0, 4, 10), Brush::Symbol("x", fg(Color::Red)));
    assert_eq!(rows(&buffer), vec!["xx ", "xx "]);
    buffer.paint(Rect::new(4, 3, 100, 100), Brush::Fill(Color::Blue, Color::Cyan));
    assert_eq!(buffer.content[5].bg, Color::Cyan);
    assert_eq!(buffer.content[5].fg, Color::Blue);
    assert_eq!(buffer.content[2], Cell::default());
    buffer.paint(Rect::new(0, 0, 2, 2), Brush::Blank);
    buffer.paint(Rect::new(9, 9, 2, 2), Brush::Restyle(fg(Color::Red)));
    assert_eq!(rows(&buffer), vec!["xx ", "xx "]);
    assert_eq!(buffer.content[2], Cell::default());
}

#[test]
fn set_stringn_outside_the_buffer_writes_nothing() {
    let mut buffer = Buffer::empty(Rect::new(2, 2, 3, 2));
    assert_eq!(buffer.set_stringn(0, 2, "abc", 3, style()), (0, 2));
    assert_eq!(buffer.set_stringn(5, 2, "abc", 3, style()), (5, 2));
    assert_eq!(buffer.set_stringn(2, 4, "abc", 3, style()), (2, 4));
    assert!(buffer.is_empty());
}

#[test]
fn plain_text_is_stylized_from_the_plain_style() {
    let t = "ab".bold();
    assert_eq!(t.inner, "ab");
    assert_eq!(t.style, style().bold());
    let t = String::from("cd").fg(Color::Red);
    assert_eq!(t.inner, "cd");
    assert_eq!(t.style, fg(Color::Red));
    assert_eq!("x".bg(Color::Blue).style, bg(Color::Blue));
    assert_eq!("x".style(fg(Color::Red).dim()).style, fg(Color::Red).dim());
    assert_eq!("x".dim().style.modifier.bits, Modifier::DIM);
    assert_eq!("x".italic().style.modifier.bits, Modifier::ITALIC);
    assert_eq!("x".underlined().style.modifier.bits, Modifier::UNDERLINED);
    assert_eq!("x".fast_blink().style.modifier.bits, Modifier::FAST_BLINK);
    assert_eq!("x".slow_blink().style.modifier.bits, Modifier::SLOW_BLINK);
    assert_eq!("x".invert().style.modifier.bits, Modifier::INVERT);
    assert_eq!("x".hidden().style.modifier.bits, Modifier::HIDDEN);
    assert_eq!("x".crossed_out().style.modifier.bits, Modifier::CROSSED_OUT);
}

#[test]
fn a_span_keeps_its_style_when_more_is_asked_for() {
    let t = Text::new("ab").fg(Color::Red).bold().underlined().bg(Color::Blue);
    assert_eq!(t.inner, "ab");
    assert_eq!(t.style, Style {
        fg: Color::Red,
        bg: Color::Blue,
        modifier: Modifier { bits: Modifier::BOLD | Modifier::UNDERLINED },
    });
    assert_eq!(t.style(style()).style, style());
}

fn key(vk: u16, down: i32, state: u32) -> INPUT_RECORD {
    INPUT_RECORD {
        EventType: 1,
        Event: INPUT_RECORD_Event::KeyEvent(KEY_EVENT_RECORD {
            bKeyDown: down,
            wRepeatCount: 1,
            wVirtualKeyCode: vk,
            wVirtualScanCode: 0,
            uChar: KEY_EVENT_RECORD_uChar(0),
            dwControlKeyState: state,
        }),
    }
}

fn mouse(buttons: u32, flags: u32) -> INPUT_RECORD {
    INPUT_RECORD {
        EventType: 2,
        Event: INPUT_RECORD_Event::MouseEvent(MOUSE_EVENT_RECORD {
            dwMousePosition: COORD { X: 7, Y: 9 },
            dwButtonState: buttons,
            dwControlKeyState: 0,
            dwEventFlags: flags,
        }),
    }
}

#[test]
fn console_keys_that_stand_for_themselves() {
    let named = [
        (0x26, Event::Up),
        (0x28, Event::Down),
        (0x25, Event::Left),
        (0x27, Event::Right),
        (0x0D, Event::Enter),
        (0x20, Event::Char(' ')),
        (0x08, Event::Backspace),
        (0x1B, Event::Escape),
        (0x09, Event::Tab),
        (0x10, Event::Shift),
        (0xA0, Event::Shift),
        (0xA1, Event::Shift),
        (0x11, Event::Control),
        (0xA2, Event::Control),
        (0xA3, Event::Control),
        (0x12, Event::Alt),
        (0xA4, Event::Alt),
        (0xA5, Event::Alt),
        (0x70, Event::Function(1)),
        (0x7B, Event::Function(12)),
        (0x87, Event::Function(24)),
        (0x88, Event::Unknown(0x88)),
        (0x01, Event::Unknown(0x01)),
    ];
    for (vk, event) in named {
        assert_eq!(convert_event(key(vk, 1, 0), 0), Some(event));
        assert_eq!(convert_event(key(vk, 1, 0x10), 0), Some(event));
        assert_eq!(convert_event(key(vk, 0, 0), 0), None);
    }
}

#[test]
fn console_punctuation_goes_by_shift() {
    let keys = [
        (0xBB, '=', '+'),
        (0xBD, '-', '_'),
        (0xC0, '`', '~'),
        (0xDB, '[', '{'),
        (0xDD, ']', '}'),
        (0xDC, '\\', '|'),
        (0xBA, ';', ':'),
        (0xDE, '\'', '"'),
        (0xBC, ',', '<'),
        (0xBE, '.', '>'),
        (0xBF, '/', '?'),
    ];
    for (vk, plain, shifted) in keys {
        assert_eq!(convert_event(key(vk, 1, 0), 0), Some(Event::Char(plain)));
        assert_eq!(convert_event(key(vk, 1, 0x10), 0), Some(Event::Char(shifted)));
    }
}

#[test]
fn console_letters_and_digits_go_by_what_was_typed() {
    assert_eq!(convert_event(key(0x41, 1, 0), 'a' as u16), Some(Event::Char('a')));
    assert_eq!(convert_event(key(0x41, 1, 0x10), 'a' as u16), Some(Event::Char('A')));
    assert_eq!(convert_event(key(0x5A, 1, 0x10), 'z' as u16), Some(Event::Char('Z')));
    assert_eq!(convert_event(key(0x35, 1, 0), '5' as u16), Some(Event::Char('5')));
    let signs = [')', '!', '@', '#', '$', '%', '^', '&', '*', '('];
    for (digit, sign) in signs.iter().enumerate() {
        let vk = 0x30 + digit as u16;
        assert_eq!(convert_event(key(vk, 1, 0x10), vk), Some(Event::Char(*sign)));
    }
    assert_eq!(convert_event(key(0x41, 1, 0), 0x0161), Some(Event::Char('a')));
}

#[test]
fn console_mouse_and_resize() {
    assert_eq!(convert_event(mouse(1, 0), 0), Some(Event::LeftMouse(7, 9)));
    assert_eq!(convert_event(mouse(2, 0), 0), Some(Event::RightMouse(7, 9)));
    assert_eq!(convert_event(mouse(4, 2), 0), Some(Event::MiddleMouse(7, 9)));
    assert_eq!(convert_event(mouse(3, 0), 0), None);
    assert_eq!(convert_event(mouse(0x800000, 4), 0), Some(Event::ScrollUp));
    assert_eq!(convert_event(mouse(0xff800000, 4), 0), Some(Event::ScrollDown));
    assert_eq!(convert_event(mouse(1, 4), 0), None);
    assert_eq!(convert_event(mouse(1, 1), 0), None);
    let resize = INPUT_RECORD {
        EventType: 4,
        Event: INPUT_RECORD_Event::WindowBufferSizeEvent(WINDOW_BUFFER_SIZE_RECORD {
            dwSize: COORD { X: 80, Y: 24 },
        }),
    };
    assert_eq!(convert_event(resize, 0), Some(Event::Resize(80, 24)));
    let menu = INPUT_RECORD {
        EventType: 8,
        Event: INPUT_RECORD_Event::MenuEvent(MENU_EVENT_RECORD { dwCommandId: 1 }),
    };
    assert_eq!(convert_event(menu, 0), None);
    let focus = INPUT_RECORD {
        EventType: 16,
        Event: INPUT_RECORD_Event::FocusEvent(FOCUS_EVENT_RECORD { bSetFocus: 1 }),
    };
    assert_eq!(convert_event(focus, 0), None);
    let mismatched = INPUT_RECORD { EventType: 2, ..key(0x26, 1, 0) };
    assert_eq!(convert_event(mismatched, 0), None);
}

#[test]
fn console_key_state() {
    let state = key_state(key(0x41, 1, 0x10 | 0x08));
    assert!(state.shift() && state.control() && !state.alt());
    let state = key_state(key(0x41, 1, 0x04 | 0x01));
    assert!(!state.shift() && state.control() && state.alt());
    let state = key_state(key(0x41, 1, 0x02));
    assert!(!state.shift() && !state.control() && state.alt());
    let state = key_state(mouse(1, 0));
    assert!(!state.shift() && !state.control() && !state.alt());
}

#[test]
fn console_info() {
    let report = CONSOLE_SCREEN_BUFFER_INFO {
        dwSize: COORD { X: 120, Y: 9001 },
        dwCursorPosition: COORD { X: 3, Y: 4 },
        wAttributes: 7,
        srWindow: SMALL_RECT { Left: 0, Top: 10, Right: 119, Bottom: 39 },
        dwMaximumWindowSize: COORD { X: 120, Y: 60 },
    };
    let i = info(report);
    assert_eq!(i.buffer_size, (120, 9001));
    assert_eq!(i.window_size, (120, 30));
    assert_eq!(i.cursor_position, (3, 4));
}
