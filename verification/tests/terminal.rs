use winter::escape::push_decimal;
use winter::event::{poll, Event, Input, Key, KeyModifiers, Mouse};
use winter::style::{bg, fg, style, Color, Modifier, Style};
use winter::{
    clear, clear_from_cursor, clear_from_cursor_to_start, clear_line, clear_line_from_cursor,
    clear_line_from_cursor_to_start, hide_alternate_screen, hide_blinking, hide_cursor, move_to,
    reset, shift_down, shift_up, show_alternate_screen, show_blinking, show_cursor, uninit,
};

fn sent(emit: fn(&mut String)) -> String {
    let mut out = String::from("x");
    emit(&mut out);
    out
}

#[test]
fn escape_sequences_are_appended_as_they_are() {
    assert_eq!(sent(show_cursor), "x\x1b[?25h");
    assert_eq!(sent(hide_cursor), "x\x1b[?25l");
    assert_eq!(sent(show_blinking), "x\x1b[?12h");
    assert_eq!(sent(hide_blinking), "x\x1b[?12l");
    assert_eq!(sent(show_alternate_screen), "x\x1b[?1049h");
    assert_eq!(sent(hide_alternate_screen), "x\x1b[?1049l");
    assert_eq!(sent(reset), "x\x1b[0m");
    assert_eq!(sent(clear_from_cursor), "x\x1b[J");
    assert_eq!(sent(clear_from_cursor_to_start), "x\x1b[1J");
    assert_eq!(sent(clear), "x\x1b[2J");
    assert_eq!(sent(clear_line_from_cursor), "x\x1b[K");
    assert_eq!(sent(clear_line_from_cursor_to_start), "x\x1b[1K");
    assert_eq!(sent(clear_line), "x\x1b[2K");
}

#[test]
fn move_to_sends_the_row_before_the_column() {
    let mut out = String::new();
    move_to(&mut out, 3, 12);
    assert_eq!(out, "\x1b[12;3H");
    out.clear();
    move_to(&mut out, 65535, 0);
    assert_eq!(out, "\x1b[0;65535H");
}

#[test]
fn shifts_send_their_amount() {
    let mut out = String::new();
    shift_up(&mut out, 7);
    shift_down(&mut out, 120);
    assert_eq!(out, "\x1b[7S\x1b[120T");
}

#[test]
fn push_decimal_writes_no_leading_zero() {
    let mut out = String::new();
    for n in [0u16, 9, 10, 99, 100, 1000, 10007, 65535] {
        push_decimal(&mut out, n);
        out.push(' ');
    }
    assert_eq!(out, "0 9 10 99 100 1000 10007 65535 ");
}

#[test]
fn uninit_leaves_the_screen_shows_the_cursor_and_resets() {
    let mut out = String::new();
    uninit(&mut out);
    assert_eq!(out, "\x1b[?1049l\x1b[?25h\x1b[0m");
}

#[test]
fn foreground_codes() {
    let all = [
        (Color::Black, "\x1b[30m"),
        (Color::Red, "\x1b[31m"),
        (Color::Green, "\x1b[32m"),
        (Color::Yellow, "\x1b[33m"),
        (Color::Blue, "\x1b[34m"),
        (Color::Magenta, "\x1b[35m"),
        (Color::Cyan, "\x1b[36m"),
        (Color::White, "\x1b[37m"),
        (Color::BrightBlack, "\x1b[90m"),
        (Color::BrightRed, "\x1b[91m"),
        (Color::BrightGreen, "\x1b[92m"),
        (Color::BrightYellow, "\x1b[93m"),
        (Color::BrightBlue, "\x1b[94m"),
        (Color::BrightMagenta, "\x1b[95m"),
        (Color::BrightCyan, "\x1b[96m"),
        (Color::BrightWhite, "\x1b[97m"),
        (Color::Reset, "\x1b[37m"),
    ];
    for (color, code) in all {
        assert_eq!(color.fg_code(), code);
    }
}

#[test]
fn background_codes() {
    let all = [
        (Color::Black, "\x1b[40m"),
        (Color::Red, "\x1b[41m"),
        (Color::Green, "\x1b[42m"),
        (Color::Yellow, "\x1b[43m"),
        (Color::Blue, "\x1b[44m"),
        (Color::Magenta, "\x1b[45m"),
        (Color::Cyan, "\x1b[46m"),
        (Color::White, "\x1b[47m"),
        (Color::BrightBlack, "\x1b[100m"),
        (Color::BrightRed, "\x1b[101m"),
        (Color::BrightGreen, "\x1b[102m"),
        (Color::BrightYellow, "\x1b[103m"),
        (Color::BrightBlue, "\x1b[104m"),
        (Color::BrightMagenta, "\x1b[105m"),
        (Color::BrightCyan, "\x1b[106m"),
        (Color::BrightWhite, "\x1b[107m"),
        (Color::Reset, "\x1b[49m"),
    ];
    for (color, code) in all {
        assert_eq!(color.bg_code(), code);
    }
}

#[test]
fn style_builders() {
    let plain = Style { fg: Color::Reset, bg: Color::Reset, modifier: Modifier::empty() };
    assert_eq!(style(), plain);
    assert_eq!(Style::default(), plain);
    assert_eq!(fg(Color::Red), Style { fg: Color::Red, ..plain });
    assert_eq!(bg(Color::Red), Style { bg: Color::Red, ..plain });
    assert_eq!(fg(Color::Red).bg(Color::Blue).fg(Color::Green), Style {
        fg: Color::Green,
        bg: Color::Blue,
        ..plain
    });
    assert_eq!(winter::style::bold().modifier.bits, 0x001);
    assert_eq!(winter::style::dim().modifier.bits, 0x002);
    assert_eq!(winter::style::italic().modifier.bits, 0x004);
    assert_eq!(winter::style::underlined().modifier.bits, 0x008);
    assert_eq!(winter::style::fast_blink().modifier.bits, 0x010);
    assert_eq!(winter::style::slow_blink().modifier.bits, 0x020);
    assert_eq!(winter::style::invert().modifier.bits, 0x040);
    assert_eq!(winter::style::hidden().modifier.bits, 0x080);
    assert_eq!(winter::style::crossed_out().modifier.bits, 0x100);
    assert_eq!(style().bold().italic().crossed_out().modifier.bits, 0x105);
    assert_eq!(
        style().dim().underlined().fast_blink().slow_blink().invert().hidden().modifier.bits,
        0x0fa
    );
}

#[test]
fn patch_replaces_colours_and_attributes_that_are_given() {
    let base = Style {
        fg: Color::Blue,
        bg: Color::Green,
        modifier: Modifier { bits: Modifier::BOLD },
    };
    let patched = base.patch(fg(Color::Red).italic());
    assert_eq!(patched.fg, Color::Red);
    assert_eq!(patched.bg, Color::Reset);
    assert_eq!(patched.modifier.bits, Modifier::ITALIC);
}

#[test]
fn patch_keeps_attributes_when_none_are_given() {
    let base = fg(Color::Red).bold().underlined();
    let patched = base.patch(bg(Color::Blue));
    assert_eq!(patched.fg, Color::Reset);
    assert_eq!(patched.bg, Color::Blue);
    assert_eq!(patched.modifier.bits, Modifier::BOLD | Modifier::UNDERLINED);
    assert_eq!(style().patch(style()), style());
}

#[test]
fn modifier_set_operations() {
    let mut m = Modifier::empty();
    assert!(m.is_empty());
    m.insert(Modifier::BOLD | Modifier::DIM);
    assert!(m.contains(Modifier::BOLD));
    assert!(m.contains(Modifier::BOLD | Modifier::DIM));
    assert!(!m.contains(Modifier::BOLD | Modifier::ITALIC));
    assert!(m.intersects(Modifier::BOLD | Modifier::ITALIC));
    assert!(!m.intersects(Modifier::ITALIC));
    m.remove(Modifier::BOLD);
    assert_eq!(m.bits(), Modifier::DIM);
    let other = Modifier { bits: Modifier::DIM | Modifier::HIDDEN };
    assert_eq!(m.union(other).bits, Modifier::DIM | Modifier::HIDDEN);
    assert_eq!(other.difference(m).bits, Modifier::HIDDEN);
    assert_eq!(Modifier::from_bits_truncate(0xffff).bits, 0x1ff);
    assert_eq!(Modifier::default(), Modifier::empty());
}

fn key(key: Key, down: bool, shift: bool, control: bool, alt: bool) -> Option<Input> {
    Some(Input::Key { key, down, shift, control, alt })
}

#[test]
fn poll_tells_of_keys_that_went_down() {
    let (event, keys) = poll(key(Key::Char('c'), true, false, true, false)).unwrap();
    assert_eq!(event, Event::Char('c'));
    assert!(keys.control());
    assert!(!keys.shift());
    assert!(!keys.alt());
    let (event, keys) = poll(key(Key::Function(5), true, true, false, true)).unwrap();
    assert_eq!(event, Event::Function(5));
    assert!(!keys.control());
    assert!(keys.shift());
    assert!(keys.alt());
    let named = [
        (Key::Backspace, Event::Backspace),
        (Key::Enter, Event::Enter),
        (Key::Left, Event::Left),
        (Key::Right, Event::Right),
        (Key::Up, Event::Up),
        (Key::Down, Event::Down),
        (Key::Tab, Event::Tab),
        (Key::Escape, Event::Escape),
    ];
    for (k, e) in named {
        assert_eq!(poll(key(k, true, false, false, false)).unwrap().0, e);
    }
}

#[test]
fn poll_ignores_releases_and_unknown_keys() {
    assert!(poll(key(Key::Char('c'), false, false, false, false)).is_none());
    assert!(poll(key(Key::Other, true, false, false, false)).is_none());
    assert!(poll(Some(Input::Other)).is_none());
    assert!(poll(None).is_none());
}

#[test]
fn poll_tells_of_the_mouse() {
    let mouse = |mouse| Some(Input::Mouse {
        mouse,
        column: 3,
        row: 4,
        shift: true,
        control: false,
        alt: false,
    });
    let (event, keys) = poll(mouse(Mouse::LeftDown)).unwrap();
    assert_eq!(event, Event::LeftMouse(3, 4));
    assert!(keys.shift());
    assert_eq!(poll(mouse(Mouse::RightDown)).unwrap().0, Event::RightMouse(3, 4));
    assert_eq!(poll(mouse(Mouse::MiddleDown)).unwrap().0, Event::MiddleMouse(3, 4));
    assert_eq!(poll(mouse(Mouse::ScrollUp)).unwrap().0, Event::ScrollUp);
    assert_eq!(poll(mouse(Mouse::ScrollDown)).unwrap().0, Event::ScrollDown);
    assert!(poll(mouse(Mouse::Other)).is_none());
}

#[test]
fn poll_tells_of_a_resize_without_modifiers() {
    let (event, keys) = poll(Some(Input::Resize(80, 24))).unwrap();
    assert_eq!(event, Event::Resize(80, 24));
    assert!(!keys.control() && !keys.shift() && !keys.alt());
}

#[test]
fn key_modifiers_from_keys() {
    for bits in 0..8u8 {
        let (shift, control, alt) = (bits & 1 != 0, bits & 2 != 0, bits & 4 != 0);
        let keys = KeyModifiers::from_keys(shift, control, alt);
        assert_eq!(keys.shift(), shift);
        assert_eq!(keys.control(), control);
        assert_eq!(keys.alt(), alt);
    }
}
