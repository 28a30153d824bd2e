use winter::buffer::{Buffer, Cell};
use winter::layout::Rect;
use winter::render::{draw, draw_modifier};
use winter::style::{fg, style, Color, Modifier};
use winter::Winter;

fn bold_red_hi() -> Buffer {
    let mut buffer = Buffer::empty(Rect::new(0, 0, 10, 5));
    buffer.set_stringn(0, 0, "Hi", 10, style().bold().fg(Color::Red));
    buffer
}

#[test]
fn diff_reports_the_two_cells_that_were_written() {
    let previous = Buffer::empty(Rect::new(0, 0, 10, 5));
    let next = bold_red_hi();
    let diff = previous.diff(&next);
    assert_eq!(diff.len(), 2);
    let (x, y, cell) = diff[0];
    assert_eq!((x, y), (0, 0));
    assert_eq!(cell.symbol, "H");
    assert_eq!(cell.fg, Color::Red);
    assert_eq!(cell.modifier.bits, Modifier::BOLD);
    let (x, y, cell) = diff[1];
    assert_eq!((x, y), (1, 0));
    assert_eq!(cell.symbol, "i");
    assert_eq!(cell.fg, Color::Red);
    assert_eq!(cell.modifier.bits, Modifier::BOLD);
}

#[test]
fn diff_of_a_wide_symbol_reports_its_first_cell_only() {
    let previous = Buffer::empty(Rect::new(0, 0, 10, 5));
    let mut next = Buffer::empty(Rect::new(0, 0, 10, 5));
    next.set_stringn(2, 2, "\u{3042}", 10, style());
    let diff = previous.diff(&next);
    assert_eq!(diff.len(), 1);
    assert_eq!((diff[0].0, diff[0].1), (2, 2));
    assert_eq!(diff[0].2.symbol, "\u{3042}");
    assert_eq!(next.content[23], Cell::default());
    assert!(next.diff(&next).is_empty());
}

#[test]
fn diff_of_a_buffer_with_itself_is_empty() {
    let buffer = bold_red_hi();
    assert!(buffer.diff(&buffer).is_empty());
    let blank = Buffer::empty(Rect::new(0, 0, 3, 3));
    assert!(blank.diff(&blank).is_empty());
}

#[test]
fn diff_sees_a_change_of_style_alone() {
    let previous = bold_red_hi();
    let mut next = bold_red_hi();
    next.get_mut(1, 0).unwrap().set_bg(Color::Blue);
    let diff = previous.diff(&next);
    assert_eq!(diff.len(), 1);
    assert_eq!((diff[0].0, diff[0].1), (1, 0));
}

#[test]
fn diff_redraws_the_cell_that_a_wide_symbol_used_to_cover() {
    let mut previous = Buffer::empty(Rect::new(0, 0, 4, 1));
    previous.set_stringn(0, 0, "\u{3042}", 4, style());
    let mut next = Buffer::empty(Rect::new(0, 0, 4, 1));
    next.set_stringn(0, 0, "a", 4, style());
    let diff = previous.diff(&next);
    let places: Vec<(u16, u16)> = diff.iter().map(|u| (u.0, u.1)).collect();
    assert_eq!(places, vec![(0, 0), (1, 0)]);
    assert_eq!(diff[1].2.symbol, " ");
}

#[test]
fn diff_counts_columns_from_zero_whatever_the_area() {
    let previous = Buffer::empty(Rect::new(5, 5, 3, 2));
    let mut next = Buffer::empty(Rect::new(5, 5, 3, 2));
    next.set_stringn(6, 6, "x", 1, style());
    let diff = previous.diff(&next);
    assert_eq!(diff.len(), 1);
    assert_eq!((diff[0].0, diff[0].1), (1, 1));
}

#[test]
fn diff_by_widths_goes_by_the_widths_it_is_given() {
    let previous = Buffer::empty(Rect::new(0, 0, 4, 1));
    let mut next = Buffer::empty(Rect::new(0, 0, 4, 1));
    next.set_stringn(0, 0, "abcd", 4, style());
    let ones = vec![1usize; 4];
    let diff = previous.diff_by_widths(&next, &ones, &ones);
    assert_eq!(diff.len(), 4);
    let wide = vec![2usize, 1, 1, 1];
    let diff = previous.diff_by_widths(&next, &ones, &wide);
    let places: Vec<u16> = diff.iter().map(|u| u.0).collect();
    assert_eq!(places, vec![0, 2, 3]);
    let three = vec![3usize, 1, 1, 1];
    let diff = next.diff_by_widths(&next, &three, &three);
    let places: Vec<u16> = diff.iter().map(|u| u.0).collect();
    assert_eq!(places, vec![2]);
}

#[test]
fn to_vec_lists_every_cell_in_row_major_order() {
    let mut buffer = Buffer::empty(Rect::new(0, 0, 3, 2));
    buffer.set_stringn(0, 0, "abc", 3, style());
    buffer.set_stringn(0, 1, "def", 3, style());
    let all = buffer.to_vec();
    let listed: Vec<(u16, u16, &str)> = all.iter().map(|u| (u.0, u.1, u.2.symbol.as_str())).collect();
    assert_eq!(
        listed,
        vec![(0, 0, "a"), (1, 0, "b"), (2, 0, "c"), (0, 1, "d"), (1, 1, "e"), (2, 1, "f")]
    );
}

#[test]
fn symbol_widths_are_display_widths() {
    let mut buffer = Buffer::empty(Rect::new(0, 0, 4, 1));
    buffer.set_stringn(0, 0, "a\u{3042}b", 4, style());
    assert_eq!(buffer.symbol_widths(), vec![1, 2, 1, 1]);
}

#[test]
fn draw_of_nothing_hides_the_cursor_homes_it_and_resets() {
    let mut out = String::new();
    draw(&mut out, vec![]);
    assert_eq!(out, "\x1b[?25l\x1b[1;1H\x1b[0m");
}

#[test]
fn draw_sends_style_once_for_a_run_of_cells() {
    let previous = Buffer::empty(Rect::new(0, 0, 10, 5));
    let next = bold_red_hi();
    let mut out = String::from(">");
    draw(&mut out, previous.diff(&next));
    assert_eq!(out, ">\x1b[?25l\x1b[1;1H\x1b[1;1H\x1b[1m\x1b[31mHi\x1b[0m");
}

#[test]
fn draw_moves_the_cursor_only_between_runs() {
    let mut buffer = Buffer::empty(Rect::new(0, 0, 10, 5));
    buffer.set_stringn(2, 1, "ab", 10, style());
    buffer.set_stringn(7, 1, "c", 10, style());
    buffer.set_stringn(0, 3, "d", 10, fg(Color::Blue));
    let blank = Buffer::empty(Rect::new(0, 0, 10, 5));
    let mut out = String::new();
    draw(&mut out, blank.diff(&buffer));
    assert_eq!(out, "\x1b[?25l\x1b[1;1H\x1b[2;3Hab\x1b[2;8Hc\x1b[4;1H\x1b[34md\x1b[0m");
}

#[test]
fn draw_sends_each_colour_only_when_it_changes() {
    let mut buffer = Buffer::empty(Rect::new(0, 0, 4, 1));
    buffer.get_mut(0, 0).unwrap().set_symbol("a").set_fg(Color::Red).set_bg(Color::Blue);
    buffer.get_mut(1, 0).unwrap().set_symbol("b").set_fg(Color::Red).set_bg(Color::BrightWhite);
    buffer.get_mut(2, 0).unwrap().set_symbol("c").set_fg(Color::Reset).set_bg(Color::BrightWhite);
    buffer.get_mut(3, 0).unwrap().set_symbol("d");
    let mut out = String::new();
    draw(&mut out, buffer.to_vec());
    assert_eq!(
        out,
        "\x1b[?25l\x1b[1;1H\x1b[1;1H\x1b[31m\x1b[44ma\x1b[107mb\x1b[37mc\x1b[49md\x1b[0m"
    );
}

#[test]
fn draw_sends_a_combining_sequence_as_it_is() {
    let mut buffer = Buffer::empty(Rect::new(0, 0, 2, 1));
    buffer.set_stringn(0, 0, "e\u{301}", 2, style());
    let blank = Buffer::empty(Rect::new(0, 0, 2, 1));
    let diff = blank.diff(&buffer);
    assert_eq!(diff.len(), 1);
    let mut out = String::new();
    draw(&mut out, diff);
    assert_eq!(out, "\x1b[?25l\x1b[1;1H\x1b[1;1He\u{301}\x1b[0m");
}

#[test]
fn draw_moves_past_a_wide_symbol() {
    let mut buffer = Buffer::empty(Rect::new(0, 0, 4, 1));
    buffer.set_stringn(0, 0, "\u{3042}b", 4, style());
    let blank = Buffer::empty(Rect::new(0, 0, 4, 1));
    let mut out = String::new();
    draw(&mut out, blank.diff(&buffer));
    assert_eq!(out, "\x1b[?25l\x1b[1;1H\x1b[1;1H\u{3042}\x1b[1;3Hb\x1b[0m");
}

fn codes(from: u16, to: u16) -> String {
    let mut out = String::new();
    draw_modifier(&mut out, Modifier { bits: from }, Modifier { bits: to });
    out
}

#[test]
fn draw_modifier_sends_nothing_between_equal_sets() {
    assert_eq!(codes(0, 0), "");
    assert_eq!(codes(Modifier::BOLD | Modifier::ITALIC, Modifier::BOLD | Modifier::ITALIC), "");
}

#[test]
fn draw_modifier_switches_on_what_is_new() {
    assert_eq!(codes(0, Modifier::BOLD), "\x1b[1m");
    assert_eq!(codes(0, Modifier::DIM), "\x1b[2m");
    assert_eq!(codes(0, Modifier::ITALIC), "\x1b[3m");
    assert_eq!(codes(0, Modifier::UNDERLINED), "\x1b[4m");
    assert_eq!(codes(0, Modifier::SLOW_BLINK), "\x1b[5m");
    assert_eq!(codes(0, Modifier::FAST_BLINK), "\x1b[6m");
    assert_eq!(codes(0, Modifier::INVERT), "\x1b[7m");
    assert_eq!(codes(0, Modifier::HIDDEN), "\x1b[8m");
    assert_eq!(codes(0, Modifier::CROSSED_OUT), "\x1b[9m");
    assert_eq!(codes(Modifier::BOLD, Modifier::BOLD | Modifier::UNDERLINED), "\x1b[4m");
}

#[test]
fn draw_modifier_switches_off_what_is_gone() {
    assert_eq!(codes(Modifier::BOLD, 0), "\x1b[22m");
    assert_eq!(codes(Modifier::DIM, 0), "\x1b[22m");
    assert_eq!(codes(Modifier::ITALIC, 0), "\x1b[23m");
    assert_eq!(codes(Modifier::UNDERLINED, 0), "\x1b[24m");
    assert_eq!(codes(Modifier::SLOW_BLINK, 0), "\x1b[25m");
    assert_eq!(codes(Modifier::FAST_BLINK, 0), "\x1b[25m");
    assert_eq!(codes(Modifier::SLOW_BLINK | Modifier::FAST_BLINK, 0), "\x1b[25m");
    assert_eq!(codes(Modifier::INVERT, 0), "\x1b[27m");
    assert_eq!(codes(Modifier::HIDDEN, 0), "\x1b[28m");
    assert_eq!(codes(Modifier::CROSSED_OUT, 0), "\x1b[29m");
}

#[test]
fn draw_modifier_switches_dim_on_again_after_bold_went() {
    assert_eq!(codes(Modifier::BOLD | Modifier::DIM, Modifier::DIM), "\x1b[22m\x1b[2m");
    assert_eq!(
        codes(Modifier::BOLD | Modifier::UNDERLINED, Modifier::UNDERLINED | Modifier::ITALIC),
        "\x1b[22m\x1b[3m"
    );
}

#[test]
fn draw_modifier_switches_off_before_it_switches_on() {
    assert_eq!(
        codes(Modifier::INVERT | Modifier::ITALIC, Modifier::BOLD | Modifier::CROSSED_OUT),
        "\x1b[27m\x1b[23m\x1b[1m\x1b[9m"
    );
}

#[test]
fn winter_starts_on_a_cleared_alternate_screen() {
    let mut out = String::new();
    let winter = Winter::new(&mut out, 10, 5);
    assert_eq!(out, "\x1b[?1049h\x1b[2J");
    assert_eq!(winter.viewport, Rect::new(0, 0, 10, 5));
    assert_eq!(winter.current, 0);
    assert_eq!(winter.buffers[0].content.len(), 50);
    assert_eq!(winter.buffers[1].content.len(), 50);
}

#[test]
fn winter_draws_the_difference_and_swaps() {
    let mut out = String::new();
    let mut winter = Winter::new(&mut out, 10, 5);
    winter.buffer().set_stringn(0, 0, "Hi", 10, style());
    out.clear();
    winter.draw(&mut out, 10, 5);
    assert_eq!(out, "\x1b[?25l\x1b[1;1H\x1b[1;1HHi\x1b[0m");
    assert_eq!(winter.current, 1);
    assert!(winter.buffer().is_empty());
    assert_eq!(winter.buffers[0].content[0].symbol, "H");

    winter.buffer().set_stringn(0, 0, "Ho", 10, style());
    out.clear();
    winter.draw(&mut out, 10, 5);
    assert_eq!(out, "\x1b[?25l\x1b[1;1H\x1b[1;2Ho\x1b[0m");
    assert_eq!(winter.current, 0);
    assert!(winter.buffer().is_empty());
}

#[test]
fn winter_erases_what_is_no_longer_drawn() {
    let mut out = String::new();
    let mut winter = Winter::new(&mut out, 4, 1);
    winter.buffer().set_stringn(0, 0, "ab", 4, style());
    winter.draw(&mut out, 4, 1);
    out.clear();
    winter.draw(&mut out, 4, 1);
    assert_eq!(out, "\x1b[?25l\x1b[1;1H\x1b[1;1H  \x1b[0m");
}

#[test]
fn winter_resizes_and_clears_when_the_terminal_changed_size() {
    let mut out = String::new();
    let mut winter = Winter::new(&mut out, 4, 2);
    winter.buffer().set_stringn(0, 0, "ab", 4, style());
    out.clear();
    winter.draw(&mut out, 6, 3);
    assert_eq!(out, "\x1b[?25l\x1b[1;1H\x1b[1;1Hab\x1b[0m\x1b[2J");
    assert_eq!(winter.viewport, Rect::new(0, 0, 6, 3));
    assert_eq!(winter.current, 1);
    for buffer in winter.buffers.iter() {
        assert_eq!(buffer.area, Rect::new(0, 0, 6, 3));
        assert_eq!(buffer.content.len(), 18);
        assert!(buffer.content.iter().all(|c| *c == Cell::default()));
    }
}

fn overlay(base: &Buffer, updates: &[(u16, u16, &Cell)]) -> Vec<Cell> {
    let mut cells = base.content.clone();
    for (x, y, cell) in updates {
        let place = *y as usize * base.area.width as usize + *x as usize;
        cells[place] = (*cell).clone();
    }
    cells
}

fn sample_frames() -> (Buffer, Buffer) {
    let area = Rect::new(0, 0, 8, 3);
    let mut a = Buffer::empty(area);
    a.set_stringn(0, 0, "hello", 8, fg(Color::Red));
    a.set_stringn(1, 1, "\u{3042}\u{3042}x", 8, style());
    a.set_stringn(0, 2, "e\u{301}f", 8, style().bold());
    let mut b = Buffer::empty(area);
    b.set_stringn(0, 0, "help", 8, fg(Color::Red));
    b.set_stringn(0, 1, "ab", 8, style());
    b.set_stringn(6, 1, "\u{3042}", 8, style());
    b.set_stringn(2, 2, "\u{3042}", 8, fg(Color::Blue));
    (a, b)
}

#[test]
fn the_diff_drawn_over_the_old_frame_gives_the_new_one() {
    let (a, b) = sample_frames();
    assert_eq!(overlay(&a, &a.diff(&b)), b.content);
    assert_eq!(overlay(&b, &b.diff(&a)), a.content);
    let blank = Buffer::empty(a.area);
    assert_eq!(overlay(&blank, &blank.diff(&a)), a.content);
    assert_eq!(overlay(&a, &a.diff(&blank)), blank.content);
}

#[test]
fn a_cell_under_a_wide_symbol_is_not_brought_up_to_date() {
    let area = Rect::new(0, 0, 2, 1);
    let mut a = Buffer::empty(area);
    a.set_stringn(0, 0, "xy", 2, style());
    let mut b = Buffer::empty(area);
    b.set_stringn(0, 0, "\u{3042}", 2, style());
    b.get_mut(1, 0).unwrap().set_symbol("z");
    let diff = a.diff(&b);
    assert_eq!(diff.len(), 1);
    let drawn = overlay(&a, &diff);
    assert_eq!(drawn[0].symbol, "\u{3042}");
    assert_eq!(drawn[1].symbol, "y");
}

#[test]
fn after_a_full_redraw_the_diff_is_empty() {
    let (a, b) = sample_frames();
    assert_eq!(overlay(&b, &a.to_vec()), a.content);
    let mut out = String::new();
    draw(&mut out, a.to_vec());
    assert!(out.ends_with("\x1b[0m"));
    assert!(a.diff(&a).is_empty());
    assert!(b.diff(&b).is_empty());
}

#[test]
fn a_symbol_three_columns_wide_leaves_a_stale_cell() {
    let mut a = Buffer::empty(Rect::new(0, 0, 4, 1));
    a.get_mut(0, 0).unwrap().set_symbol("abc");
    let diff = a.diff(&a);
    let places: Vec<u16> = diff.iter().map(|u| u.0).collect();
    assert_eq!(places, vec![2]);
}
