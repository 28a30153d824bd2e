use winter::buffer::{Buffer, Cell};
use winter::layout::Rect;
use winter::style::{fg, style, Color, Modifier};
use winter::text::{Line, Text};
use winter::write::{scroll_skip, tail_from};

fn symbols(buffer: &Buffer) -> Vec<&str> {
    buffer.content.iter().map(|c| c.symbol.as_str()).collect()
}

#[test]
fn set_stringn_writes_one_cluster_to_a_cell() {
    let mut buffer = Buffer::empty(Rect::new(0, 0, 5, 1));
    let end = buffer.set_stringn(1, 0, "abc", 5, fg(Color::Red));
    assert_eq!(end, (4, 0));
    assert_eq!(symbols(&buffer), vec![" ", "a", "b", "c", " "]);
    assert_eq!(buffer.content[1].fg, Color::Red);
    assert_eq!(buffer.content[0].fg, Color::Reset);
}

#[test]
fn set_stringn_stops_at_the_width() {
    let mut buffer = Buffer::empty(Rect::new(0, 0, 5, 1));
    let end = buffer.set_stringn(0, 0, "abcde", 2, style());
    assert_eq!(end, (2, 0));
    assert_eq!(symbols(&buffer), vec!["a", "b", " ", " ", " "]);
}

#[test]
fn set_stringn_stops_at_the_right_edge() {
    let mut buffer = Buffer::empty(Rect::new(0, 0, 5, 2));
    let end = buffer.set_stringn(3, 0, "abcde", 10, style());
    assert_eq!(end, (5, 0));
    assert_eq!(symbols(&buffer)[..6], [" ", " ", " ", "a", "b", " "]);
}

#[test]
fn set_stringn_with_no_width_writes_nothing() {
    let mut buffer = Buffer::empty(Rect::new(0, 0, 3, 1));
    let end = buffer.set_stringn(1, 0, "abc", 0, style());
    assert_eq!(end, (1, 0));
    assert!(buffer.is_empty());
}

#[test]
fn set_stringn_blanks_the_cell_under_a_wide_symbol() {
    let mut buffer = Buffer::empty(Rect::new(0, 0, 10, 5));
    buffer.set_stringn(2, 2, "xyz", 3, fg(Color::Red));
    let end = buffer.set_stringn(2, 2, "\u{3042}", 10, style());
    assert_eq!(end, (4, 2));
    assert_eq!(buffer.content[22].symbol, "\u{3042}");
    assert_eq!(buffer.content[23], Cell::default());
    assert_eq!(buffer.content[24].symbol, "z");
}

#[test]
fn set_stringn_never_writes_half_a_wide_symbol() {
    let mut buffer = Buffer::empty(Rect::new(0, 0, 4, 1));
    let end = buffer.set_stringn(0, 0, "a\u{3042}\u{3042}", 4, style());
    assert_eq!(end, (3, 0));
    assert_eq!(symbols(&buffer), vec!["a", "\u{3042}", " ", " "]);
    let mut narrow = Buffer::empty(Rect::new(0, 0, 4, 1));
    let end = narrow.set_stringn(0, 0, "\u{3042}b", 1, style());
    assert_eq!(end, (0, 0));
    assert!(narrow.is_empty());
}

#[test]
fn set_stringn_keeps_a_combining_sequence_in_one_cell() {
    let mut buffer = Buffer::empty(Rect::new(0, 0, 4, 1));
    let end = buffer.set_stringn(0, 0, "e\u{301}x", 4, style());
    assert_eq!(end, (2, 0));
    assert_eq!(symbols(&buffer), vec!["e\u{301}", "x", " ", " "]);
}

#[test]
fn set_stringn_stores_a_with_macron_as_it_is() {
    let mut buffer = Buffer::empty(Rect::new(0, 0, 4, 1));
    let end = buffer.set_stringn(0, 0, "a\u{304}b", 4, style());
    assert_eq!(end, (2, 0));
    assert_eq!(symbols(&buffer), vec!["a\u{304}", "b", " ", " "]);
}

#[test]
fn set_stringn_passes_over_clusters_without_width() {
    let mut buffer = Buffer::empty(Rect::new(0, 0, 4, 1));
    let end = buffer.set_stringn(0, 0, "a\u{200b}b", 4, style());
    assert_eq!(end, (2, 0));
    assert_eq!(symbols(&buffer), vec!["a", "b", " ", " "]);
}

#[test]
fn set_stringn_chains_from_the_column_it_returns() {
    let mut buffer = Buffer::empty(Rect::new(0, 0, 6, 1));
    let (x, y) = buffer.set_stringn(0, 0, "ab", 6, fg(Color::Red));
    let (x, _) = buffer.set_stringn(x, y, "cd", 6, fg(Color::Blue));
    assert_eq!(x, 4);
    assert_eq!(symbols(&buffer), vec!["a", "b", "c", "d", " ", " "]);
    assert_eq!(buffer.content[1].fg, Color::Red);
    assert_eq!(buffer.content[2].fg, Color::Blue);
}

#[test]
fn set_graphemes_goes_by_the_widths_it_is_given() {
    let mut buffer = Buffer::empty(Rect::new(0, 0, 6, 1));
    buffer.set_stringn(0, 0, "......", 6, style());
    let clusters = vec!["a", "b", "c", "d"];
    let widths = vec![1usize, 0, 3, 2];
    let end = buffer.set_graphemes(0, 0, &clusters, &widths, 6, style());
    assert_eq!(end, (6, 0));
    assert_eq!(symbols(&buffer), vec!["a", "c", " ", " ", "d", " "]);
}

#[test]
fn set_lines_writes_spans_in_their_own_styles() {
    let mut buffer = Buffer::empty(Rect::new(0, 0, 8, 1));
    let mut red = Text::new("ab");
    red.style = fg(Color::Red);
    let line = Line::new(vec![red, Text::new("cd")]);
    let end = buffer.set_lines(1, 0, &line, 8, false);
    assert_eq!(end, (5, 0));
    assert_eq!(symbols(&buffer), vec![" ", "a", "b", "c", "d", " ", " ", " "]);
    assert_eq!(buffer.content[1].fg, Color::Red);
    assert_eq!(buffer.content[3].fg, Color::Reset);
}

#[test]
fn set_lines_uses_the_style_of_the_line_where_it_has_one() {
    let mut buffer = Buffer::empty(Rect::new(0, 0, 4, 1));
    let mut red = Text::new("ab");
    red.style = fg(Color::Red);
    let line = Line::new(vec![red]).style(fg(Color::Green).bold());
    buffer.set_lines(0, 0, &line, 4, false);
    assert_eq!(buffer.content[0].fg, Color::Green);
    assert_eq!(buffer.content[0].modifier.bits, Modifier::BOLD);
}

#[test]
fn set_lines_cuts_at_the_end_without_scroll() {
    let mut buffer = Buffer::empty(Rect::new(0, 0, 8, 1));
    let line = Line::new(vec![Text::new("abc"), Text::new("def")]);
    let end = buffer.set_lines(0, 0, &line, 4, false);
    assert_eq!(end, (4, 0));
    assert_eq!(symbols(&buffer)[..5], ["a", "b", "c", "d", " "]);
}

#[test]
fn set_lines_cuts_at_the_start_with_scroll() {
    let mut buffer = Buffer::empty(Rect::new(0, 0, 8, 1));
    let line = Line::new(vec![Text::new("ab"), Text::new("cdef")]);
    let end = buffer.set_lines(0, 0, &line, 3, true);
    assert_eq!(end, (3, 0));
    assert_eq!(symbols(&buffer)[..4], ["d", "e", "f", " "]);
}

#[test]
fn set_lines_stops_at_the_right_edge() {
    let mut buffer = Buffer::empty(Rect::new(0, 0, 4, 1));
    let line = Line::new(vec![Text::new("abc"), Text::new("def"), Text::new("ghi")]);
    let end = buffer.set_lines(0, 0, &line, 20, false);
    assert_eq!(end, (4, 0));
    assert_eq!(symbols(&buffer), vec!["a", "b", "c", "d"]);
}

#[test]
fn set_lines_outside_the_buffer_writes_nothing() {
    let mut buffer = Buffer::empty(Rect::new(0, 0, 4, 1));
    let line = Line::new(vec![Text::new("abc")]);
    assert_eq!(buffer.set_lines(4, 0, &line, 4, false), (4, 0));
    assert_eq!(buffer.set_lines(0, 1, &line, 4, false), (0, 1));
    assert!(buffer.is_empty());
}

#[test]
fn scroll_skip_takes_whole_clusters_within_the_overflow() {
    assert_eq!(scroll_skip(&vec![1, 1, 1, 1], 2), 2);
    assert_eq!(scroll_skip(&vec![1, 2, 1], 2), 1);
    assert_eq!(scroll_skip(&vec![2, 2], 1), 0);
    assert_eq!(scroll_skip(&vec![1, 1], 5), 2);
    assert_eq!(scroll_skip(&vec![0, 3, 1], 3), 3);
    assert_eq!(scroll_skip(&vec![], 3), 0);
}

#[test]
fn tail_from_cuts_only_where_a_character_starts() {
    assert_eq!(tail_from("abc", 1), Some("bc"));
    assert_eq!(tail_from("abc", 0), Some("abc"));
    assert_eq!(tail_from("abc", 3), Some(""));
    assert_eq!(tail_from("abc", 4), None);
    assert_eq!(tail_from("\u{e9}a", 1), None);
    assert_eq!(tail_from("\u{e9}a", 2), Some("a"));
}

#[test]
fn text_width_counts_columns() {
    assert_eq!(Text::new("abc").width(), 3);
    assert_eq!(Text::new("\u{3042}b").width(), 3);
    assert_eq!(Text::new("").width(), 0);
    assert_eq!(Line::new(vec![Text::new("ab"), Text::new("\u{3042}")]).width(), 4);
}
