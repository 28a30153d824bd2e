use winter::block::{block, BorderType, Borders};
use winter::buffer::{Buffer, Cell};
use winter::layout::{layout, layout_margin, Alignment, Constraint, Direction, Rect};
use winter::list::list;
use winter::style::{fg, style, Color, Modifier};
use winter::table::{table, Row};
use winter::text::{Line, Text};

fn rows(buffer: &Buffer) -> Vec<String> {
    let width = buffer.area.width as usize;
    buffer
        .content
        .chunks(width)
        .map(|row| row.iter().map(|c| c.symbol.as_str()).collect::<String>())
        .collect()
}

fn text(s: &str) -> Line {
    Line::new(vec![Text::new(s)])
}

#[test]
fn layout_by_lengths() {
    let area = Rect::new(0, 0, 20, 5);
    let cons = [Constraint::Length(5), Constraint::Length(7)];
    assert_eq!(
        layout(area, Direction::Horizontal, &cons),
        vec![Rect::new(0, 0, 5, 5), Rect::new(5, 0, 7, 5)]
    );
    assert_eq!(
        layout(area, Direction::Vertical, &cons[..1]),
        vec![Rect::new(0, 0, 20, 5)]
    );
    let cons = [Constraint::Length(2), Constraint::Length(2), Constraint::Length(2)];
    assert_eq!(
        layout(area, Direction::Vertical, &cons),
        vec![Rect::new(0, 0, 20, 2), Rect::new(0, 2, 20, 2), Rect::new(0, 4, 20, 1)]
    );
}

#[test]
fn layout_by_percentages_rounds_to_the_nearest_cell() {
    let area = Rect::new(0, 0, 10, 3);
    let cons = [Constraint::Percentage(25), Constraint::Percentage(24), Constraint::Percentage(50)];
    assert_eq!(
        layout(area, Direction::Horizontal, &cons),
        vec![Rect::new(0, 0, 3, 3), Rect::new(3, 0, 2, 3), Rect::new(5, 0, 5, 3)]
    );
    let cons = [Constraint::Percentage(200)];
    assert_eq!(layout(area, Direction::Horizontal, &cons), vec![Rect::new(0, 0, 10, 3)]);
}

#[test]
fn layout_clamps_what_does_not_fit() {
    let area = Rect::new(0, 0, 10, 3);
    let cons = [Constraint::Length(8), Constraint::Length(8), Constraint::Length(8)];
    assert_eq!(
        layout(area, Direction::Horizontal, &cons),
        vec![Rect::new(0, 0, 8, 3), Rect::new(8, 0, 2, 3), Rect::new(10, 0, 0, 3)]
    );
}

#[test]
fn layout_with_a_trailing_fill() {
    let area = Rect::new(0, 0, 20, 5);
    let cons = [Constraint::Length(5), Constraint::Fill];
    assert_eq!(
        layout(area, Direction::Horizontal, &cons),
        vec![Rect::new(0, 0, 5, 5), Rect::new(5, 0, 15, 5)]
    );
    assert_eq!(
        layout(area, Direction::Vertical, &cons),
        vec![Rect::new(0, 0, 20, 5), Rect::new(0, 5, 20, 0)]
    );
}

#[test]
fn layout_with_a_leading_fill() {
    let area = Rect::new(0, 0, 20, 5);
    let cons = [Constraint::Fill, Constraint::Length(5)];
    assert_eq!(
        layout(area, Direction::Horizontal, &cons),
        vec![Rect::new(0, 0, 15, 5), Rect::new(15, 0, 5, 5)]
    );
    let cons = [Constraint::Fill, Constraint::Length(2)];
    assert_eq!(
        layout(area, Direction::Vertical, &cons),
        vec![Rect::new(0, 0, 20, 3), Rect::new(0, 3, 20, 2)]
    );
}

#[test]
fn layout_of_a_single_fill_gives_two_rectangles() {
    let area = Rect::new(0, 0, 4, 2);
    assert_eq!(
        layout(area, Direction::Horizontal, &[Constraint::Fill]),
        vec![Rect::new(0, 0, 4, 2), Rect::new(0, 0, 4, 2)]
    );
    assert_eq!(layout(area, Direction::Horizontal, &[]), vec![]);
}

#[test]
fn layout_margin_takes_the_margin_first() {
    let area = Rect::new(0, 0, 20, 6);
    let cons = [Constraint::Length(4), Constraint::Percentage(50)];
    assert_eq!(
        layout_margin(area, Direction::Horizontal, &cons, (2, 1)),
        Ok(vec![Rect::new(2, 1, 4, 4), Rect::new(6, 1, 8, 4)])
    );
}

#[test]
fn layout_margin_rejects_what_cannot_be_laid_out() {
    let area = Rect::new(0, 0, 20, 6);
    let two = [Constraint::Fill, Constraint::Length(1), Constraint::Fill];
    assert_eq!(
        layout_margin(area, Direction::Horizontal, &two, (0, 0)),
        Err("Cannot have multiple fill constraints.")
    );
    let middle = [Constraint::Length(1), Constraint::Fill, Constraint::Length(1)];
    assert_eq!(
        layout_margin(area, Direction::Horizontal, &middle, (0, 0)),
        Err("Fill constraint must be at the beginning or end.")
    );
    assert_eq!(
        layout_margin(area, Direction::Horizontal, &[], (11, 0)),
        Err("Inner area exceeded outside area. Reduce margin width.")
    );
    assert_eq!(
        layout_margin(area, Direction::Horizontal, &two, (0, 4)),
        Err("Inner area exceeded outside area. Reduce margin height.")
    );
}

#[test]
fn block_inner_leaves_room_for_borders_and_title() {
    let area = Rect::new(1, 1, 10, 5);
    let all = block(None, Borders::from_bits(Borders::ALL), BorderType::Plain);
    assert_eq!(all.inner(area), Rect::new(2, 2, 8, 3));
    let none = block(None, Borders::from_bits(Borders::NONE), BorderType::Plain);
    assert_eq!(none.inner(area), area);
    let titled = block(Some(Text::new("t")), Borders::from_bits(Borders::NONE), BorderType::Plain);
    assert_eq!(titled.inner(area), Rect::new(1, 2, 10, 4));
    let sides = block(None, Borders::from_bits(Borders::LEFT | Borders::BOTTOM), BorderType::Plain);
    assert_eq!(sides.inner(area), Rect::new(2, 1, 9, 4));
    assert_eq!(all.inner(Rect::new(0, 0, 1, 1)), Rect { x: 1, y: 1, width: 0, height: 0 });
    assert_eq!(all.inner(Rect::new(0, 0, 0, 0)), Rect { x: 0, y: 0, width: 0, height: 0 });
}

#[test]
fn block_draws_its_borders_and_corners() {
    let mut buffer = Buffer::empty(Rect::new(0, 0, 6, 4));
    let b = block(None, Borders::from_bits(Borders::ALL), BorderType::Plain).style(fg(Color::Red));
    b.draw(Rect::new(1, 0, 4, 3), &mut buffer);
    assert_eq!(
        rows(&buffer),
        vec![
            " \u{250c}\u{2500}\u{2500}\u{2510} ",
            " \u{2502}  \u{2502} ",
            " \u{2514}\u{2500}\u{2500}\u{2518} ",
            "      ",
        ]
    );
    assert_eq!(buffer.content[1].fg, Color::Red);
    assert_eq!(buffer.content[8], Cell::default());
    assert_eq!(buffer.content[0], Cell::default());
}

#[test]
fn block_draws_each_kind_of_line() {
    let kinds = [
        (BorderType::Plain, ["\u{250c}", "\u{2500}", "\u{2510}", "\u{2502}", "\u{2514}", "\u{2518}"]),
        (BorderType::Rounded, ["\u{256d}", "\u{2500}", "\u{256e}", "\u{2502}", "\u{2570}", "\u{256f}"]),
        (BorderType::Double, ["\u{2554}", "\u{2550}", "\u{2557}", "\u{2551}", "\u{255a}", "\u{255d}"]),
        (BorderType::Thick, ["\u{250f}", "\u{2501}", "\u{2513}", "\u{2503}", "\u{2517}", "\u{251b}"]),
    ];
    for (kind, [tl, h, tr, v, bl, br]) in kinds {
        let mut buffer = Buffer::empty(Rect::new(0, 0, 3, 3));
        block(None, Borders::from_bits(Borders::ALL), kind).draw(Rect::new(0, 0, 3, 3), &mut buffer);
        let symbols: Vec<&str> = buffer.content.iter().map(|c| c.symbol.as_str()).collect();
        assert_eq!(symbols, vec![tl, h, tr, v, " ", v, bl, h, br]);
    }
}

#[test]
fn block_draws_only_the_sides_it_has() {
    let mut buffer = Buffer::empty(Rect::new(0, 0, 3, 3));
    block(None, Borders::from_bits(Borders::TOP | Borders::LEFT), BorderType::Plain)
        .draw(Rect::new(0, 0, 3, 3), &mut buffer);
    assert_eq!(rows(&buffer), vec!["\u{250c}\u{2500}\u{2500}", "\u{2502}  ", "\u{2502}  "]);
    let mut buffer = Buffer::empty(Rect::new(0, 0, 3, 3));
    block(None, Borders::from_bits(Borders::NONE), BorderType::Plain)
        .draw(Rect::new(0, 0, 3, 3), &mut buffer);
    assert!(buffer.is_empty());
}

#[test]
fn block_draws_its_title_over_the_top_border() {
    let mut buffer = Buffer::empty(Rect::new(0, 0, 8, 3));
    let mut title = Text::new("Title!");
    title.style = style().bold();
    block(Some(title), Borders::from_bits(Borders::ALL), BorderType::Plain)
        .margin(1)
        .draw(Rect::new(0, 0, 8, 3), &mut buffer);
    assert_eq!(rows(&buffer)[0], "\u{250c}\u{2500}Title!");
    assert_eq!(buffer.content[2].modifier.bits, Modifier::BOLD);
    let mut buffer = Buffer::empty(Rect::new(0, 0, 8, 3));
    block(Some(Text::new("Title!")), Borders::from_bits(Borders::ALL), BorderType::Plain)
        .draw(Rect::new(0, 0, 6, 3), &mut buffer);
    assert_eq!(rows(&buffer)[0], "\u{250c}Titl\u{2510}  ");
}

#[test]
fn block_in_an_empty_area_draws_nothing() {
    let mut buffer = Buffer::empty(Rect::new(0, 0, 3, 3));
    let b = block(Some(Text::new("t")), Borders::from_bits(Borders::ALL), BorderType::Plain);
    b.draw(Rect::new(1, 1, 0, 2), &mut buffer);
    b.draw(Rect::new(1, 1, 2, 0), &mut buffer);
    assert!(buffer.is_empty());
}

#[test]
fn block_is_clipped_to_the_buffer() {
    let mut buffer = Buffer::empty(Rect::new(0, 0, 3, 2));
    block(None, Borders::from_bits(Borders::ALL), BorderType::Plain)
        .draw(Rect::new(1, 0, 4, 4), &mut buffer);
    assert_eq!(rows(&buffer), vec![" \u{250c}\u{2500}", " \u{2502} "]);
}

#[test]
fn line_draws_aligned() {
    let area = Rect::new(0, 0, 7, 1);
    let mut buffer = Buffer::empty(area);
    text("abc").draw(area, &mut buffer);
    assert_eq!(rows(&buffer), vec!["abc    "]);
    let mut buffer = Buffer::empty(area);
    text("abc").align(Alignment::Center).draw(area, &mut buffer);
    assert_eq!(rows(&buffer), vec!["  abc  "]);
    let mut buffer = Buffer::empty(area);
    text("abc").align(Alignment::Right).draw(area, &mut buffer);
    assert_eq!(rows(&buffer), vec!["    abc"]);
    let mut buffer = Buffer::empty(area);
    text("abcdefghij").align(Alignment::Right).draw(area, &mut buffer);
    assert_eq!(rows(&buffer), vec!["abcdefg"]);
    let mut buffer = Buffer::empty(area);
    text("abcdefghij").scroll().draw(area, &mut buffer);
    assert_eq!(rows(&buffer), vec!["defghij"]);
}

#[test]
fn line_draws_inside_its_block() {
    let area = Rect::new(0, 0, 5, 3);
    let mut buffer = Buffer::empty(area);
    text("abcde")
        .block(block(None, Borders::from_bits(Borders::ALL), BorderType::Plain))
        .draw(area, &mut buffer);
    assert_eq!(
        rows(&buffer),
        vec![
            "\u{250c}\u{2500}\u{2500}\u{2500}\u{2510}",
            "\u{2502}abc\u{2502}",
            "\u{2514}\u{2500}\u{2500}\u{2500}\u{2518}",
        ]
    );
}

#[test]
fn text_into_lines_keeps_the_style() {
    let mut t = Text::new("ab");
    t.style = fg(Color::Red);
    let line = t.into_lines();
    assert_eq!(line.height(), 1);
    assert_eq!(line.style, Some(fg(Color::Red)));
    assert_eq!(line.lines[0].inner, "ab");
    assert!(Line::default().lines.is_empty());
    assert_eq!(Text::default().inner, "");
}

#[test]
fn list_bounds_keep_the_selection_in_view() {
    let l = list((0..10).map(|i| text(&i.to_string())).collect());
    assert_eq!(l.get_items_bounds(0, 4), (0, 4));
    assert_eq!(l.get_items_bounds(1, 4), (0, 4));
    assert_eq!(l.get_items_bounds(2, 4), (1, 5));
    assert_eq!(l.get_items_bounds(5, 4), (4, 8));
    assert_eq!(l.get_items_bounds(8, 4), (6, 10));
    assert_eq!(l.get_items_bounds(9, 4), (6, 10));
    assert_eq!(l.get_items_bounds(99, 4), (6, 10));
    assert_eq!(l.get_items_bounds(5, 5), (3, 8));
    assert_eq!(l.get_items_bounds(3, 20), (0, 10));
    assert_eq!(l.get_items_bounds(0, 0), (0, 0));
}

#[test]
fn list_draws_one_line_to_a_row() {
    let area = Rect::new(0, 0, 5, 3);
    let mut buffer = Buffer::empty(area);
    let l = list(vec![text("one"), text("two"), text("three"), text("four")]);
    l.draw(area, &mut buffer, None);
    assert_eq!(rows(&buffer), vec!["one  ", "two  ", "three"]);
}

#[test]
fn list_marks_the_selected_line() {
    let area = Rect::new(0, 0, 6, 3);
    let mut buffer = Buffer::empty(area);
    let l = list(vec![text("one"), text("two"), text("three"), text("four")])
        .symbol("> ")
        .selection_style(fg(Color::Yellow));
    l.draw(area, &mut buffer, Some(2));
    assert_eq!(rows(&buffer), vec!["  two ", "> thre", "  four"]);
    assert_eq!(buffer.content[6].fg, Color::Yellow);
    assert_eq!(buffer.content[11].fg, Color::Yellow);
    assert_eq!(buffer.content[0].fg, Color::Reset);
}

#[test]
fn list_draws_from_the_bottom() {
    let area = Rect::new(0, 0, 3, 3);
    let mut buffer = Buffer::empty(area);
    let mut l = list(vec![text("a"), text("b")]);
    l.start_from_bottom = true;
    l.draw(area, &mut buffer, None);
    assert_eq!(rows(&buffer), vec!["   ", "b  ", "a  "]);
}

#[test]
fn list_draws_inside_its_block_with_styled_lines() {
    let area = Rect::new(0, 0, 5, 4);
    let mut buffer = Buffer::empty(area);
    let l = list(vec![text("ab").style(fg(Color::Green)), text("cd")])
        .block(block(None, Borders::from_bits(Borders::ALL), BorderType::Plain));
    l.draw(area, &mut buffer, None);
    assert_eq!(rows(&buffer)[1], "\u{2502}ab \u{2502}");
    assert_eq!(rows(&buffer)[2], "\u{2502}cd \u{2502}");
    assert_eq!(buffer.content[6].fg, Color::Green);
    assert_eq!(buffer.content[8].fg, Color::Green);
    assert_eq!(buffer.content[11].fg, Color::Reset);
}

#[test]
fn empty_list_draws_only_its_block() {
    let area = Rect::new(0, 0, 3, 3);
    let mut buffer = Buffer::empty(area);
    list(vec![]).draw(area, &mut buffer, Some(0));
    assert!(buffer.is_empty());
}

fn three_rows() -> Vec<Row> {
    vec![
        Row::new(vec![text("a1"), text("b1")]),
        Row::new(vec![text("a2"), text("b2")]),
        Row::new(vec![text("a3"), text("b3")]),
    ]
}

#[test]
fn table_columns_widths_follow_the_layout() {
    let widths = [Constraint::Length(3), Constraint::Length(4)];
    let t = table(None, None, &widths, vec![], Some("> "), style()).spacing(1);
    assert_eq!(t.get_columns_widths(20, false), vec![3, 4]);
    assert_eq!(t.get_columns_widths(20, true), vec![3, 4]);
    assert_eq!(t.get_columns_widths(6, false), vec![3, 2]);
    assert_eq!(t.get_columns_widths(6, true), vec![3, 0]);
    let widths = [Constraint::Percentage(50), Constraint::Percentage(50)];
    let t = table(None, None, &widths, vec![], None, style());
    assert_eq!(t.get_columns_widths(11, false), vec![6, 5]);
    let t = table(None, None, &[], vec![], None, style());
    assert_eq!(t.get_columns_widths(11, false), Vec::<u16>::new());
}

#[test]
fn table_row_bounds_keep_the_selection_in_view() {
    let widths = [Constraint::Length(3)];
    let many: Vec<Row> = (0..10).map(|_| Row::new(vec![text("x")])).collect();
    let t = table(None, None, &widths, many, None, style());
    assert_eq!(t.get_row_bounds(None, 4), (0, 4));
    assert_eq!(t.get_row_bounds(Some(1), 4), (0, 4));
    assert_eq!(t.get_row_bounds(Some(2), 4), (1, 5));
    assert_eq!(t.get_row_bounds(Some(9), 4), (6, 10));
    assert_eq!(t.get_row_bounds(Some(99), 4), (6, 10));
    assert_eq!(t.get_row_bounds(Some(5), 5), (3, 8));
    assert_eq!(t.get_row_bounds(Some(5), 20), (0, 10));
    assert_eq!(t.get_row_bounds(Some(5), 0), (0, 0));
    let empty = table(None, None, &widths, vec![], None, style());
    assert_eq!(empty.get_row_bounds(Some(5), 4), (0, 0));
}

#[test]
fn table_row_height_leaves_room_for_the_header() {
    let widths = [Constraint::Length(3)];
    let area = Rect::new(0, 0, 10, 8);
    let plain = table(None, None, &widths, vec![], None, style());
    assert_eq!(plain.get_row_height(area), 8);
    let headed = table(Some(Row::header(vec![text("h")])), None, &widths, vec![], None, style());
    assert_eq!(headed.get_row_height(area), 6);
    assert_eq!(headed.get_row_height(Rect::new(0, 0, 10, 1)), 0);
    let boxed = table(
        Some(Row::header(vec![text("h")])),
        Some(block(None, Borders::from_bits(Borders::ALL), BorderType::Plain)),
        &widths,
        vec![],
        None,
        style(),
    );
    assert_eq!(boxed.get_row_height(area), 4);
    assert_eq!(Row::header(vec![]).total_height(), 2);
    assert_eq!(Row { columns: vec![], height: 65535, bottom_margin: 3 }.total_height(), 65535);
}

#[test]
fn table_draws_rows_in_columns() {
    let area = Rect::new(0, 0, 8, 4);
    let mut buffer = Buffer::empty(area);
    let widths = [Constraint::Length(3), Constraint::Length(3)];
    let t = table(None, None, &widths, three_rows(), None, style()).spacing(1);
    t.draw(area, &mut buffer, None);
    assert_eq!(rows(&buffer), vec!["a1  b1  ", "a2  b2  ", "a3  b3  ", "        "]);
}

#[test]
fn table_draws_the_header_with_a_free_row_below() {
    let area = Rect::new(0, 0, 8, 4);
    let mut buffer = Buffer::empty(area);
    let widths = [Constraint::Length(3), Constraint::Length(3)];
    let header = Row::header(vec![text("A").style(style().bold()), text("B")]);
    let t = table(Some(header), None, &widths, three_rows(), None, style()).spacing(1);
    t.draw(area, &mut buffer, None);
    assert_eq!(rows(&buffer), vec!["A   B   ", "        ", "a1  b1  ", "a2  b2  "]);
    assert_eq!(buffer.content[0].modifier.bits, Modifier::BOLD);
    assert_eq!(buffer.content[2].modifier.bits, Modifier::BOLD);
    assert_eq!(buffer.content[3].modifier.bits, 0);
    assert_eq!(buffer.content[8].modifier.bits, Modifier::BOLD);
}

#[test]
fn table_marks_the_selected_row() {
    let area = Rect::new(0, 0, 8, 2);
    let mut buffer = Buffer::empty(area);
    let widths = [Constraint::Length(2), Constraint::Length(2)];
    let t = table(None, None, &widths, three_rows(), Some("> "), style()).spacing(1);
    t.draw(area, &mut buffer, Some(2));
    assert_eq!(rows(&buffer), vec!["  a2 b2 ", "> a3 b3 "]);
}

#[test]
fn table_draws_a_line_under_the_header() {
    let area = Rect::new(0, 0, 8, 3);
    let mut buffer = Buffer::empty(area);
    let widths = [Constraint::Length(2)];
    let mut t = table(Some(Row::header(vec![text("A")])), None, &widths, vec![], None, style());
    t.separator = true;
    t.draw(area, &mut buffer, None);
    assert_eq!(rows(&buffer), vec!["A       ", "   \u{2500}\u{2500}\u{2500}  ", "        "]);
}

#[test]
fn table_in_an_empty_area_needs_no_valid_columns() {
    let mut buffer = Buffer::empty(Rect::new(0, 0, 4, 2));
    buffer.set_stringn(0, 0, "ab", 4, style());
    let widths = [Constraint::Fill, Constraint::Length(1), Constraint::Fill];
    let header = Row::header(vec![text("h")]);
    let frame = block(Some(Text::new("t")), Borders::from_bits(Borders::ALL), BorderType::Plain);
    let t = table(Some(header), Some(frame), &widths, three_rows(), Some(">"), style());
    t.draw(Rect::new(1, 1, 0, 1), &mut buffer, Some(1));
    t.draw(Rect::new(1, 1, 3, 0), &mut buffer, None);
    assert_eq!(rows(&buffer), vec!["ab  ", "    "]);
    assert_eq!(buffer.area, Rect::new(0, 0, 4, 2));
}

#[test]
fn table_in_an_empty_area_draws_nothing() {
    let mut buffer = Buffer::empty(Rect::new(0, 0, 4, 2));
    let widths = [Constraint::Length(2)];
    let t = table(None, None, &widths, three_rows(), None, style());
    t.draw(Rect::new(0, 0, 0, 2), &mut buffer, None);
    assert!(buffer.is_empty());
}

#[test]
fn list_draws_into_no_cell_outside_its_area() {
    let mut buffer = Buffer::empty(Rect::new(0, 0, 8, 5));
    for y in 0..5 {
        buffer.set_stringn(0, y, "........", 8, style());
    }
    let frame = block(Some(Text::new("a long title")), Borders::from_bits(Borders::ALL), BorderType::Plain);
    let l = list(vec![text("a long line of text"), text("two"), text("three"), text("four")])
        .block(frame)
        .symbol(">>>>")
        .selection_style(fg(Color::Red));
    l.draw(Rect::new(2, 1, 5, 3), &mut buffer, Some(1));
    assert_eq!(
        rows(&buffer),
        vec![
            "........",
            "..\u{250c}a l\u{2510}.",
            "..\u{2502}>>>\u{2502}.",
            "..\u{2514}\u{2500}\u{2500}\u{2500}\u{2518}.",
            "........",
        ]
    );
    for (i, cell) in buffer.content.iter().enumerate() {
        let (x, y) = (i % 8, i / 8);
        if !((2..7).contains(&x) && (1..4).contains(&y)) {
            assert_eq!(cell.fg, Color::Reset);
            assert_eq!(cell.symbol, ".");
        }
    }
}

#[test]
fn a_title_after_a_margin_may_pass_the_right_edge_of_the_block() {
    let mut buffer = Buffer::empty(Rect::new(0, 0, 8, 1));
    block(Some(Text::new("title")), Borders::from_bits(Borders::NONE), BorderType::Plain)
        .margin(2)
        .draw(Rect::new(0, 0, 4, 1), &mut buffer);
    assert_eq!(rows(&buffer), vec!["  titl  "]);
}
