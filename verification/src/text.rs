//! Styled text: a span of text in one style, and a line made of spans.

use crate::block::Block;
use crate::buffer::{Buffer, CellView};
use crate::layout::{Alignment, Rect};
use crate::write::{line_overflow, lines_written, spans_width};
use crate::style::{Color, Modifier, Style};
use crate::trusted::{display_width, str_width};
use vstd::prelude::*;

verus! {

/// A span of text in one style.
#[derive(Debug, Clone)]
pub struct Text {
    pub inner: String,
    pub style: Style,
}

impl Default for Text {
    fn default() -> (text: Text)
        ensures
            text.inner@ == Seq::<char>::empty(),
            text.style == Style::plain(),
    {
        Text { inner: String::new(), style: style_plain() }
    }
}

fn style_plain() -> (s: Style)
    ensures
        s == Style::plain(),
{
    Style { fg: Color::Reset, bg: Color::Reset, modifier: Modifier::empty() }
}

impl Text {
    /// The text `inner` in the plain style.
    pub fn new(inner: &str) -> (text: Text)
        ensures
            text.inner@ == inner@,
            text.style == Style::plain(),
    {
        Text { inner: inner.to_owned(), style: style_plain() }
    }

    /// The columns that the text takes on the screen.
    pub fn width(&self) -> (w: usize)
        ensures
            w == display_width(self.inner@),
    {
        str_width(self.inner.as_str())
    }

    /// A line of this one span, in the span's style.
    pub fn into_lines(self) -> (line: Line)
        ensures
            line.lines@ == seq![self],
            line.block is None,
            line.style == Some(self.style),
            line.alignment == Alignment::Left,
            !line.scroll,
    {
        let style = self.style;
        let mut lines: Vec<Text> = Vec::with_capacity(1);
        lines.push(self);
        Line { lines, block: None, style: Some(style), alignment: Alignment::Left, scroll: false }
    }
}

/// A row of spans, drawn one after the other on a single row of the screen.
#[derive(Debug, Clone)]
pub struct Line {
    pub lines: Vec<Text>,
    pub block: Option<Block>,
    /// A style for the whole line; with it, the spans' own styles are not used.
    pub style: Option<Style>,
    pub alignment: Alignment,
    /// Whether a line that is too long is cut at its start rather than at its end.
    pub scroll: bool,
}

impl Default for Line {
    fn default() -> (line: Line)
        ensures
            line.lines@ == Seq::<Text>::empty(),
            line.block is None,
            line.style is None,
            line.alignment == Alignment::Left,
            !line.scroll,
    {
        Line {
            lines: Vec::new(),
            block: None,
            style: None,
            alignment: Alignment::Left,
            scroll: false,
        }
    }
}

impl Line {
    /// A line of the given spans, each in its own style.
    pub fn new(lines: Vec<Text>) -> (line: Line)
        ensures
            line.lines == lines,
            line.block is None,
            line.style is None,
            line.alignment == Alignment::Left,
            !line.scroll,
    {
        Line { lines, block: None, style: None, alignment: Alignment::Left, scroll: false }
    }

    pub fn block(self, block: Block) -> (line: Line)
        ensures
            line == (Line { block: Some(block), ..self }),
    {
        Line {
            lines: self.lines,
            block: Some(block),
            style: self.style,
            alignment: self.alignment,
            scroll: self.scroll,
        }
    }

    pub fn style(self, style: Style) -> (line: Line)
        ensures
            line == (Line { style: Some(style), ..self }),
    {
        Line {
            lines: self.lines,
            block: self.block,
            style: Some(style),
            alignment: self.alignment,
            scroll: self.scroll,
        }
    }

    pub fn align(self, alignment: Alignment) -> (line: Line)
        ensures
            line == (Line { alignment, ..self }),
    {
        Line {
            lines: self.lines,
            block: self.block,
            style: self.style,
            alignment,
            scroll: self.scroll,
        }
    }

    pub fn scroll(self) -> (line: Line)
        ensures
            line == (Line { scroll: true, ..self }),
    {
        Line {
            lines: self.lines,
            block: self.block,
            style: self.style,
            alignment: self.alignment,
            scroll: true,
        }
    }

    /// The number of spans.
    pub fn height(&self) -> (n: usize)
        ensures
            n == self.lines@.len(),
    {
        self.lines.len()
    }
}

impl Line {
    /// The columns that the spans take together, as the sixteen bits that the
    /// alignment is computed with.
    pub open spec fn short_width(&self) -> int {
        vstd::math::min(spans_width(self.lines@, self.lines@.len() as int), usize::MAX as int)
            % 0x10000
    }

    /// The column at which the line starts in `area`: at its left edge, or moved
    /// right by the columns that the text leaves free, by half of them to centre it.
    pub open spec fn start_column(&self, area: Rect) -> int {
        let free = vstd::math::max(area.width - self.short_width(), 0);
        area.x + match self.alignment {
            Alignment::Center => free / 2,
            Alignment::Right => free,
            Alignment::Left => 0,
        }
    }

    /// The cells of a grid after the line was drawn into `area`: its block, if
    /// it has one, and the spans on the first row inside the block.
    pub open spec fn drawn(&self, cells: Seq<CellView>, grid: Rect, area: Rect) -> Seq<CellView> {
        let (cells, area) = match self.block {
            Some(block) => (block.drawn(cells, grid, area), block.inner_spec(area)),
            None => (cells, area),
        };
        let x = self.start_column(area);
        if x > u16::MAX {
            cells
        } else {
            lines_written(
                cells,
                grid,
                x,
                area.y,
                self.lines@,
                self.style,
                area.width as int,
                self.scroll,
                line_overflow(self.lines@, area.width),
                0,
            ).0
        }
    }

    /// Draws the line into `area`: its block, if it has one, and the spans on
    /// the first row inside the block, aligned.
    pub fn draw(&self, area: Rect, buf: &mut Buffer)
        requires
            old(buf).wf(),
        ensures
            final(buf).wf(),
            final(buf).area == old(buf).area,
            final(buf)@ == self.drawn(old(buf)@, old(buf).area, area),
    {
        let area = if let Some(block) = &self.block {
            block.draw(area, buf);
            block.inner(area)
        } else {
            area
        };
        let text_width = (self.width() % 0x10000) as u16;
        let alignment = match self.alignment {
            Alignment::Center => area.width.saturating_sub(text_width) / 2,
            Alignment::Right => area.width.saturating_sub(text_width),
            Alignment::Left => 0,
        };
        let x = area.x as u32 + alignment as u32;
        if x <= u16::MAX as u32 {
            buf.set_lines(x as u16, area.y, self, area.width, self.scroll);
        }
    }
}

/// What can be turned into a span of text in some style: a span, whose style
/// is kept and added to, or plain text.
pub trait Stylize: Sized {
    /// The text.
    spec fn text(&self) -> Seq<char>;

    /// The style that it has before any is asked for.
    spec fn base(&self) -> Style;

    fn bold(self) -> (t: Text)
        ensures
            t.inner@ == self.text(),
            t.style == self.base().with(Modifier::BOLD),
    ;

    fn dim(self) -> (t: Text)
        ensures
            t.inner@ == self.text(),
            t.style == self.base().with(Modifier::DIM),
    ;

    fn italic(self) -> (t: Text)
        ensures
            t.inner@ == self.text(),
            t.style == self.base().with(Modifier::ITALIC),
    ;

    fn underlined(self) -> (t: Text)
        ensures
            t.inner@ == self.text(),
            t.style == self.base().with(Modifier::UNDERLINED),
    ;

    fn fast_blink(self) -> (t: Text)
        ensures
            t.inner@ == self.text(),
            t.style == self.base().with(Modifier::FAST_BLINK),
    ;

    fn slow_blink(self) -> (t: Text)
        ensures
            t.inner@ == self.text(),
            t.style == self.base().with(Modifier::SLOW_BLINK),
    ;

    fn invert(self) -> (t: Text)
        ensures
            t.inner@ == self.text(),
            t.style == self.base().with(Modifier::INVERT),
    ;

    fn hidden(self) -> (t: Text)
        ensures
            t.inner@ == self.text(),
            t.style == self.base().with(Modifier::HIDDEN),
    ;

    fn crossed_out(self) -> (t: Text)
        ensures
            t.inner@ == self.text(),
            t.style == self.base().with(Modifier::CROSSED_OUT),
    ;

    fn fg(self, color: Color) -> (t: Text)
        ensures
            t.inner@ == self.text(),
            t.style == (Style { fg: color, ..self.base() }),
    ;

    fn bg(self, color: Color) -> (t: Text)
        ensures
            t.inner@ == self.text(),
            t.style == (Style { bg: color, ..self.base() }),
    ;

    fn style(self, new_style: Style) -> (t: Text)
        ensures
            t.inner@ == self.text(),
            t.style == new_style,
    ;
}

impl Stylize for Text {
    open spec fn text(&self) -> Seq<char> {
        self.inner@
    }

    open spec fn base(&self) -> Style {
        self.style
    }

    fn bold(self) -> (t: Text) {
        Text { inner: self.inner, style: self.style.with(Modifier::BOLD) }
    }

    fn dim(self) -> (t: Text) {
        Text { inner: self.inner, style: self.style.with(Modifier::DIM) }
    }

    fn italic(self) -> (t: Text) {
        Text { inner: self.inner, style: self.style.with(Modifier::ITALIC) }
    }

    fn underlined(self) -> (t: Text) {
        Text { inner: self.inner, style: self.style.with(Modifier::UNDERLINED) }
    }

    fn fast_blink(self) -> (t: Text) {
        Text { inner: self.inner, style: self.style.with(Modifier::FAST_BLINK) }
    }

    fn slow_blink(self) -> (t: Text) {
        Text { inner: self.inner, style: self.style.with(Modifier::SLOW_BLINK) }
    }

    fn invert(self) -> (t: Text) {
        Text { inner: self.inner, style: self.style.with(Modifier::INVERT) }
    }

    fn hidden(self) -> (t: Text) {
        Text { inner: self.inner, style: self.style.with(Modifier::HIDDEN) }
    }

    fn crossed_out(self) -> (t: Text) {
        Text { inner: self.inner, style: self.style.with(Modifier::CROSSED_OUT) }
    }

    fn fg(self, color: Color) -> (t: Text) {
        Text { inner: self.inner, style: Style { fg: color, bg: self.style.bg, modifier: self.style.modifier } }
    }

    fn bg(self, color: Color) -> (t: Text) {
        Text { inner: self.inner, style: Style { fg: self.style.fg, bg: color, modifier: self.style.modifier } }
    }

    fn style(self, new_style: Style) -> (t: Text) {
        Text { inner: self.inner, style: new_style }
    }
}

impl Stylize for String {
    open spec fn text(&self) -> Seq<char> {
        self@
    }

    open spec fn base(&self) -> Style {
        Style::plain()
    }

    fn bold(self) -> (t: Text) {
        Text { inner: self, style: style_plain().with(Modifier::BOLD) }
    }

    fn dim(self) -> (t: Text) {
        Text { inner: self, style: style_plain().with(Modifier::DIM) }
    }

    fn italic(self) -> (t: Text) {
        Text { inner: self, style: style_plain().with(Modifier::ITALIC) }
    }

    fn underlined(self) -> (t: Text) {
        Text { inner: self, style: style_plain().with(Modifier::UNDERLINED) }
    }

    fn fast_blink(self) -> (t: Text) {
        Text { inner: self, style: style_plain().with(Modifier::FAST_BLINK) }
    }

    fn slow_blink(self) -> (t: Text) {
        Text { inner: self, style: style_plain().with(Modifier::SLOW_BLINK) }
    }

    fn invert(self) -> (t: Text) {
        Text { inner: self, style: style_plain().with(Modifier::INVERT) }
    }

    fn hidden(self) -> (t: Text) {
        Text { inner: self, style: style_plain().with(Modifier::HIDDEN) }
    }

    fn crossed_out(self) -> (t: Text) {
        Text { inner: self, style: style_plain().with(Modifier::CROSSED_OUT) }
    }

    fn fg(self, color: Color) -> (t: Text) {
        Text { inner: self, style: Style { fg: color, bg: Color::Reset, modifier: Modifier::empty() } }
    }

    fn bg(self, color: Color) -> (t: Text) {
        Text { inner: self, style: Style { fg: Color::Reset, bg: color, modifier: Modifier::empty() } }
    }

    fn style(self, new_style: Style) -> (t: Text) {
        Text { inner: self, style: new_style }
    }
}

impl<'a> Stylize for &'a str {
    open spec fn text(&self) -> Seq<char> {
        self@
    }

    open spec fn base(&self) -> Style {
        Style::plain()
    }

    fn bold(self) -> (t: Text) {
        Text { inner: self.to_owned(), style: style_plain().with(Modifier::BOLD) }
    }

    fn dim(self) -> (t: Text) {
        Text { inner: self.to_owned(), style: style_plain().with(Modifier::DIM) }
    }

    fn italic(self) -> (t: Text) {
        Text { inner: self.to_owned(), style: style_plain().with(Modifier::ITALIC) }
    }

    fn underlined(self) -> (t: Text) {
        Text { inner: self.to_owned(), style: style_plain().with(Modifier::UNDERLINED) }
    }

    fn fast_blink(self) -> (t: Text) {
        Text { inner: self.to_owned(), style: style_plain().with(Modifier::FAST_BLINK) }
    }

    fn slow_blink(self) -> (t: Text) {
        Text { inner: self.to_owned(), style: style_plain().with(Modifier::SLOW_BLINK) }
    }

    fn invert(self) -> (t: Text) {
        Text { inner: self.to_owned(), style: style_plain().with(Modifier::INVERT) }
    }

    fn hidden(self) -> (t: Text) {
        Text { inner: self.to_owned(), style: style_plain().with(Modifier::HIDDEN) }
    }

    fn crossed_out(self) -> (t: Text) {
        Text { inner: self.to_owned(), style: style_plain().with(Modifier::CROSSED_OUT) }
    }

    fn fg(self, color: Color) -> (t: Text) {
        Text { inner: self.to_owned(), style: Style { fg: color, bg: Color::Reset, modifier: Modifier::empty() } }
    }

    fn bg(self, color: Color) -> (t: Text) {
        Text { inner: self.to_owned(), style: Style { fg: Color::Reset, bg: color, modifier: Modifier::empty() } }
    }

    fn style(self, new_style: Style) -> (t: Text) {
        Text { inner: self.to_owned(), style: new_style }
    }
}

} // verus!
