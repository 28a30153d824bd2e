//! A box with borders and a title, drawn around other widgets.

use crate::buffer::{cell_in, paint_spec, Brush, Buffer, CellView, Paint};
use crate::layout::Rect;
use crate::style::{Color, Modifier, Style};
use crate::text::Text;
use crate::write::{lemma_string_written_within, row_rect, string_written};
use vstd::prelude::*;

verus! {

/// The sides of a block that have a border, one bit each.
#[derive(Debug, Clone, Copy, PartialEq, Eq, Structural)]
pub struct Borders {
    pub bits: u32,
}

impl Borders {
    /// No border.
    pub const NONE: u32 = 0b0_0001;

    pub const TOP: u32 = 0b0_0010;

    pub const RIGHT: u32 = 0b0_0100;

    pub const BOTTOM: u32 = 0b0_1000;

    pub const LEFT: u32 = 0b1_0000;

    /// All four sides.
    pub const ALL: u32 = 0b1_1110;

    /// Whether every side of `mask` has a border.
    pub open spec fn has(self, mask: u32) -> bool {
        self.bits & mask == mask
    }

    /// Whether some side of `mask` has a border.
    pub open spec fn any(self, mask: u32) -> bool {
        self.bits & mask != 0
    }

    /// The borders on the sides of `mask`.
    pub fn from_bits(mask: u32) -> (borders: Borders)
        ensures
            borders.bits == mask,
    {
        Borders { bits: mask }
    }

    pub fn contains(&self, mask: u32) -> (b: bool)
        ensures
            b == self.has(mask),
    {
        self.bits & mask == mask
    }

    pub fn intersects(&self, mask: u32) -> (b: bool)
        ensures
            b == self.any(mask),
    {
        self.bits & mask != 0
    }
}

pub const ALL: u32 = 0b1_1110;

pub const TOP: u32 = 0b0_0010;

pub const RIGHT: u32 = 0b0_0100;

pub const BOTTOM: u32 = 0b0_1000;

pub const LEFT: u32 = 0b1_0000;

pub const NONE: u32 = 0b0_0001;

/// The kind of line that a border is drawn with.
#[derive(Debug, Clone, Copy, PartialEq, Eq, Structural)]
pub enum BorderType {
    Plain,
    Rounded,
    Double,
    Thick,
}

/// The symbols of one kind of line.
#[derive(Debug, Clone, Copy)]
pub struct LineSet {
    pub vertical: &'static str,
    pub horizontal: &'static str,
    pub top_right: &'static str,
    pub top_left: &'static str,
    pub bottom_right: &'static str,
    pub bottom_left: &'static str,
}

/// The symbols of one kind of line, as plain values.
pub struct LineSymbols {
    pub vertical: Seq<char>,
    pub horizontal: Seq<char>,
    pub top_right: Seq<char>,
    pub top_left: Seq<char>,
    pub bottom_right: Seq<char>,
    pub bottom_left: Seq<char>,
}

impl View for LineSet {
    type V = LineSymbols;

    open spec fn view(&self) -> LineSymbols {
        LineSymbols {
            vertical: self.vertical@,
            horizontal: self.horizontal@,
            top_right: self.top_right@,
            top_left: self.top_left@,
            bottom_right: self.bottom_right@,
            bottom_left: self.bottom_left@,
        }
    }
}

impl BorderType {
    /// The box-drawing symbols of this kind of line.
    pub open spec fn symbols(self) -> LineSymbols {
        match self {
            BorderType::Plain => LineSymbols {
                vertical: "\u{2502}"@,
                horizontal: "\u{2500}"@,
                top_right: "\u{2510}"@,
                top_left: "\u{250c}"@,
                bottom_right: "\u{2518}"@,
                bottom_left: "\u{2514}"@,
            },
            BorderType::Rounded => LineSymbols {
                vertical: "\u{2502}"@,
                horizontal: "\u{2500}"@,
                top_right: "\u{256e}"@,
                top_left: "\u{256d}"@,
                bottom_right: "\u{256f}"@,
                bottom_left: "\u{2570}"@,
            },
            BorderType::Double => LineSymbols {
                vertical: "\u{2551}"@,
                horizontal: "\u{2550}"@,
                top_right: "\u{2557}"@,
                top_left: "\u{2554}"@,
                bottom_right: "\u{255d}"@,
                bottom_left: "\u{255a}"@,
            },
            BorderType::Thick => LineSymbols {
                vertical: "\u{2503}"@,
                horizontal: "\u{2501}"@,
                top_right: "\u{2513}"@,
                top_left: "\u{250f}"@,
                bottom_right: "\u{251b}"@,
                bottom_left: "\u{2517}"@,
            },
        }
    }

    /// The box-drawing symbols of this kind of line.
    pub fn line_set(self) -> (set: LineSet)
        ensures
            set@ == self.symbols(),
    {
        match self {
            BorderType::Plain => LineSet {
                vertical: "\u{2502}",
                horizontal: "\u{2500}",
                top_right: "\u{2510}",
                top_left: "\u{250c}",
                bottom_right: "\u{2518}",
                bottom_left: "\u{2514}",
            },
            BorderType::Rounded => LineSet {
                vertical: "\u{2502}",
                horizontal: "\u{2500}",
                top_right: "\u{256e}",
                top_left: "\u{256d}",
                bottom_right: "\u{256f}",
                bottom_left: "\u{2570}",
            },
            BorderType::Double => LineSet {
                vertical: "\u{2551}",
                horizontal: "\u{2550}",
                top_right: "\u{2557}",
                top_left: "\u{2554}",
                bottom_right: "\u{255d}",
                bottom_left: "\u{255a}",
            },
            BorderType::Thick => LineSet {
                vertical: "\u{2503}",
                horizontal: "\u{2501}",
                top_right: "\u{2513}",
                top_left: "\u{250f}",
                bottom_right: "\u{251b}",
                bottom_left: "\u{2517}",
            },
        }
    }
}

/// A box: borders on some sides, and a title on the top row.
#[derive(Debug, Clone)]
pub struct Block {
    pub title: Option<Text>,
    /// The columns left free before the title.
    pub margin: u16,
    pub borders: Borders,
    pub border_type: BorderType,
    pub style: Style,
}

/// A block without margin, in the plain style.
pub fn block(title: Option<Text>, borders: Borders, border_type: BorderType) -> (b: Block)
    ensures
        b.title == title,
        b.margin == 0,
        b.borders == borders,
        b.border_type == border_type,
        b.style == Style::plain(),
{
    Block {
        title,
        margin: 0,
        borders,
        border_type,
        style: Style { fg: Color::Reset, bg: Color::Reset, modifier: Modifier::empty() },
    }
}

impl Block {
    pub fn style(self, style: Style) -> (b: Block)
        ensures
            b == (Block { style, ..self }),
    {
        Block {
            title: self.title,
            margin: self.margin,
            borders: self.borders,
            border_type: self.border_type,
            style,
        }
    }

    pub fn margin(self, title_margin: u16) -> (b: Block)
        ensures
            b == (Block { margin: title_margin, ..self }),
    {
        Block {
            title: self.title,
            margin: title_margin,
            borders: self.borders,
            border_type: self.border_type,
            style: self.style,
        }
    }

    /// The columns that the borders take on the left and on the right.
    pub open spec fn side_columns(&self) -> (int, int) {
        (
            if self.borders.any(Borders::LEFT) {
                1int
            } else {
                0int
            },
            if self.borders.any(Borders::RIGHT) {
                1int
            } else {
                0int
            },
        )
    }

    /// The rows that the borders and the title take at the top and at the bottom.
    pub open spec fn side_rows(&self) -> (int, int) {
        (
            if self.borders.any(Borders::TOP) || self.title is Some {
                1int
            } else {
                0int
            },
            if self.borders.any(Borders::BOTTOM) {
                1int
            } else {
                0int
            },
        )
    }

    /// What is left of `area` inside the borders and below the title. A side
    /// that has no room for its border leaves nothing.
    pub open spec fn inner_spec(&self, area: Rect) -> Rect {
        let (left, right) = self.side_columns();
        let (top, bottom) = self.side_rows();
        Rect {
            x: vstd::math::min(area.x + left, area.right() as int) as u16,
            y: vstd::math::min(area.y + top, area.bottom() as int) as u16,
            width: vstd::math::max(area.width - left - right, 0) as u16,
            height: vstd::math::max(area.height - top - bottom, 0) as u16,
        }
    }

    /// What is left of `area` inside the borders and below the title.
    pub fn inner(&self, area: Rect) -> (inner: Rect)
        ensures
            inner == self.inner_spec(area),
    {
        let mut inner = area;
        if self.borders.intersects(Borders::LEFT) {
            let next = inner.x.saturating_add(1);
            let right = inner.right();
            inner.x = if next <= right {
                next
            } else {
                right
            };
            inner.width = inner.width.saturating_sub(1);
        }
        if self.borders.intersects(Borders::TOP) || self.title.is_some() {
            let next = inner.y.saturating_add(1);
            let bottom = inner.bottom();
            inner.y = if next <= bottom {
                next
            } else {
                bottom
            };
            inner.height = inner.height.saturating_sub(1);
        }
        if self.borders.intersects(Borders::RIGHT) {
            inner.width = inner.width.saturating_sub(1);
        }
        if self.borders.intersects(Borders::BOTTOM) {
            inner.height = inner.height.saturating_sub(1);
        }
        inner
    }
}

/// The cells of a grid after the cells of `rect` got `symbol` in `style`, where
/// that is `wanted`.
pub open spec fn stroke_spec(
    cells: Seq<CellView>,
    grid: Rect,
    wanted: bool,
    rect: Rect,
    symbol: Seq<char>,
    style: Style,
) -> Seq<CellView> {
    if wanted {
        paint_spec(cells, grid, rect, Paint::Symbol(symbol, style))
    } else {
        cells
    }
}

/// The single cell at column `x`, row `y`.
pub open spec fn cell_rect(x: int, y: int) -> Rect {
    Rect { x: x as u16, y: y as u16, width: 1, height: 1 }
}

/// Gives the cells of `rect` the `symbol` in `style`, where that is `wanted`.
fn stroke(buf: &mut Buffer, wanted: bool, rect: Rect, symbol: &str, style: Style)
    requires
        old(buf).wf(),
    ensures
        final(buf).wf(),
        final(buf).area == old(buf).area,
        final(buf)@ == stroke_spec(old(buf)@, old(buf).area, wanted, rect, symbol@, style),
{
    if wanted {
        buf.paint(rect, Brush::Symbol(symbol, style));
    }
}

impl Block {
    /// The cells of a grid after the borders were drawn along the edges of
    /// `area`: first the four sides, then the four corners where two borders
    /// meet.
    pub open spec fn bordered(&self, cells: Seq<CellView>, grid: Rect, area: Rect) -> Seq<CellView> {
        let s = self.border_type.symbols();
        let b = self.borders;
        let left = area.x as int;
        let top = area.y as int;
        let right = area.right() - 1;
        let bottom = area.bottom() - 1;
        let c = stroke_spec(
            cells,
            grid,
            b.any(Borders::LEFT),
            Rect { x: area.x, y: area.y, width: 1, height: area.height },
            s.vertical,
            self.style,
        );
        let c = stroke_spec(
            c,
            grid,
            b.any(Borders::TOP),
            Rect { x: area.x, y: area.y, width: area.width, height: 1 },
            s.horizontal,
            self.style,
        );
        let c = stroke_spec(
            c,
            grid,
            b.any(Borders::RIGHT),
            Rect { x: right as u16, y: area.y, width: 1, height: area.height },
            s.vertical,
            self.style,
        );
        let c = stroke_spec(
            c,
            grid,
            b.any(Borders::BOTTOM),
            Rect { x: area.x, y: bottom as u16, width: area.width, height: 1 },
            s.horizontal,
            self.style,
        );
        let c = stroke_spec(
            c,
            grid,
            b.has(Borders::RIGHT | Borders::BOTTOM),
            cell_rect(right, bottom),
            s.bottom_right,
            self.style,
        );
        let c = stroke_spec(
            c,
            grid,
            b.has(Borders::RIGHT | Borders::TOP),
            cell_rect(right, top),
            s.top_right,
            self.style,
        );
        let c = stroke_spec(
            c,
            grid,
            b.has(Borders::LEFT | Borders::BOTTOM),
            cell_rect(left, bottom),
            s.bottom_left,
            self.style,
        );
        stroke_spec(
            c,
            grid,
            b.has(Borders::LEFT | Borders::TOP),
            cell_rect(left, top),
            s.top_left,
            self.style,
        )
    }

    /// The column at which the title starts: after the left border, if there
    /// is one, and after the margin.
    pub open spec fn title_column(&self, area: Rect) -> int {
        area.x + self.side_columns().0 + self.margin
    }

    /// The columns that the title may take: the width of `area` less its
    /// left and right borders.
    pub open spec fn title_width(&self, area: Rect) -> int {
        vstd::math::max(area.width - self.side_columns().0 - self.side_columns().1, 0)
    }

    /// The cells of a grid after the block was drawn into `area`: nothing where
    /// `area` has no cell; else the borders, and over them the title on the top
    /// row. What lies outside the grid is not drawn.
    pub open spec fn drawn(&self, cells: Seq<CellView>, grid: Rect, area: Rect) -> Seq<CellView> {
        if !area.has_cell(area.x as int, area.y as int) {
            cells
        } else {
            let bordered = self.bordered(cells, grid, area);
            match self.title {
                Some(title) if self.title_column(area) <= u16::MAX => string_written(
                    bordered,
                    grid,
                    self.title_column(area) as u16,
                    area.y,
                    title.inner@,
                    self.title_width(area) as usize,
                    title.style,
                ).0,
                _ => bordered,
            }
        }
    }

    /// Draws the borders along the edges of `area`, and the title over the top row.
    pub fn draw(&self, area: Rect, buf: &mut Buffer)
        requires
            old(buf).wf(),
        ensures
            final(buf).wf(),
            final(buf).area == old(buf).area,
            final(buf)@ == self.drawn(old(buf)@, old(buf).area, area),
    {
        if area.left() >= area.right() || area.top() >= area.bottom() {
            return ;
        }
        let symbols = self.border_type.line_set();
        let left = area.left();
        let top = area.top();
        let right = area.right() - 1;
        let bottom = area.bottom() - 1;

        stroke(
            buf,
            self.borders.intersects(Borders::LEFT),
            Rect { x: left, y: top, width: 1, height: area.height },
            symbols.vertical,
            self.style,
        );
        stroke(
            buf,
            self.borders.intersects(Borders::TOP),
            Rect { x: left, y: top, width: area.width, height: 1 },
            symbols.horizontal,
            self.style,
        );
        stroke(
            buf,
            self.borders.intersects(Borders::RIGHT),
            Rect { x: right, y: top, width: 1, height: area.height },
            symbols.vertical,
            self.style,
        );
        stroke(
            buf,
            self.borders.intersects(Borders::BOTTOM),
            Rect { x: left, y: bottom, width: area.width, height: 1 },
            symbols.horizontal,
            self.style,
        );

        stroke(
            buf,
            self.borders.contains(Borders::RIGHT | Borders::BOTTOM),
            Rect { x: right, y: bottom, width: 1, height: 1 },
            symbols.bottom_right,
            self.style,
        );
        stroke(
            buf,
            self.borders.contains(Borders::RIGHT | Borders::TOP),
            Rect { x: right, y: top, width: 1, height: 1 },
            symbols.top_right,
            self.style,
        );
        stroke(
            buf,
            self.borders.contains(Borders::LEFT | Borders::BOTTOM),
            Rect { x: left, y: bottom, width: 1, height: 1 },
            symbols.bottom_left,
            self.style,
        );
        stroke(
            buf,
            self.borders.contains(Borders::LEFT | Borders::TOP),
            Rect { x: left, y: top, width: 1, height: 1 },
            symbols.top_left,
            self.style,
        );
        assert(buf@ == self.bordered(old(buf)@, old(buf).area, area));

        if let Some(title) = &self.title {
            let left_border: u16 = if self.borders.intersects(Borders::LEFT) {
                1
            } else {
                0
            };
            let right_border: u16 = if self.borders.intersects(Borders::RIGHT) {
                1
            } else {
                0
            };
            let title_width = area.width.saturating_sub(left_border).saturating_sub(right_border);
            let title_x = left as u32 + left_border as u32 + self.margin as u32;
            if title_x <= u16::MAX as u32 {
                buf.set_stringn(
                    title_x as u16,
                    top,
                    title.inner.as_str(),
                    title_width as usize,
                    title.style,
                );
            }
        }
    }
}

/// What a block leaves of an area lies in the area.
pub proof fn lemma_inner_within(block: Block, area: Rect, x: int, y: int)
    requires
        block.inner_spec(area).has_cell(x, y),
    ensures
        area.has_cell(x, y),
        area.in_range() ==> block.inner_spec(area).in_range(),
{
}

/// A block whose title starts at its left edge draws into no cell outside
/// its area. With a margin before the title, the title may pass the right
/// edge of the area.
pub proof fn law_block_draws_within(
    block: Block,
    cells: Seq<CellView>,
    grid: Rect,
    area: Rect,
    i: int,
)
    requires
        cells.len() == grid.width * grid.height,
        0 <= i < cells.len(),
        !cell_in(grid, area, i),
        block.title is Some ==> block.margin == 0,
    ensures
        block.drawn(cells, grid, area).len() == cells.len(),
        block.drawn(cells, grid, area)[i] == cells[i],
{
    if area.has_cell(area.x as int, area.y as int) {
        let bordered = block.bordered(cells, grid, area);
        assert(bordered.len() == cells.len());
        assert(bordered[i] == cells[i]);
        if let Some(title) = block.title {
            if block.title_column(area) <= u16::MAX {
                let x = block.title_column(area) as u16;
                let width = block.title_width(area) as u16;
                lemma_string_written_within(
                    bordered,
                    grid,
                    x,
                    area.y,
                    title.inner@,
                    width,
                    title.style,
                );
                assert(!cell_in(grid, row_rect(x, area.y, width), i));
            }
        }
    }
}

} // verus!
