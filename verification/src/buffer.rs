//! The grid of cells that stands for the terminal screen.

use crate::layout::Rect;
use crate::style::{Color, Modifier, Style};
use vstd::prelude::*;
use vstd::std_specs::cmp::PartialEqSpecImpl;
use vstd::string::{StrSliceExecFns, StringExecFns};

verus! {

/// One character position of the terminal: a symbol and its style.
#[derive(Debug, Clone)]
pub struct Cell {
    pub symbol: String,
    pub fg: Color,
    pub bg: Color,
    pub modifier: Modifier,
}

/// What a cell holds, as plain values.
pub struct CellView {
    pub symbol: Seq<char>,
    pub fg: Color,
    pub bg: Color,
    pub modifier: Modifier,
}

impl CellView {
    /// The cell in its first state: a space, default colours, no attribute.
    pub open spec fn blank() -> CellView {
        CellView {
            symbol: seq![' '],
            fg: Color::Reset,
            bg: Color::Reset,
            modifier: Modifier { bits: 0 },
        }
    }

    /// The cell after `style` was applied: both colours are replaced, the
    /// attributes only by a style that has some.
    pub open spec fn styled(self, style: Style) -> CellView {
        CellView {
            symbol: self.symbol,
            fg: style.fg,
            bg: style.bg,
            modifier: if style.modifier.bits == 0 {
                self.modifier
            } else {
                style.modifier
            },
        }
    }
}

impl View for Cell {
    type V = CellView;

    open spec fn view(&self) -> CellView {
        CellView { symbol: self.symbol@, fg: self.fg, bg: self.bg, modifier: self.modifier }
    }
}

impl PartialEq for Cell {
    fn eq(&self, other: &Cell) -> (b: bool) {
        self.symbol == other.symbol && self.fg == other.fg && self.bg == other.bg && self.modifier
            == other.modifier
    }
}

impl PartialEqSpecImpl for Cell {
    open spec fn obeys_eq_spec() -> bool {
        true
    }

    open spec fn eq_spec(&self, other: &Cell) -> bool {
        self@ == other@
    }
}

impl Default for Cell {
    fn default() -> (cell: Cell)
        ensures
            cell@ == CellView::blank(),
    {
        let mut symbol = String::new();
        symbol.push(' ');
        Cell { symbol, fg: Color::Reset, bg: Color::Reset, modifier: Modifier::empty() }
    }
}

impl Cell {
    /// Replaces the symbol. The width of `symbol` is the caller's business.
    pub fn set_symbol(&mut self, symbol: &str) -> (cell: &mut Cell)
        ensures
            cell@ == (CellView { symbol: symbol@, ..old(self)@ }),
            *final(self) == *final(cell),
    {
        self.symbol.clear();
        self.symbol.append(symbol);
        self
    }

    /// Replaces the symbol by the single character `ch`.
    pub fn set_char(&mut self, ch: char) -> (cell: &mut Cell)
        ensures
            cell@ == (CellView { symbol: seq![ch], ..old(self)@ }),
            *final(self) == *final(cell),
    {
        self.symbol.clear();
        self.symbol.push(ch);
        self
    }

    /// Applies `style`: its colours always, its attributes unless it has none.
    pub fn set_style(&mut self, style: Style) -> (cell: &mut Cell)
        ensures
            cell@ == old(self)@.styled(style),
            *final(self) == *final(cell),
    {
        self.fg = style.fg;
        self.bg = style.bg;
        if !style.modifier.is_empty() {
            self.modifier = style.modifier;
        }
        self
    }

    pub fn set_fg(&mut self, color: Color) -> (cell: &mut Cell)
        ensures
            cell@ == (CellView { fg: color, ..old(self)@ }),
            *final(self) == *final(cell),
    {
        self.fg = color;
        self
    }

    pub fn set_bg(&mut self, color: Color) -> (cell: &mut Cell)
        ensures
            cell@ == (CellView { bg: color, ..old(self)@ }),
            *final(self) == *final(cell),
    {
        self.bg = color;
        self
    }

    pub fn set_modifier(&mut self, modifier: Modifier) -> (cell: &mut Cell)
        ensures
            cell@ == (CellView { modifier, ..old(self)@ }),
            *final(self) == *final(cell),
    {
        self.modifier = modifier;
        self
    }

    /// Puts the cell back into its first state.
    pub fn reset(&mut self)
        ensures
            final(self)@ == CellView::blank(),
    {
        self.symbol.clear();
        self.symbol.push(' ');
        self.fg = Color::Reset;
        self.bg = Color::Reset;
        self.modifier = Modifier::empty();
    }
}

/// The coordinates that were asked for, and the area that does not hold them.
#[derive(Debug, Clone, Copy, PartialEq, Eq, Structural)]
pub struct OutOfBounds {
    pub x: u16,
    pub y: u16,
    pub area: Rect,
}

/// The place in a row-major grid over `area` of the cell at column `x`, row `y`.
pub open spec fn index_at(area: Rect, x: int, y: int) -> int {
    (y - area.y) * area.width + (x - area.x)
}

/// Every cell of a rectangle has its place within the rectangle's area, and no
/// two cells share one.
pub proof fn lemma_index_at(area: Rect, x: int, y: int)
    requires
        area.has_cell(x, y),
    ensures
        0 <= index_at(area, x, y) < area.width * area.height,
        forall|x2: int, y2: int|
            area.has_cell(x2, y2) && (x2 != x || y2 != y) ==> #[trigger] index_at(area, x2, y2)
                != index_at(area, x, y),
{
    let w = area.width as int;
    let h = area.height as int;
    let dy = y - area.y;
    let dx = x - area.x;
    assert(0 <= dy * w && dy * w + w <= h * w) by (nonlinear_arith)
        requires
            0 <= dy < h,
            0 <= w,
    ;
    assert(h * w == area.width * area.height) by (nonlinear_arith)
        requires
            w == area.width,
            h == area.height,
    ;
    assert forall|x2: int, y2: int|
        area.has_cell(x2, y2) && (x2 != x || y2 != y) implies #[trigger] index_at(area, x2, y2)
        != index_at(area, x, y) by {
        let dy2 = y2 - area.y;
        let dx2 = x2 - area.x;
        assert(dy2 * w + dx2 != dy * w + dx) by (nonlinear_arith)
            requires
                0 <= dx < w,
                0 <= dx2 < w,
                dx2 != dx || dy2 != dy,
        ;
    }
}

/// How the cells of a region are painted.
#[derive(Debug, Clone, Copy)]
pub enum Brush<'a> {
    /// Apply a style, as `Cell::set_style` does.
    Restyle(Style),
    /// Put the cell back into its first state.
    Blank,
    /// Set a symbol, then apply a style.
    Symbol(&'a str, Style),
    /// Set a space in the given foreground and background; the attributes stay.
    Fill(Color, Color),
}

/// How the cells of a region are painted, as plain values.
pub enum Paint {
    Restyle(Style),
    Blank,
    Symbol(Seq<char>, Style),
    Fill(Color, Color),
}

impl<'a> View for Brush<'a> {
    type V = Paint;

    open spec fn view(&self) -> Paint {
        match *self {
            Brush::Restyle(style) => Paint::Restyle(style),
            Brush::Blank => Paint::Blank,
            Brush::Symbol(symbol, style) => Paint::Symbol(symbol@, style),
            Brush::Fill(fg, bg) => Paint::Fill(fg, bg),
        }
    }
}

/// A cell after it was painted.
pub open spec fn painted(cell: CellView, paint: Paint) -> CellView {
    match paint {
        Paint::Restyle(style) => cell.styled(style),
        Paint::Blank => CellView::blank(),
        Paint::Symbol(symbol, style) => (CellView { symbol, ..cell }).styled(style),
        Paint::Fill(fg, bg) => CellView { symbol: seq![' '], fg, bg, modifier: cell.modifier },
    }
}

/// The column of the cell at place `i` of a row-major grid over `area`.
pub open spec fn column_of(area: Rect, i: int) -> int {
    area.x + i % (area.width as int)
}

/// The row of the cell at place `i` of a row-major grid over `area`.
pub open spec fn row_of(area: Rect, i: int) -> int {
    area.y + i / (area.width as int)
}

/// The cells of a grid over `area` after each one that lies in `rect` was
/// painted.
pub open spec fn paint_spec(cells: Seq<CellView>, area: Rect, rect: Rect, paint: Paint) -> Seq<
    CellView,
> {
    Seq::new(
        cells.len(),
        |i: int|
            if rect.has_cell(column_of(area, i), row_of(area, i)) {
                painted(cells[i], paint)
            } else {
                cells[i]
            },
    )
}

/// Whether the cell at column `x`, row `y` lies in both rectangles.
pub open spec fn in_both(a: Rect, b: Rect, x: int, y: int) -> bool {
    a.has_cell(x, y) && b.has_cell(x, y)
}

/// Whether the cell at place `i` of a grid over `area` lies in `rect`.
pub open spec fn cell_in(area: Rect, rect: Rect, i: int) -> bool {
    rect.has_cell(column_of(area, i), row_of(area, i))
}

/// Painting changes no cell outside the rectangle that is painted.
pub proof fn lemma_paint_within(cells: Seq<CellView>, area: Rect, rect: Rect, paint: Paint, i: int)
    requires
        0 <= i < cells.len(),
        !cell_in(area, rect, i),
    ensures
        paint_spec(cells, area, rect, paint).len() == cells.len(),
        paint_spec(cells, area, rect, paint)[i] == cells[i],
{
}

/// A cell's place gives back the cell's column and row.
pub proof fn lemma_place_of_cell(area: Rect, x: int, y: int)
    requires
        area.has_cell(x, y),
    ensures
        column_of(area, index_at(area, x, y)) == x,
        row_of(area, index_at(area, x, y)) == y,
{
    let w = area.width as int;
    let dy = y - area.y;
    let dx = x - area.x;
    assert(dy * w + dx == index_at(area, x, y));
    vstd::arithmetic::div_mod::lemma_fundamental_div_mod_converse(dy * w + dx, w, dy, dx);
}

/// A place's column and row give back the place.
pub proof fn lemma_cell_of_place(area: Rect, i: int)
    requires
        0 <= i,
        area.width > 0,
    ensures
        index_at(area, column_of(area, i), row_of(area, i)) == i,
{
    let w = area.width as int;
    assert(i == w * (i / w) + i % w) by (nonlinear_arith)
        requires
            w > 0,
    ;
    assert((i / w) * w == w * (i / w)) by (nonlinear_arith);
}

/// A grid of cells over an area, row by row.
#[derive(Debug)]
pub struct Buffer {
    /// The area that the buffer stands for.
    pub area: Rect,
    /// The cells, row-major. There are as many as the area has.
    pub content: Vec<Cell>,
}

impl View for Buffer {
    type V = Seq<CellView>;

    open spec fn view(&self) -> Seq<CellView> {
        Seq::new(self.content@.len(), |i: int| self.content@[i]@)
    }
}

impl Buffer {
    /// The buffer's invariant: one cell for each position of its area.
    pub open spec fn wf(&self) -> bool {
        &&& self.area.fits()
        &&& self.content@.len() == self.area.width * self.area.height
    }

    /// A buffer over `area` whose cells are all blank.
    pub fn empty(area: Rect) -> (buffer: Buffer)
        requires
            area.fits(),
        ensures
            buffer.wf(),
            buffer.area == area,
            buffer@ == Seq::new((area.width * area.height) as nat, |i: int| CellView::blank()),
    {
        let size = area.area() as usize;
        let mut content: Vec<Cell> = Vec::with_capacity(size);
        let mut i: usize = 0;
        while i < size
            invariant
                i <= size,
                content@.len() == i,
                forall|j: int| 0 <= j < i ==> (#[trigger] content@[j])@ == CellView::blank(),
            decreases size - i,
        {
            content.push(Cell::default());
            i += 1;
        }
        Buffer { area, content }
    }

    /// The place in `content` of the cell at column `x`, row `y`, or the error
    /// for coordinates outside the area.
    pub fn index_of(&self, x: u16, y: u16) -> (res: Result<usize, OutOfBounds>)
        requires
            self.area.fits(),
        ensures
            match res {
                Ok(i) => self.area.has_cell(x as int, y as int) && i == index_at(
                    self.area,
                    x as int,
                    y as int,
                ),
                Err(e) => !self.area.has_cell(x as int, y as int) && e == (OutOfBounds {
                    x,
                    y,
                    area: self.area,
                }),
            },
    {
        if !(x >= self.area.left() && x < self.area.right() && y >= self.area.top() && y
            < self.area.bottom()) {
            Err(OutOfBounds { x, y, area: self.area })
        } else {
            proof {
                lemma_index_at(self.area, x as int, y as int);
                assert(0 <= (y - self.area.y) * self.area.width) by (nonlinear_arith)
                    requires
                        0 <= y - self.area.y,
                        0 <= self.area.width,
                ;
            }
            Ok(((y - self.area.y) * self.area.width + (x - self.area.x)) as usize)
        }
    }

    /// The cell at column `x`, row `y`, to be changed in place, or the error for
    /// coordinates outside the area.
    pub fn get_mut(&mut self, x: u16, y: u16) -> (res: Result<&mut Cell, OutOfBounds>)
        requires
            old(self).wf(),
        ensures
            final(self).area == old(self).area,
            match res {
                Ok(cell) => {
                    let i = index_at(old(self).area, x as int, y as int);
                    &&& old(self).area.has_cell(x as int, y as int)
                    &&& *cell == old(self).content@[i]
                    &&& final(self).content@ == old(self).content@.update(i, *final(cell))
                },
                Err(e) => {
                    &&& !old(self).area.has_cell(x as int, y as int)
                    &&& e == (OutOfBounds { x, y, area: old(self).area })
                    &&& final(self).content@ == old(self).content@
                },
            },
    {
        match self.index_of(x, y) {
            Ok(i) => {
                proof {
                    lemma_index_at(self.area, x as int, y as int);
                }
                Ok(&mut self.content[i])
            },
            Err(e) => Err(e),
        }
    }

    /// Paints with `brush` every cell of the buffer that lies in `rect`.
    pub fn paint(&mut self, rect: Rect, brush: Brush)
        requires
            old(self).wf(),
        ensures
            final(self).wf(),
            final(self).area == old(self).area,
            final(self)@ == paint_spec(old(self)@, old(self).area, rect, brush@),
    {
        let ghost area = self.area;
        let ghost before = self@;
        let left = if rect.left() >= self.area.left() {
            rect.left()
        } else {
            self.area.left()
        };
        let top = if rect.top() >= self.area.top() {
            rect.top()
        } else {
            self.area.top()
        };
        let right = if rect.right() <= self.area.right() {
            rect.right()
        } else {
            self.area.right()
        };
        let bottom = if rect.bottom() <= self.area.bottom() {
            rect.bottom()
        } else {
            self.area.bottom()
        };
        assert forall|x: int, y: int| #[trigger] in_both(rect, area, x, y) == (left <= x < right && top <= y < bottom) by {}
        let mut y = top;
        while y < bottom
            invariant
                self.wf(),
                self.area == area,
                before == old(self)@,
                before.len() == self.content@.len(),
                forall|x: int, y: int| #[trigger] in_both(rect, area, x, y) == (left <= x < right && top <= y < bottom),
                y <= bottom || top >= bottom,
                top <= y,
                forall|i: int|
                    0 <= i < before.len() ==> (#[trigger] self.content@[i])@ == if in_both(
                        rect,
                        area,
                        column_of(area, i),
                        row_of(area, i),
                    ) && row_of(area, i) < y {
                        painted(before[i], brush@)
                    } else {
                        before[i]
                    },
            decreases bottom - y,
        {
            let mut x = left;
            while x < right
                invariant
                    self.wf(),
                    self.area == area,
                    before.len() == self.content@.len(),
                    forall|x: int, y: int| #[trigger] in_both(rect, area, x, y) == (left <= x < right && top <= y < bottom),
                    top <= y < bottom,
                    left <= x,
                    x <= right || left >= right,
                    forall|i: int|
                        0 <= i < before.len() ==> (#[trigger] self.content@[i])@ == if in_both(
                            rect,
                            area,
                            column_of(area, i),
                            row_of(area, i),
                        ) && (row_of(area, i) < y || (row_of(area, i) == y && column_of(area, i)
                            < x)) {
                            painted(before[i], brush@)
                        } else {
                            before[i]
                        },
                decreases right - x,
            {
                assert(in_both(rect, area, x as int, y as int));
                let ghost prev = self.content@;
                let ghost here = index_at(area, x as int, y as int);
                proof {
                    lemma_index_at(area, x as int, y as int);
                    lemma_place_of_cell(area, x as int, y as int);
                }
                if let Ok(cell) = self.get_mut(x, y) {
                    match brush {
                        Brush::Restyle(style) => {
                            cell.set_style(style);
                        },
                        Brush::Blank => {
                            cell.reset();
                        },
                        Brush::Symbol(symbol, style) => {
                            cell.set_symbol(symbol).set_style(style);
                        },
                        Brush::Fill(fg, bg) => {
                            cell.set_char(' ').set_fg(fg).set_bg(bg);
                        },
                    }
                }
                proof {
                    assert(self.content@[here]@ == painted(prev[here]@, brush@));
                    assert forall|i: int| 0 <= i < before.len() implies (
                    #[trigger] self.content@[i])@ == if in_both(rect, area, column_of(area, i), row_of(area, i))
                        && (row_of(area, i) < y || (row_of(area, i) == y && column_of(area, i) < x
                        + 1)) {
                        painted(before[i], brush@)
                    } else {
                        before[i]
                    } by {
                        lemma_cell_of_place(area, i);
                        if i != here {
                            assert(self.content@[i] == prev[i]);
                            assert(column_of(area, i) != x || row_of(area, i) != y);
                        }
                    }
                }
                x += 1;
            }
            y += 1;
        }
        assert forall|i: int| 0 <= i < before.len() implies (#[trigger] self@[i]) == paint_spec(
            before,
            area,
            rect,
            brush@,
        )[i] by {
            assert(self@[i] == self.content@[i]@);
            if rect.has_cell(column_of(area, i), row_of(area, i)) {
                crate::diff::lemma_place_in_grid(area.width, area.height, i);
                assert(area.has_cell(column_of(area, i), row_of(area, i)));
            }
        }
        assert(self@ =~= paint_spec(before, area, rect, brush@));
    }

    /// Applies `style` to every cell of the buffer that lies in `rect`, as
    /// `Cell::set_style` does.
    pub fn set_style(&mut self, rect: Rect, style: Style)
        requires
            old(self).wf(),
        ensures
            final(self).wf(),
            final(self).area == old(self).area,
            final(self)@ == paint_spec(old(self)@, old(self).area, rect, Paint::Restyle(style)),
    {
        self.paint(rect, Brush::Restyle(style));
    }

    /// Puts every cell of the buffer that lies in `rect` back into its first state.
    pub fn clear(&mut self, rect: Rect)
        requires
            old(self).wf(),
        ensures
            final(self).wf(),
            final(self).area == old(self).area,
            final(self)@ == paint_spec(old(self)@, old(self).area, rect, Paint::Blank),
    {
        self.paint(rect, Brush::Blank);
    }

    /// Makes the buffer stand for `area`: cells past the new area are dropped,
    /// missing ones are added blank. The cells that stay keep their place in
    /// `content`, not their coordinates.
    pub fn resize(&mut self, area: Rect)
        requires
            area.fits(),
        ensures
            final(self).wf(),
            final(self).area == area,
            final(self).content@.len() == area.width * area.height,
            forall|i: int|
                0 <= i < area.width * area.height ==> (#[trigger] final(self).content@[i])@ == if i
                    < old(self).content@.len() {
                    old(self).content@[i]@
                } else {
                    CellView::blank()
                },
    {
        let length = area.area() as usize;
        let ghost before = self.content@;
        if self.content.len() > length {
            self.content.truncate(length);
        } else {
            while self.content.len() < length
                invariant
                    before.len() <= self.content@.len() <= length,
                    forall|i: int|
                        0 <= i < self.content@.len() ==> (#[trigger] self.content@[i])@ == if i
                            < before.len() {
                            before[i]@
                        } else {
                            CellView::blank()
                        },
                decreases length - self.content.len(),
            {
                self.content.push(Cell::default());
            }
        }
        self.area = area;
    }

    /// Whether every cell shows a single space.
    pub fn is_empty(&self) -> (b: bool)
        ensures
            b == forall|i: int| 0 <= i < self@.len() ==> (#[trigger] self@[i]).symbol == seq![' '],
    {
        let mut i: usize = 0;
        while i < self.content.len()
            invariant
                i <= self.content@.len(),
                forall|j: int| 0 <= j < i ==> (#[trigger] self@[j]).symbol == seq![' '],
            decreases self.content.len() - i,
        {
            let symbol = self.content[i].symbol.as_str();
            if !(symbol.unicode_len() == 1 && symbol.get_char(0) == ' ') {
                assert(self@[i as int].symbol != seq![' ']);
                return false;
            }
            assert(self@[i as int].symbol =~= seq![' ']);
            i += 1;
        }
        true
    }

    /// Puts every cell back into its first state.
    pub fn reset(&mut self)
        ensures
            final(self).area == old(self).area,
            final(self)@ == Seq::new(old(self)@.len(), |i: int| CellView::blank()),
    {
        let mut i: usize = 0;
        while i < self.content.len()
            invariant
                i <= self.content@.len(),
                self.area == old(self).area,
                self.content@.len() == old(self).content@.len(),
                forall|j: int| 0 <= j < i ==> (#[trigger] self.content@[j])@ == CellView::blank(),
            decreases self.content.len() - i,
        {
            self.content[i].reset();
            i += 1;
        }
    }
}

} // verus!
