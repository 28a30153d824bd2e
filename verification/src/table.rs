//! A table: rows of columns under an optional header.

use crate::block::Block;
use crate::buffer::{paint_spec, Buffer, CellView, Paint};
use crate::layout::{
    fill_count, fill_first, fill_last, layout, layout_spec, lemma_cursor_in_area, Constraint,
    Direction, Rect,
};
use crate::list::{blank_text, spaces};
use crate::style::{Color, Modifier, Style};
use crate::text::Line;
use crate::write::{line_overflow, lines_written, string_written};
use vstd::prelude::*;
use vstd::string::StringSliceAdditionalSpecFns;

verus! {

/// A row of a table: one line to a column.
#[derive(Debug, Clone)]
pub struct Row {
    pub columns: Vec<Line>,
    pub height: u16,
    /// The rows of the screen left free below.
    pub bottom_margin: u16,
}

impl Row {
    /// A row one high, without margin.
    pub fn new(columns: Vec<Line>) -> (row: Row)
        ensures
            row.columns == columns,
            row.height == 1,
            row.bottom_margin == 0,
    {
        Row { columns, height: 1, bottom_margin: 0 }
    }

    /// A header row: one high, with one row free below.
    pub fn header(columns: Vec<Line>) -> (row: Row)
        ensures
            row.columns == columns,
            row.height == 1,
            row.bottom_margin == 1,
    {
        Row { columns, height: 1, bottom_margin: 1 }
    }

    pub open spec fn spec_total_height(&self) -> u16 {
        if self.height + self.bottom_margin > u16::MAX {
            u16::MAX
        } else {
            (self.height + self.bottom_margin) as u16
        }
    }

    /// The rows of the screen that the row takes, margin included, held at the
    /// largest number.
    #[verifier::when_used_as_spec(spec_total_height)]
    pub fn total_height(&self) -> (h: u16)
        ensures
            h == self.spec_total_height(),
    {
        self.height.saturating_add(self.bottom_margin)
    }
}

/// A table. A selected row gets the highlight symbol before it.
#[derive(Debug, Clone)]
pub struct Table<'a> {
    pub header: Option<Row>,
    pub block: Option<Block>,
    /// A constraint for the width of each column.
    pub widths: &'a [Constraint],
    pub rows: Vec<Row>,
    pub highlight_symbol: Option<&'a str>,
    pub highlight_style: Style,
    /// Whether a line is drawn under the header.
    pub separator: bool,
    /// The columns of the screen left free between two columns of the table.
    pub column_spacing: u16,
}

/// A table without separator and without spacing.
pub fn table<'a>(
    header: Option<Row>,
    block: Option<Block>,
    widths: &'a [Constraint],
    rows: Vec<Row>,
    highlight_symbol: Option<&'a str>,
    highlight_style: Style,
) -> (t: Table<'a>)
    ensures
        t.header == header,
        t.block == block,
        t.widths == widths,
        t.rows == rows,
        t.highlight_symbol == highlight_symbol,
        t.highlight_style == highlight_style,
        !t.separator,
        t.column_spacing == 0,
{
    Table {
        header,
        block,
        widths,
        rows,
        highlight_symbol,
        highlight_style,
        separator: false,
        column_spacing: 0,
    }
}

/// The height of the rows from the `k`-th on that fit under `limit` together
/// with the `height` that is taken already, and the row at which that ends.
pub open spec fn rows_fitting(rows: Seq<Row>, limit: int, k: int, height: int) -> (int, int)
    decreases rows.len() - k,
{
    if k < 0 || k >= rows.len() || height + rows[k].height > limit {
        (height, k)
    } else {
        rows_fitting(rows, limit, k + 1, height + rows[k].height)
    }
}

/// The rows `[start, end)` of which a table shows as many as fit on `limit`
/// rows of the screen when row `selection` is selected, with the selected row
/// in the middle where the ends of the table allow it.
pub open spec fn row_bounds(rows: Seq<Row>, selection: int, limit: int) -> (int, int) {
    let len = rows.len() as int;
    let (height, real_end) = rows_fitting(rows, limit, 0, 0);
    let selection = vstd::math::min(selection, vstd::math::max(len - 1, 0));
    if len <= height {
        (vstd::math::max(len - height, 0), len)
    } else if height > 0 {
        let half = (height - 1) / 2;
        let (start, end) = if selection <= half {
            (0int, real_end)
        } else if height % 2 == 0 {
            (selection - half, selection + 2 + half)
        } else {
            (selection - half, selection + 1 + half)
        };
        if end > len {
            (len - height, len)
        } else {
            (start, end)
        }
    } else {
        (0, 0)
    }
}

/// The sum of the first `n` widths.
pub open spec fn widths_sum(widths: Seq<u16>, n: int) -> int
    decreases n,
{
    if n <= 0 {
        0
    } else {
        widths_sum(widths, n - 1) + widths[n - 1]
    }
}

/// The height of the first `k` rows from `start` on, margins included.
pub open spec fn rows_height(rows: Seq<Row>, start: int, k: int) -> int
    decreases k,
{
    if k <= 0 {
        0
    } else {
        rows_height(rows, start, k - 1) + rows[start + k - 1].total_height()
    }
}

/// The cells of a grid after the columns from the `k`-th on were drawn on row
/// `y` from column `x`, each as wide as `widths` says and `spacing` columns
/// after the one before: first the column's style, if it has one, over
/// `height` rows, then its line. A column that starts past the last column
/// that there is ends the drawing.
pub open spec fn columns_drawn(
    cells: Seq<CellView>,
    grid: Rect,
    x: int,
    y: u16,
    widths: Seq<u16>,
    columns: Seq<Line>,
    height: u16,
    spacing: u16,
    k: int,
) -> Seq<CellView>
    decreases widths.len() - k,
{
    if k < 0 || k >= widths.len() || k >= columns.len() || x > u16::MAX {
        cells
    } else {
        let column = columns[k];
        let width = widths[k];
        let styled = match column.style {
            Some(style) => paint_spec(
                cells,
                grid,
                Rect { x: x as u16, y, width, height },
                Paint::Restyle(style),
            ),
            None => cells,
        };
        let written = lines_written(
            styled,
            grid,
            x,
            y,
            column.lines@,
            column.style,
            width as int,
            false,
            line_overflow(column.lines@, width),
            0,
        ).0;
        columns_drawn(written, grid, x + width + spacing, y, widths, columns, height, spacing, k + 1)
    }
}

/// Draws the columns on row `y` from column `x`.
fn draw_columns(
    buf: &mut Buffer,
    x: u32,
    y: u16,
    widths: &Vec<u16>,
    columns: &Vec<Line>,
    height: u16,
    spacing: u16,
)
    requires
        old(buf).wf(),
        x <= 2 * 0xffff,
    ensures
        final(buf).wf(),
        final(buf).area == old(buf).area,
        final(buf)@ == columns_drawn(
            old(buf)@,
            old(buf).area,
            x as int,
            y,
            widths@,
            columns@,
            height,
            spacing,
            0,
        ),
{
    let ghost grid = buf.area;
    let ghost start = x;
    let mut x = x;
    let mut k: usize = 0;
    while k < widths.len() && k < columns.len()
        invariant_except_break
            k <= widths@.len(),
            columns_drawn(buf@, grid, x as int, y, widths@, columns@, height, spacing, k as int)
                == columns_drawn(
                old(buf)@,
                grid,
                start as int,
                y,
                widths@,
                columns@,
                height,
                spacing,
                0,
            ),
        invariant
            buf.wf(),
            buf.area == grid,
            x <= 3 * 0xffff,
        ensures
            buf@ == columns_drawn(
                old(buf)@,
                grid,
                start as int,
                y,
                widths@,
                columns@,
                height,
                spacing,
                0,
            ),
        decreases widths.len() - k,
    {
        if x > u16::MAX as u32 {
            break ;
        }
        let column = &columns[k];
        let width = widths[k];
        if let Some(style) = column.style {
            buf.set_style(Rect { x: x as u16, y, width, height }, style);
        }
        buf.set_lines(x as u16, y, column, width, false);
        x = x + width as u32 + spacing as u32;
        k += 1;
    }
}

impl<'a> Table<'a> {
    pub fn spacing(self, spacing: u16) -> (t: Table<'a>)
        ensures
            t == (Table { column_spacing: spacing, ..self }),
    {
        Table {
            header: self.header,
            block: self.block,
            widths: self.widths,
            rows: self.rows,
            highlight_symbol: self.highlight_symbol,
            highlight_style: self.highlight_style,
            separator: self.separator,
            column_spacing: spacing,
        }
    }

    /// The highlight symbol, or no text.
    pub open spec fn symbol(&self) -> &str {
        match self.highlight_symbol {
            Some(symbol) => symbol,
            None => "",
        }
    }

    /// The bytes of the highlight symbol, as the sixteen bits that the columns
    /// are laid out with.
    pub open spec fn symbol_length(&self) -> u16 {
        (self.symbol().spec_bytes().len() as usize % 0x10000) as u16
    }

    /// The text that stands before a row: the highlight symbol before the
    /// selected row, as many spaces as the symbol has bytes before the others.
    pub open spec fn marker(&self, selected: bool) -> Seq<char> {
        if selected {
            self.symbol()@
        } else {
            spaces(self.symbol().spec_bytes().len() as usize as nat)
        }
    }

    /// The constraints that the columns are laid out with: where a row can be
    /// selected, first the length of the highlight symbol; then the constraint
    /// of each column, with the spacing between two of them.
    pub open spec fn column_constraints(&self, has_selection: bool) -> Seq<Constraint> {
        let between = Seq::new(
            if self.widths@.len() == 0 {
                0nat
            } else {
                (2 * self.widths@.len() - 1) as nat
            },
            |i: int|
                if i % 2 == 0 {
                    self.widths@[i / 2]
                } else {
                    Constraint::Length(self.column_spacing)
                },
        );
        if has_selection {
            seq![Constraint::Length(self.symbol_length())] + between
        } else {
            between
        }
    }

    /// Whether the columns can be laid out: at most one of their constraints
    /// is Fill, and that one is the first or the last of all.
    pub open spec fn columns_valid(&self, has_selection: bool) -> bool {
        let cons = self.column_constraints(has_selection);
        &&& fill_count(cons, cons.len() as int) <= 1
        &&& fill_count(cons, cons.len() as int) == 1 ==> fill_first(cons) || fill_last(cons)
    }

    /// The width of each column in a table `max_width` wide: of the layout of
    /// `column_constraints`, less the highlight symbol's part, every second width.
    pub open spec fn columns_widths(&self, max_width: u16, has_selection: bool) -> Seq<u16> {
        let all = layout_spec(
            Rect { x: 0, y: 0, width: max_width, height: 1 },
            Direction::Horizontal,
            self.column_constraints(has_selection),
        );
        let chunks = if has_selection && all.len() > 0 {
            all.subrange(1, all.len() as int)
        } else {
            all
        };
        Seq::new(((chunks.len() + 1) / 2) as nat, |i: int| chunks[2 * i].width)
    }

    /// The width of each column in a table `max_width` wide.
    pub fn get_columns_widths(&self, max_width: u16, has_selection: bool) -> (widths: Vec<u16>)
        requires
            self.columns_valid(has_selection),
        ensures
            widths@ == self.columns_widths(max_width, has_selection),
    {
        let mut constraints: Vec<Constraint> = Vec::new();
        if has_selection {
            let length = match self.highlight_symbol {
                Some(symbol) => (symbol.len() % 0x10000) as u16,
                None => {
                    assert("".spec_bytes().len() == 0) by {
                        reveal_strlit("");
                        assert(""@ =~= Seq::<char>::empty());
                        assert(vstd::utf8::encode_utf8(""@) =~= Seq::<u8>::empty()) by {
                            reveal_with_fuel(vstd::utf8::encode_utf8, 1);
                        }
                    }
                    0
                },
            };
            constraints.push(Constraint::Length(length));
        }
        let ghost head = constraints@;
        let mut i: usize = 0;
        while i < self.widths.len()
            invariant
                i <= self.widths@.len(),
                constraints@.len() == head.len() + 2 * i,
                forall|j: int| 0 <= j < head.len() ==> #[trigger] constraints@[j] == head[j],
                forall|j: int|
                    head.len() <= j < constraints@.len() ==> #[trigger] constraints@[j] == if (j
                        - head.len()) % 2 == 0 {
                        self.widths@[(j - head.len()) / 2]
                    } else {
                        Constraint::Length(self.column_spacing)
                    },
            decreases self.widths.len() - i,
        {
            constraints.push(self.widths[i]);
            constraints.push(Constraint::Length(self.column_spacing));
            i += 1;
        }
        if self.widths.len() > 0 {
            constraints.pop();
        }
        assert(constraints@ =~= self.column_constraints(has_selection));
        let area = Rect { x: 0, y: 0, width: max_width, height: 1 };
        proof {
            lemma_cursor_in_area(
                area,
                Direction::Horizontal,
                constraints@,
                constraints@.len() as int,
            );
        }
        let mut chunks = layout(area, Direction::Horizontal, constraints.as_slice());
        if has_selection && chunks.len() > 0 {
            chunks.remove(0);
        }
        let count = chunks.len() / 2 + chunks.len() % 2;
        let mut widths: Vec<u16> = Vec::with_capacity(count);
        let mut j: usize = 0;
        while j < count
            invariant
                j <= count,
                count == (chunks@.len() + 1) / 2,
                chunks@.len() <= usize::MAX,
                widths@.len() == j,
                forall|k: int|
                    0 <= k < widths@.len() ==> #[trigger] widths@[k] == chunks@[2 * k].width,
            decreases count - j,
        {
            widths.push(chunks[2 * j].width);
            j += 1;
        }
        assert(widths@ =~= self.columns_widths(max_width, has_selection));
        widths
    }

    /// The rows `[start, end)` that are shown on `terminal_height` rows of the
    /// screen when row `selected` is selected.
    pub fn get_row_bounds(&self, selected: Option<usize>, terminal_height: u16) -> (bounds: (
        usize,
        usize,
    ))
        ensures
            (bounds.0 as int, bounds.1 as int) == row_bounds(
                self.rows@,
                match selected {
                    Some(selection) => selection as int,
                    None => 0,
                },
                terminal_height as int,
            ),
            bounds.0 <= bounds.1 <= self.rows@.len(),
    {
        let len = self.rows.len();
        let wanted = match selected {
            Some(selection) => selection,
            None => 0,
        };
        let last = len.saturating_sub(1);
        let selection = if wanted <= last {
            wanted
        } else {
            last
        };
        let mut height: usize = 0;
        let mut real_end: usize = 0;
        while real_end < len
            invariant_except_break
                real_end <= len,
                rows_fitting(self.rows@, terminal_height as int, real_end as int, height as int)
                    == rows_fitting(self.rows@, terminal_height as int, 0, 0),
            invariant
                len == self.rows@.len(),
                height <= terminal_height,
            ensures
                (height as int, real_end as int) == rows_fitting(
                    self.rows@,
                    terminal_height as int,
                    0,
                    0,
                ),
                real_end <= len,
            decreases len - real_end,
        {
            let item = &self.rows[real_end];
            if height + item.height as usize > terminal_height as usize {
                break ;
            }
            height += item.height as usize;
            real_end += 1;
        }
        if len <= height {
            (len.saturating_sub(height), len)
        } else if height > 0 {
            let half = (height - 1) / 2;
            if selection <= half {
                (0, real_end)
            } else {
                let reach = if height % 2 == 0 {
                    2 + half
                } else {
                    1 + half
                };
                if reach > len - selection {
                    (len - height, len)
                } else {
                    (selection - half, selection + reach)
                }
            }
        } else {
            (0, 0)
        }
    }

    /// The rows of the screen that are left for the rows of the table in
    /// `area`: what is inside the block, less the header.
    pub open spec fn row_height(&self, area: Rect) -> u16 {
        let table_area = match self.block {
            Some(block) => block.inner_spec(area),
            None => area,
        };
        match self.header {
            Some(header) => vstd::math::max(table_area.height - header.total_height(), 0) as u16,
            None => table_area.height,
        }
    }

    /// The rows of the screen that are left for the rows of the table in `area`.
    pub fn get_row_height(&self, area: Rect) -> (height: u16)
        ensures
            height == self.row_height(area),
    {
        let table_area = match &self.block {
            Some(block) => block.inner(area),
            None => area,
        };
        let mut rows_height = table_area.height;
        if let Some(header) = &self.header {
            let total = header.total_height();
            let max_header_height = if table_area.height <= total {
                table_area.height
            } else {
                total
            };
            rows_height = rows_height.saturating_sub(max_header_height);
        }
        rows_height
    }
}

/// The cells of a grid after the first `k` cells of the line under the header
/// were drawn: on the second row of `table_area`, from its fourth column on.
/// A cell past the last column or row that there is draws nothing.
pub open spec fn separator_drawn(cells: Seq<CellView>, grid: Rect, table_area: Rect, k: int) -> Seq<
    CellView,
>
    decreases k,
{
    if k <= 0 {
        cells
    } else {
        let before = separator_drawn(cells, grid, table_area, k - 1);
        let x = table_area.x + 3 + (k - 1);
        let y = table_area.y + 1;
        if x > u16::MAX || y > u16::MAX {
            before
        } else {
            string_written(before, grid, x as u16, y as u16, "\u{2500}"@, 1, Style::plain()).0
        }
    }
}

/// Past the last column, no cell of the line is drawn.
proof fn lemma_separator_past(
    cells: Seq<CellView>,
    grid: Rect,
    table_area: Rect,
    from: int,
    k: int,
)
    requires
        0 <= from <= k,
        table_area.x + 3 + from > u16::MAX || table_area.y + 1 > u16::MAX,
    ensures
        separator_drawn(cells, grid, table_area, k) == separator_drawn(
            cells,
            grid,
            table_area,
            from,
        ),
    decreases k,
{
    if k > from {
        lemma_separator_past(cells, grid, table_area, from, k - 1);
    }
}

/// A sum of widths is not negative.
proof fn lemma_widths_sum(widths: Seq<u16>, n: int)
    ensures
        widths_sum(widths, n) >= 0,
    decreases n,
{
    if n > 0 {
        lemma_widths_sum(widths, n - 1);
    }
}

/// A height of rows is not negative.
proof fn lemma_rows_height(rows: Seq<Row>, start: int, k: int)
    ensures
        rows_height(rows, start, k) >= 0,
    decreases k,
{
    if k > 0 {
        lemma_rows_height(rows, start, k - 1);
    }
}

/// Draws the first `count` cells of the line under the header.
fn draw_separator(buf: &mut Buffer, table_area: Rect, count: u32, Ghost(wanted): Ghost<int>)
    requires
        old(buf).wf(),
        wanted >= 0,
        count == vstd::math::min(wanted, u32::MAX as int),
    ensures
        final(buf).wf(),
        final(buf).area == old(buf).area,
        final(buf)@ == separator_drawn(old(buf)@, old(buf).area, table_area, wanted),
{
    let ghost grid = buf.area;
    let plain = Style { fg: Color::Reset, bg: Color::Reset, modifier: Modifier::empty() };
    let y = table_area.y as u32 + 1;
    let mut k: u32 = 0;
    while k < count
        invariant_except_break
            k <= count,
        invariant
            k <= 0x10000,
            buf.wf(),
            buf.area == grid,
            plain == Style::plain(),
            y == table_area.y + 1,
            wanted >= 0,
            count == vstd::math::min(wanted, u32::MAX as int),
            buf@ == separator_drawn(old(buf)@, grid, table_area, k as int),
        ensures
            buf@ == separator_drawn(old(buf)@, grid, table_area, wanted),
        decreases count - k,
    {
        let x = table_area.x as u32 + 3 + k;
        if x > u16::MAX as u32 || y > u16::MAX as u32 {
            proof {
                lemma_separator_past(old(buf)@, grid, table_area, k as int, wanted);
            }
            break ;
        }
        buf.set_stringn(x as u16, y as u16, "\u{2500}", 1, plain);
        k += 1;
    }
}

/// The sum of the widths, held at the largest number.
fn sum_widths(widths: &Vec<u16>) -> (sum: u32)
    ensures
        sum == vstd::math::min(widths_sum(widths@, widths@.len() as int), u32::MAX as int),
{
    let mut sum: u32 = 0;
    let mut i: usize = 0;
    while i < widths.len()
        invariant
            i <= widths@.len(),
            sum == vstd::math::min(widths_sum(widths@, i as int), u32::MAX as int),
            widths_sum(widths@, i as int) >= 0,
        decreases widths.len() - i,
    {
        sum = sum.saturating_add(widths[i] as u32);
        i += 1;
    }
    sum
}

impl<'a> Table<'a> {
    /// The cells of a grid after the header was drawn on the first row of
    /// `table_area`: its columns, after the room for the highlight symbol where
    /// a row can be selected, and under them the line, if the table has one.
    pub open spec fn header_drawn(
        &self,
        cells: Seq<CellView>,
        grid: Rect,
        table_area: Rect,
        widths: Seq<u16>,
        header: Row,
        has_selection: bool,
    ) -> Seq<CellView> {
        let height = vstd::math::min(table_area.height as int, header.total_height() as int) as u16;
        let x = table_area.x + if has_selection {
            vstd::math::min(self.symbol_length() as int, table_area.width as int)
        } else {
            0
        };
        let columns = columns_drawn(
            cells,
            grid,
            x,
            table_area.y,
            widths,
            header.columns@,
            height,
            self.column_spacing,
            0,
        );
        if self.separator {
            separator_drawn(columns, grid, table_area, widths_sum(widths, widths.len() as int) + 1)
        } else {
            columns
        }
    }

    /// The cells of a grid after row `i` was drawn on row `y` of the screen:
    /// where a row can be selected, the marker; then the columns.
    pub open spec fn row_drawn(
        &self,
        cells: Seq<CellView>,
        grid: Rect,
        table_area: Rect,
        widths: Seq<u16>,
        i: int,
        y: u16,
        state: Option<usize>,
    ) -> Seq<CellView> {
        let row = self.rows@[i];
        let (marked, x) = if state is Some {
            string_written(
                cells,
                grid,
                table_area.x,
                y,
                self.marker(state == Some(i as usize)),
                table_area.width as usize,
                Style::plain(),
            )
        } else {
            (cells, table_area.x as int)
        };
        columns_drawn(marked, grid, x, y, widths, row.columns@, row.height, self.column_spacing, 0)
    }

    /// The cells of a grid after the first `k` rows from `start` on were drawn,
    /// one below the other, the first `offset` rows below the top of
    /// `table_area`. A row past the last row that there is draws nothing.
    pub open spec fn rows_drawn(
        &self,
        cells: Seq<CellView>,
        grid: Rect,
        table_area: Rect,
        widths: Seq<u16>,
        start: int,
        state: Option<usize>,
        offset: int,
        k: int,
    ) -> Seq<CellView>
        decreases k,
    {
        if k <= 0 {
            cells
        } else {
            let before = self.rows_drawn(cells, grid, table_area, widths, start, state, offset, k - 1);
            let y = table_area.y + offset + rows_height(self.rows@, start, k - 1);
            if y > u16::MAX {
                before
            } else {
                self.row_drawn(before, grid, table_area, widths, start + k - 1, y as u16, state)
            }
        }
    }

    /// The cells of a grid after the table was drawn into `area`: nothing where
    /// `area` is empty; else its block, the header, and the rows that
    /// `get_row_bounds` gives for the selection `state`.
    pub open spec fn drawn(
        &self,
        cells: Seq<CellView>,
        grid: Rect,
        area: Rect,
        state: Option<usize>,
    ) -> Seq<CellView> {
        if area.width == 0 || area.height == 0 {
            cells
        } else {
            let (cells, table_area) = match self.block {
                Some(block) => (block.drawn(cells, grid, area), block.inner_spec(area)),
                None => (cells, area),
            };
            let widths = self.columns_widths(table_area.width, state is Some);
            let (cells, offset) = match self.header {
                Some(header) => (
                    self.header_drawn(cells, grid, table_area, widths, header, state is Some),
                    vstd::math::min(table_area.height as int, header.total_height() as int),
                ),
                None => (cells, 0),
            };
            if self.rows@.len() == 0 {
                cells
            } else {
                let (start, end) = row_bounds(
                    self.rows@,
                    match state {
                        Some(selection) => selection as int,
                        None => 0,
                    },
                    table_area.height - offset,
                );
                self.rows_drawn(cells, grid, table_area, widths, start, state, offset, end - start)
            }
        }
    }

    /// Draws the table into `area`, with row `state` selected, if any. What
    /// lies outside the buffer is not drawn.
    pub fn draw(&self, area: Rect, buf: &mut Buffer, state: Option<usize>)
        requires
            old(buf).wf(),
            area.width != 0 && area.height != 0 ==> self.columns_valid(state is Some),
        ensures
            final(buf).wf(),
            final(buf).area == old(buf).area,
            final(buf)@ == self.drawn(old(buf)@, old(buf).area, area, state),
    {
        if area.width == 0 || area.height == 0 {
            return ;
        }
        let ghost grid = buf.area;
        let table_area = if let Some(block) = &self.block {
            block.draw(area, buf);
            block.inner(area)
        } else {
            area
        };
        let has_selection = state.is_some();
        let columns_widths = self.get_columns_widths(table_area.width, has_selection);
        let highlight_symbol = match self.highlight_symbol {
            Some(symbol) => symbol,
            None => "",
        };
        let blank_symbol = blank_text(highlight_symbol.len());
        let plain = Style { fg: Color::Reset, bg: Color::Reset, modifier: Modifier::empty() };
        let mut current_height: u32 = 0;
        let mut rows_left = table_area.height;

        if let Some(header) = &self.header {
            let total = header.total_height();
            let max_header_height = if table_area.height <= total {
                table_area.height
            } else {
                total
            };
            let mut col = table_area.left() as u32;
            if has_selection {
                let length = (highlight_symbol.len() % 0x10000) as u16;
                col += if length <= table_area.width {
                    length as u32
                } else {
                    table_area.width as u32
                };
            }
            draw_columns(
                buf,
                col,
                table_area.top(),
                &columns_widths,
                &header.columns,
                max_header_height,
                self.column_spacing,
            );
            if self.separator {
                let sum = sum_widths(&columns_widths);
                proof {
                    lemma_widths_sum(columns_widths@, columns_widths@.len() as int);
                }
                draw_separator(
                    buf,
                    table_area,
                    sum.saturating_add(1),
                    Ghost(widths_sum(columns_widths@, columns_widths@.len() as int) + 1),
                );
            }
            current_height = max_header_height as u32;
            rows_left = rows_left.saturating_sub(max_header_height);
        }
        if self.rows.len() == 0 {
            return ;
        }
        let (start, end) = self.get_row_bounds(state, rows_left);
        let ghost before = buf@;
        let ghost offset = current_height as int;
        let mut i = start;
        while i < end
            invariant
                start <= i <= end <= self.rows@.len(),
                buf.wf(),
                buf.area == grid,
                plain == Style::plain(),
                has_selection == (state is Some),
                highlight_symbol@ == self.marker(true),
                blank_symbol@ == self.marker(false),
                0 <= offset <= 0xffff,
                current_height == vstd::math::min(
                    offset + rows_height(self.rows@, start as int, i - start),
                    0x10000,
                ),
                buf@ == self.rows_drawn(
                    before,
                    grid,
                    table_area,
                    columns_widths@,
                    start as int,
                    state,
                    offset,
                    i - start,
                ),
            decreases end - i,
        {
            let row = &self.rows[i];
            let y = table_area.top() as u32 + current_height;
            proof {
                lemma_rows_height(self.rows@, start as int, i - start);
            }
            let next_height = current_height + row.total_height() as u32;
            current_height = if next_height > 0x10000 {
                0x10000
            } else {
                next_height
            };
            if y > u16::MAX as u32 {
                i += 1;
                continue ;
            }
            let y = y as u16;
            let x = if has_selection {
                let selected = match state {
                    Some(selection) => selection == i,
                    None => false,
                };
                let symbol = if selected {
                    highlight_symbol
                } else {
                    blank_symbol.as_str()
                };
                let (col, _) = buf.set_stringn(
                    table_area.left(),
                    y,
                    symbol,
                    table_area.width as usize,
                    plain,
                );
                col
            } else {
                table_area.left()
            };
            draw_columns(
                buf,
                x as u32,
                y,
                &columns_widths,
                &row.columns,
                row.height,
                self.column_spacing,
            );
            i += 1;
        }
    }
}

} // verus!
