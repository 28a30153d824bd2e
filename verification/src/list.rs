//! A list of lines, one to a row, with an optional selection.

use crate::block::{law_block_draws_within, lemma_inner_within, Block};
use crate::buffer::{cell_in, column_of, paint_spec, row_of, Buffer, CellView, Paint};
use crate::layout::Rect;
use crate::style::{Color, Modifier, Style};
use crate::text::Line;
use crate::write::{
    lemma_lines_written_within, lemma_string_written_within, line_overflow, lines_written, row_rect,
    string_written,
};
use vstd::prelude::*;
use vstd::string::StringSliceAdditionalSpecFns;

verus! {

/// A list of lines. The selected line, if there is one, gets the selection
/// symbol before it and the selection style over it.
#[derive(Debug, Clone)]
pub struct List<'a> {
    pub block: Option<Block>,
    pub items: Vec<Line>,
    pub selection_symbol: Option<&'a str>,
    pub selection_style: Option<Style>,
    /// Whether the first line is drawn on the last row.
    pub start_from_bottom: bool,
}

/// A list of the given lines, drawn from the top, with nothing to mark a selection.
pub fn list<'a>(items: Vec<Line>) -> (l: List<'a>)
    ensures
        l.block is None,
        l.items == items,
        l.selection_symbol is None,
        l.selection_style is None,
        !l.start_from_bottom,
{
    List {
        block: None,
        items,
        selection_symbol: None,
        selection_style: None,
        start_from_bottom: false,
    }
}

/// The lines `[start, end)` that a list of `len` lines shows on `rows` rows
/// when line `selection` is selected: as many lines as there are rows, if
/// there are that many, with the selected line in the middle where the ends of
/// the list allow it.
pub open spec fn items_bounds(len: int, selection: int, rows: int) -> (int, int) {
    let height = vstd::math::min(len, rows);
    let selection = vstd::math::min(selection, len - 1);
    let half = if height == 0 {
        0
    } else {
        (height - 1) / 2
    };
    let start = vstd::math::max(selection - half, 0);
    let end = if selection <= half {
        height
    } else if height % 2 == 0 {
        selection + 2 + half
    } else {
        selection + 1 + half
    };
    if end > len {
        (len - height, len)
    } else {
        (start, end)
    }
}

/// `n` spaces.
pub open spec fn spaces(n: nat) -> Seq<char> {
    Seq::new(n, |i: int| ' ')
}

/// `n` spaces.
pub fn blank_text(n: usize) -> (text: String)
    ensures
        text@ == spaces(n as nat),
{
    let mut text = String::new();
    let mut i: usize = 0;
    while i < n
        invariant
            i <= n,
            text@ == spaces(i as nat),
        decreases n - i,
    {
        text.push(' ');
        assert(text@ =~= spaces((i + 1) as nat));
        i += 1;
    }
    text
}

impl<'a> List<'a> {
    pub fn block(self, block: Block) -> (l: List<'a>)
        ensures
            l == (List { block: Some(block), ..self }),
    {
        List {
            block: Some(block),
            items: self.items,
            selection_symbol: self.selection_symbol,
            selection_style: self.selection_style,
            start_from_bottom: self.start_from_bottom,
        }
    }

    pub fn symbol(self, symbol: &'a str) -> (l: List<'a>)
        ensures
            l == (List { selection_symbol: Some(symbol), ..self }),
    {
        List {
            block: self.block,
            items: self.items,
            selection_symbol: Some(symbol),
            selection_style: self.selection_style,
            start_from_bottom: self.start_from_bottom,
        }
    }

    pub fn selection_style(self, style: Style) -> (l: List<'a>)
        ensures
            l == (List { selection_style: Some(style), ..self }),
    {
        List {
            block: self.block,
            items: self.items,
            selection_symbol: self.selection_symbol,
            selection_style: Some(style),
            start_from_bottom: self.start_from_bottom,
        }
    }

    /// The lines `[start, end)` that are shown on `terminal_height` rows when
    /// line `selection` is selected. Where there is a row, they are as many as
    /// there are rows, or all, and the selected line is among them.
    pub fn get_items_bounds(&self, selection: usize, terminal_height: usize) -> (bounds: (
        usize,
        usize,
    ))
        requires
            self.items@.len() > 0,
        ensures
            (bounds.0 as int, bounds.1 as int) == items_bounds(
                self.items@.len() as int,
                selection as int,
                terminal_height as int,
            ),
            bounds.0 <= bounds.1 <= self.items@.len(),
            terminal_height > 0 ==> bounds.1 - bounds.0 == vstd::math::min(
                self.items@.len() as int,
                terminal_height as int,
            ),
            terminal_height > 0 ==> bounds.0 <= vstd::math::min(
                selection as int,
                self.items@.len() - 1,
            ) < bounds.1,
    {
        let len = self.items.len();
        let height = if len <= terminal_height {
            len
        } else {
            terminal_height
        };
        let selection = if selection <= len - 1 {
            selection
        } else {
            len - 1
        };
        let half = if height == 0 {
            0
        } else {
            (height - 1) / 2
        };
        if selection <= half {
            (0, height)
        } else {
            let reach = if height % 2 == 0 {
                2 + half
            } else {
                1 + half
            };
            if reach > len - selection {
                (len - height, len)
            } else {
                (selection - half, selection + reach)
            }
        }
    }

    /// The text that stands before a line: the selection symbol before the
    /// selected line, as many spaces as the symbol has bytes before the others.
    pub open spec fn marker(&self, selected: bool) -> Seq<char> {
        let symbol = match self.selection_symbol {
            Some(symbol) => symbol,
            None => "",
        };
        if selected {
            symbol@
        } else {
            spaces(symbol.spec_bytes().len() as usize as nat)
        }
    }

    /// The cells of a grid after line `i` was drawn on `row` of `list_area`:
    /// where a line is selected, the marker; then the line, over its own style
    /// if it has one; and over the selected line the selection style.
    pub open spec fn item_drawn(
        &self,
        cells: Seq<CellView>,
        grid: Rect,
        list_area: Rect,
        i: int,
        row: u16,
        state: Option<usize>,
    ) -> Seq<CellView> {
        let item = self.items@[i];
        let x = list_area.x;
        let area = Rect { x, y: row, width: list_area.width, height: 1 };
        let selected = state == Some(i as usize);
        let (marked, item_x) = if state is Some {
            string_written(
                cells,
                grid,
                x,
                row,
                self.marker(selected),
                list_area.width as usize,
                Style::plain(),
            )
        } else {
            (cells, x as int)
        };
        let item_width = (list_area.width - (item_x - x)) as u16;
        let styled = match item.style {
            Some(style) => paint_spec(marked, grid, area, Paint::Restyle(style)),
            None => marked,
        };
        let written = lines_written(
            styled,
            grid,
            item_x,
            row,
            item.lines@,
            item.style,
            item_width as int,
            false,
            line_overflow(item.lines@, item_width),
            0,
        ).0;
        match self.selection_style {
            Some(style) if selected => paint_spec(written, grid, area, Paint::Restyle(style)),
            _ => written,
        }
    }

    /// The row of the `k`-th line that is shown.
    pub open spec fn item_row(&self, list_area: Rect, k: int) -> int {
        if self.start_from_bottom {
            list_area.bottom() - 1 - k
        } else {
            list_area.y + k
        }
    }

    /// The cells of a grid after the first `k` lines from `start` on were drawn.
    /// A line whose row lies past the last row that there is draws nothing.
    pub open spec fn items_drawn(
        &self,
        cells: Seq<CellView>,
        grid: Rect,
        list_area: Rect,
        start: int,
        state: Option<usize>,
        k: int,
    ) -> Seq<CellView>
        decreases k,
    {
        if k <= 0 {
            cells
        } else {
            let before = self.items_drawn(cells, grid, list_area, start, state, k - 1);
            let row = self.item_row(list_area, k - 1);
            if row > u16::MAX {
                before
            } else {
                self.item_drawn(before, grid, list_area, start + k - 1, row as u16, state)
            }
        }
    }

    /// The cells of a grid after the list was drawn into `area`: its block, if
    /// it has one, and inside it the lines that `get_items_bounds` gives for the
    /// selection `state`, one to a row.
    pub open spec fn drawn(
        &self,
        cells: Seq<CellView>,
        grid: Rect,
        area: Rect,
        state: Option<usize>,
    ) -> Seq<CellView> {
        let (cells, list_area) = match self.block {
            Some(block) => (block.drawn(cells, grid, area), block.inner_spec(area)),
            None => (cells, area),
        };
        if list_area.width < 1 || list_area.height < 1 || self.items@.len() == 0 {
            cells
        } else {
            let selection = match state {
                Some(selection) => selection as int,
                None => 0,
            };
            let (start, end) = items_bounds(
                self.items@.len() as int,
                selection,
                list_area.height as int,
            );
            self.items_drawn(cells, grid, list_area, start, state, end - start)
        }
    }

    /// Draws the list into `area`, with line `state` selected, if any. What lies
    /// outside the buffer is not drawn.
    pub fn draw(&self, area: Rect, buf: &mut Buffer, state: Option<usize>)
        requires
            old(buf).wf(),
        ensures
            final(buf).wf(),
            final(buf).area == old(buf).area,
            final(buf)@ == self.drawn(old(buf)@, old(buf).area, area, state),
    {
        let ghost grid = buf.area;
        let list_area = if let Some(block) = &self.block {
            block.draw(area, buf);
            block.inner(area)
        } else {
            area
        };
        let selected = state.is_some();
        let selection = match state {
            Some(selection) => selection,
            None => 0,
        };
        if list_area.width < 1 || list_area.height < 1 || self.items.len() == 0 {
            return ;
        }
        let (start, end) = self.get_items_bounds(selection, list_area.height as usize);
        let highlight_symbol = match self.selection_symbol {
            Some(symbol) => symbol,
            None => "",
        };
        let blank_symbol = blank_text(highlight_symbol.len());
        let ghost before = buf@;
        let plain = Style { fg: Color::Reset, bg: Color::Reset, modifier: Modifier::empty() };
        let mut current_height: u16 = 0;
        let mut i = start;
        while i < end
            invariant
                start <= i <= end <= self.items@.len(),
                end - start <= list_area.height,
                current_height == i - start,
                buf.wf(),
                buf.area == grid,
                plain == Style::plain(),
                selected == (state is Some),
                state matches Some(s) ==> selection == s,
                highlight_symbol@ == self.marker(true),
                blank_symbol@ == self.marker(false),
                buf@ == self.items_drawn(before, grid, list_area, start as int, state, i - start),
            decreases end - i,
        {
            let item = &self.items[i];
            let x = list_area.left();
            let row: u32 = if self.start_from_bottom {
                current_height += 1;
                (list_area.bottom() - current_height) as u32
            } else {
                let row = list_area.top() as u32 + current_height as u32;
                current_height += 1;
                row
            };
            assert(row == self.item_row(list_area, i - start));
            if row > u16::MAX as u32 {
                i += 1;
                continue ;
            }
            let y = row as u16;
            let row = Rect { x, y, width: list_area.width, height: 1 };
            let is_selected = selected && selection == i;
            let (elem_x, max_element_width) = if selected {
                let symbol = if is_selected {
                    highlight_symbol
                } else {
                    blank_symbol.as_str()
                };
                let (elem_x, _) = buf.set_stringn(x, y, symbol, list_area.width as usize, plain);
                (elem_x, list_area.width - (elem_x - x))
            } else {
                (x, list_area.width)
            };
            if let Some(style) = item.style {
                buf.set_style(row, style);
            }
            buf.set_lines(elem_x, y, item, max_element_width, false);
            if let Some(style) = self.selection_style {
                if is_selected {
                    buf.set_style(row, style);
                }
            }
            i += 1;
        }
    }
}

/// The lines that are shown lie in the list, and are as many as there are
/// rows, or all.
proof fn lemma_items_bounds(len: int, selection: int, rows: int)
    requires
        len > 0,
        rows > 0,
        selection >= 0,
    ensures
        0 <= items_bounds(len, selection, rows).0 <= items_bounds(len, selection, rows).1 <= len,
        items_bounds(len, selection, rows).1 - items_bounds(len, selection, rows).0
            == vstd::math::min(len, rows),
{
}

/// A line of the list is drawn into no cell outside its row of the list's area.
proof fn lemma_item_drawn_within(
    list: List,
    cells: Seq<CellView>,
    grid: Rect,
    list_area: Rect,
    line: int,
    row: u16,
    state: Option<usize>,
    i: int,
)
    requires
        cells.len() == grid.width * grid.height,
        0 <= i < cells.len(),
        !cell_in(grid, row_rect(list_area.x, row, list_area.width), i),
    ensures
        list.item_drawn(cells, grid, list_area, line, row, state).len() == cells.len(),
        list.item_drawn(cells, grid, list_area, line, row, state)[i] == cells[i],
{
    let item = list.items@[line];
    let x = list_area.x;
    let area = Rect { x, y: row, width: list_area.width, height: 1 };
    assert(area == row_rect(x, row, list_area.width));
    let selected = state == Some(line as usize);
    lemma_string_written_within(
        cells,
        grid,
        x,
        row,
        list.marker(selected),
        list_area.width,
        Style::plain(),
    );
    let (marked, item_x) = if state is Some {
        string_written(
            cells,
            grid,
            x,
            row,
            list.marker(selected),
            list_area.width as usize,
            Style::plain(),
        )
    } else {
        (cells, x as int)
    };
    assert(marked[i] == cells[i]);
    let item_width = (list_area.width - (item_x - x)) as u16;
    let styled = match item.style {
        Some(style) => paint_spec(marked, grid, area, Paint::Restyle(style)),
        None => marked,
    };
    assert(styled[i] == cells[i]);
    lemma_lines_written_within(
        styled,
        grid,
        item_x,
        row,
        item.lines@,
        item.style,
        item_width as int,
        false,
        line_overflow(item.lines@, item_width),
        0,
        x,
        list_area.width,
    );
}

/// The first `k` lines that are shown are drawn into no cell outside the
/// list's area.
proof fn lemma_items_drawn_within(
    list: List,
    cells: Seq<CellView>,
    grid: Rect,
    list_area: Rect,
    start: int,
    state: Option<usize>,
    k: int,
    i: int,
)
    requires
        cells.len() == grid.width * grid.height,
        0 <= i < cells.len(),
        !cell_in(grid, list_area, i),
        k <= list_area.height,
        list.start_from_bottom ==> list_area.y + list_area.height <= u16::MAX,
    ensures
        list.items_drawn(cells, grid, list_area, start, state, k).len() == cells.len(),
        list.items_drawn(cells, grid, list_area, start, state, k)[i] == cells[i],
    decreases k,
{
    if k > 0 {
        lemma_items_drawn_within(list, cells, grid, list_area, start, state, k - 1, i);
        let before = list.items_drawn(cells, grid, list_area, start, state, k - 1);
        let row = list.item_row(list_area, k - 1);
        if row <= u16::MAX {
            assert(!cell_in(grid, row_rect(list_area.x, row as u16, list_area.width), i));
            lemma_item_drawn_within(
                list,
                before,
                grid,
                list_area,
                start + k - 1,
                row as u16,
                state,
                i,
            );
        }
    }
}

/// A list draws into no cell outside its area, where the title of its block,
/// if it has one, starts at the left edge, and where a list that is drawn
/// from the bottom has an area that ends at a row that there is.
pub proof fn law_list_draws_within(
    list: List,
    cells: Seq<CellView>,
    grid: Rect,
    area: Rect,
    state: Option<usize>,
    i: int,
)
    requires
        cells.len() == grid.width * grid.height,
        0 <= i < cells.len(),
        !cell_in(grid, area, i),
        list.block matches Some(block) ==> (block.title is Some ==> block.margin == 0),
        list.start_from_bottom ==> area.y + area.height <= u16::MAX,
    ensures
        list.drawn(cells, grid, area, state).len() == cells.len(),
        list.drawn(cells, grid, area, state)[i] == cells[i],
{
    let (framed, list_area) = match list.block {
        Some(block) => (block.drawn(cells, grid, area), block.inner_spec(area)),
        None => (cells, area),
    };
    if let Some(block) = list.block {
        law_block_draws_within(block, cells, grid, area, i);
        if cell_in(grid, list_area, i) {
            lemma_inner_within(block, area, column_of(grid, i), row_of(grid, i));
        }
    }
    if !(list_area.width < 1 || list_area.height < 1 || list.items@.len() == 0) {
        let selection = match state {
            Some(selection) => selection as int,
            None => 0,
        };
        lemma_items_bounds(list.items@.len() as int, selection, list_area.height as int);
        let (start, end) = items_bounds(
            list.items@.len() as int,
            selection,
            list_area.height as int,
        );
        lemma_items_drawn_within(list, framed, grid, list_area, start, state, end - start, i);
    }
}

} // verus!
