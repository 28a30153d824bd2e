//! A bar that is filled from the left, with a label in its middle.

use crate::block::Block;
use crate::buffer::{index_at, lemma_index_at, paint_spec, Brush, Buffer, CellView, Paint};
use crate::layout::Rect;
use crate::style::{Color, Style};
use crate::trusted::{display_width, str_width};
use vstd::prelude::*;
use vstd::string::StrSliceExecFns;

verus! {

/// A bar with a label. How much of it is filled is said when it is drawn.
#[derive(Debug, Clone)]
pub struct Gauge {
    pub block: Option<Block>,
    pub label: String,
    /// The colours of the filled part.
    pub left_style: Style,
    /// The style of the rest.
    pub right_style: Style,
}

pub fn guage(block: Option<Block>, label: String, left_style: Style, right_style: Style) -> (g: Gauge)
    ensures
        g.block == block,
        g.label == label,
        g.left_style == left_style,
        g.right_style == right_style,
{
    Gauge { block, label, left_style, right_style }
}

/// The cells of a grid after the first `k` characters of `label` were put on
/// `row`, one to a cell from column `col` on, each black where it stands on the
/// filled part, before column `end`, and in the default colour elsewhere. A
/// character for which the grid has no cell is left out.
pub open spec fn label_drawn(
    cells: Seq<CellView>,
    grid: Rect,
    label: Seq<char>,
    col: int,
    row: int,
    end: int,
    k: int,
) -> Seq<CellView>
    decreases k,
{
    if k <= 0 {
        cells
    } else {
        let before = label_drawn(cells, grid, label, col, row, end, k - 1);
        let x = col + k - 1;
        if grid.has_cell(x, row) {
            let place = index_at(grid, x, row);
            before.update(
                place,
                CellView {
                    symbol: seq![label[k - 1]],
                    fg: if x < end {
                        Color::Black
                    } else {
                        Color::Reset
                    },
                    ..before[place]
                },
            )
        } else {
            before
        }
    }
}

impl Gauge {
    /// The area of the bar: what the block leaves of `area`.
    pub open spec fn bar_spec(&self, area: Rect) -> Rect {
        match self.block {
            Some(block) => block.inner_spec(area),
            None => area,
        }
    }

    /// The area of the bar: what the block leaves of `area`.
    pub fn bar(&self, area: Rect) -> (bar: Rect)
        ensures
            bar == self.bar_spec(area),
    {
        match &self.block {
            Some(block) => block.inner(area),
            None => area,
        }
    }

    /// The column at which the label starts: such that it stands in the middle
    /// of the bar.
    pub open spec fn label_column(&self, bar: Rect) -> int {
        let width = vstd::math::min(bar.width as int, (display_width(self.label@) % 0x10000) as int);
        bar.x + (bar.width - width) / 2
    }

    /// The cells of a grid after the gauge was drawn into `area` with `filled`
    /// columns of the bar filled: `area` in the style of the unfilled part, the
    /// block, the filled part as spaces in its colours, and over the middle row
    /// the label, as far as there are columns for it.
    pub open spec fn drawn(&self, cells: Seq<CellView>, grid: Rect, area: Rect, filled: u16) -> Seq<
        CellView,
    > {
        let cells = paint_spec(cells, grid, area, Paint::Restyle(self.right_style));
        let cells = match self.block {
            Some(block) => block.drawn(cells, grid, area),
            None => cells,
        };
        let bar = self.bar_spec(area);
        if bar.height < 1 {
            cells
        } else {
            let cells = paint_spec(
                cells,
                grid,
                Rect { x: bar.x, y: bar.y, width: filled, height: bar.height },
                Paint::Fill(self.left_style.fg, self.left_style.bg),
            );
            let col = self.label_column(bar);
            label_drawn(
                cells,
                grid,
                self.label@,
                col,
                bar.y + bar.height / 2,
                bar.x + filled,
                vstd::math::min(
                    self.label@.len() as int,
                    vstd::math::max(bar.width - col, 0),
                ),
            )
        }
    }

    /// Draws the gauge into `area` with `filled` columns of the bar filled.
    /// What lies outside the buffer is not drawn.
    pub fn draw(&self, area: Rect, buf: &mut Buffer, filled: u16)
        requires
            old(buf).wf(),
        ensures
            final(buf).wf(),
            final(buf).area == old(buf).area,
            final(buf)@ == self.drawn(old(buf)@, old(buf).area, area, filled),
    {
        let ghost grid = buf.area;
        buf.set_style(area, self.right_style);
        let bar = if let Some(block) = &self.block {
            block.draw(area, buf);
            block.inner(area)
        } else {
            area
        };
        if bar.height < 1 {
            return ;
        }
        let label = self.label.as_str();
        let label_width = (str_width(label) % 0x10000) as u16;
        let clamped_label_width = if bar.width <= label_width {
            bar.width
        } else {
            label_width
        };
        let label_col = bar.left() as u32 + ((bar.width - clamped_label_width) / 2) as u32;
        let label_row = bar.top() as u32 + (bar.height / 2) as u32;
        let end = bar.left() as u32 + filled as u32;
        buf.paint(
            Rect { x: bar.x, y: bar.y, width: filled, height: bar.height },
            Brush::Fill(self.left_style.fg, self.left_style.bg),
        );
        let ghost before = buf@;
        let length = label.unicode_len();
        let room: usize = if label_col < bar.width as u32 {
            (bar.width as u32 - label_col) as usize
        } else {
            0
        };
        let count = if length <= room {
            length
        } else {
            room
        };
        let mut k: usize = 0;
        while k < count
            invariant
                k <= count <= length,
                count <= 0xffff,
                length == label@.len(),
                label@ == self.label@,
                label_col <= 2 * 0xffff,
                label_row <= 2 * 0xffff,
                buf.wf(),
                buf.area == grid,
                buf@ == label_drawn(
                    before,
                    grid,
                    label@,
                    label_col as int,
                    label_row as int,
                    end as int,
                    k as int,
                ),
            decreases count - k,
        {
            let x = label_col + k as u32;
            if x <= u16::MAX as u32 && label_row <= u16::MAX as u32 {
                let ch = label.get_char(k);
                let fg = if x < end {
                    Color::Black
                } else {
                    Color::Reset
                };
                let ghost prev = buf@;
                proof {
                    if grid.has_cell(x as int, label_row as int) {
                        lemma_index_at(grid, x as int, label_row as int);
                    }
                }
                if let Ok(cell) = buf.get_mut(x as u16, label_row as u16) {
                    cell.set_char(ch).set_fg(fg);
                }
                proof {
                    if grid.has_cell(x as int, label_row as int) {
                        let place = index_at(grid, x as int, label_row as int);
                        assert(buf@ =~= prev.update(
                            place,
                            CellView { symbol: seq![ch], fg, ..prev[place] },
                        ));
                    } else {
                        assert(buf@ =~= prev);
                    }
                }
            }
            k += 1;
        }
    }
}

} // verus!
