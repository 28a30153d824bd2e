//! Writing text into the grid, one grapheme cluster to a cell.

use crate::buffer::{
    cell_in, index_at, lemma_index_at, lemma_place_of_cell, Buffer, CellView,
};
use crate::layout::Rect;
use crate::style::Style;
use crate::text::{Line, Text};
use crate::trusted::{display_width, grapheme_clusters, graphemes, str_width};
use vstd::prelude::*;
use vstd::utf8::{decode_utf8, encode_utf8, is_char_boundary};

verus! {

/// The cells after a symbol `width` columns wide was written at place `index`:
/// the symbol stands in the first cell, in the given style, and the cells
/// that it covers beyond the first are blank.
pub open spec fn written(
    cells: Seq<CellView>,
    index: int,
    symbol: Seq<char>,
    width: int,
    style: Style,
) -> Seq<CellView> {
    Seq::new(
        cells.len(),
        |i: int|
            if i == index {
                (CellView { symbol, ..cells[i] }).styled(style)
            } else if index < i < index + width {
                CellView::blank()
            } else {
                cells[i]
            },
    )
}

/// The column at which writing stops: the right edge of `area`, or `budget`
/// columns after `x` if that is further left.
pub open spec fn stop_column(area: Rect, x: u16, budget: usize) -> int {
    vstd::math::min(area.right() as int, x + budget)
}

/// The cells, and the column reached, after the clusters from the `k`-th on
/// were written from place `index`, column `x`: a cluster without width is
/// passed over, and the first one that does not fit before column `stop` ends
/// the writing.
pub open spec fn write_clusters(
    cells: Seq<CellView>,
    index: int,
    x: int,
    stop: int,
    clusters: Seq<Seq<char>>,
    widths: Seq<usize>,
    style: Style,
    k: int,
) -> (Seq<CellView>, int)
    decreases clusters.len() - k,
{
    if k < 0 || k >= clusters.len() {
        (cells, x)
    } else if widths[k] == 0 {
        write_clusters(cells, index, x, stop, clusters, widths, style, k + 1)
    } else if x + widths[k] > stop {
        (cells, x)
    } else {
        write_clusters(
            written(cells, index, clusters[k], widths[k] as int, style),
            index + widths[k],
            x + widths[k],
            stop,
            clusters,
            widths,
            style,
            k + 1,
        )
    }
}

/// The display width of each cluster.
pub open spec fn cluster_widths(clusters: Seq<Seq<char>>) -> Seq<usize> {
    Seq::new(clusters.len(), |i: int| display_width(clusters[i]))
}

/// The cells of a grid over `area`, and the column reached, after the clusters
/// were written in `style` from column `x` of row `y` within `budget` columns.
/// Where the grid has no cell at column `x`, row `y`, nothing is written.
pub open spec fn clusters_written(
    cells: Seq<CellView>,
    area: Rect,
    x: u16,
    y: u16,
    clusters: Seq<Seq<char>>,
    widths: Seq<usize>,
    budget: usize,
    style: Style,
) -> (Seq<CellView>, int) {
    if area.has_cell(x as int, y as int) {
        write_clusters(
            cells,
            index_at(area, x as int, y as int),
            x as int,
            stop_column(area, x, budget),
            clusters,
            widths,
            style,
            0,
        )
    } else {
        (cells, x as int)
    }
}

/// The cells of a grid over `area`, and the column reached, after `text` was
/// written in `style` from column `x` of row `y` within `budget` columns.
pub open spec fn string_written(
    cells: Seq<CellView>,
    area: Rect,
    x: u16,
    y: u16,
    text: Seq<char>,
    budget: usize,
    style: Style,
) -> (Seq<CellView>, int) {
    clusters_written(
        cells,
        area,
        x,
        y,
        grapheme_clusters(text),
        cluster_widths(grapheme_clusters(text)),
        budget,
        style,
    )
}

/// The clusters as plain values.
pub open spec fn cluster_views(clusters: Seq<&str>) -> Seq<Seq<char>> {
    Seq::new(clusters.len(), |i: int| clusters[i]@)
}

/// A row of the grid ends where the grid does, or before.
proof fn lemma_row_end(area: Rect, x: int, y: int)
    requires
        area.has_cell(x, y),
    ensures
        index_at(area, x, y) + (area.right() - x) <= area.width * area.height,
        0 <= index_at(area, x, y),
{
    lemma_index_at(area, x, y);
    let w = area.width as int;
    let h = area.height as int;
    let dy = y - area.y;
    assert(dy * w + w <= h * w) by (nonlinear_arith)
        requires
            0 <= dy < h,
            0 <= w,
    ;
    assert(h * w == area.width * area.height) by (nonlinear_arith)
        requires
            w == area.width,
            h == area.height,
    ;
}

impl Buffer {
    /// Writes the clusters in `style` from column `x` of row `y`, each into the
    /// cell where the one before it ended, as far as they fit within `width`
    /// columns and before the right edge. `widths` gives the display width of
    /// each cluster. Where the buffer has no cell at column `x`, row `y`,
    /// nothing is written. Returns the column that was reached, and `y`.
    pub fn set_graphemes(
        &mut self,
        x: u16,
        y: u16,
        clusters: &Vec<&str>,
        widths: &Vec<usize>,
        width: usize,
        style: Style,
    ) -> (end: (u16, u16))
        requires
            old(self).wf(),
            clusters@.len() == widths@.len(),
        ensures
            final(self).wf(),
            final(self).area == old(self).area,
            (final(self)@, end.0 as int) == clusters_written(
                old(self)@,
                old(self).area,
                x,
                y,
                cluster_views(clusters@),
                widths@,
                width,
                style,
            ),
            end.1 == y,
            x <= end.0 <= x + width,
            end.0 > x ==> end.0 <= old(self).area.right(),
            forall|i: int|
                0 <= i < old(self)@.len() && !(index_at(old(self).area, x as int, y as int) <= i
                    < index_at(old(self).area, x as int, y as int) + (end.0 - x)) ==> final(self)@[i]
                    == old(self)@[i],
    {
        let ghost area = self.area;
        let ghost start = index_at(area, x as int, y as int);
        let ghost stop = stop_column(area, x, width);
        let ghost views = cluster_views(clusters@);
        let mut index = match self.index_of(x, y) {
            Ok(index) => index,
            Err(_) => {
                return (x, y);
            },
        };
        proof {
            lemma_row_end(area, x as int, y as int);
        }
        let mut x_offset = x as usize;
        let right = self.area.right() as usize;
        let budget = width.saturating_add(x as usize);
        let max_offset = if right <= budget {
            right
        } else {
            budget
        };
        assert(max_offset == stop);
        let mut k: usize = 0;
        while k < clusters.len()
            invariant_except_break
                k <= clusters@.len(),
                write_clusters(
                    self@,
                    index as int,
                    x_offset as int,
                    stop,
                    views,
                    widths@,
                    style,
                    k as int,
                ) == write_clusters(old(self)@, start, x as int, stop, views, widths@, style, 0),
            invariant
                self.wf(),
                self.area == area,
                area == old(self).area,
                area.has_cell(x as int, y as int),
                clusters@.len() == widths@.len(),
                views == cluster_views(clusters@),
                start == index_at(area, x as int, y as int),
                start + (area.right() - x) <= area.width * area.height,
                0 <= start,
                max_offset == stop,
                stop <= area.right(),
                x <= x_offset <= max_offset,
                index == start + (x_offset - x),
                self@.len() == old(self)@.len(),
                forall|i: int|
                    0 <= i < self@.len() && !(start <= i < index) ==> self@[i] == old(self)@[i],
            ensures
                (self@, x_offset as int) == write_clusters(
                    old(self)@,
                    start,
                    x as int,
                    stop,
                    views,
                    widths@,
                    style,
                    0,
                ),
            decreases clusters.len() - k,
        {
            let symbol = clusters[k];
            let w = widths[k];
            assert(views[k as int] == symbol@);
            if w == 0 {
                k += 1;
                continue ;
            }
            if w > max_offset - x_offset {
                break ;
            }
            let ghost before = self@;
            assert(index + w <= self.content@.len());
            self.content[index].set_symbol(symbol);
            self.content[index].set_style(style);
            let end = index + w;
            let mut i = index + 1;
            while i < end
                invariant
                    self.area == area,
                    self.content@.len() == before.len(),
                    end == index + w,
                    index < i <= end,
                    end <= before.len(),
                    forall|j: int|
                        0 <= j < before.len() ==> (#[trigger] self.content@[j])@ == if j == index {
                            (CellView { symbol: symbol@, ..before[j] }).styled(style)
                        } else if index < j < i {
                            CellView::blank()
                        } else {
                            before[j]
                        },
                decreases end - i,
            {
                self.content[i].reset();
                i += 1;
            }
            assert(self@ =~= written(before, index as int, symbol@, w as int, style));
            index = end;
            x_offset += w;
            k += 1;
        }
        (x_offset as u16, y)
    }

    /// Writes `string` in `style` from column `x` of row `y`, one grapheme
    /// cluster to a cell and each as it is, as far as the clusters fit within `width` columns and
    /// before the right edge. A cluster without width is passed over; one that
    /// is wider than a column leaves the cells that it covers blank; one that
    /// does not fit ends the writing. Where the buffer has no cell at column
    /// `x`, row `y`, nothing is written. Returns the column that was reached,
    /// and `y`.
    pub fn set_stringn(&mut self, x: u16, y: u16, string: &str, width: usize, style: Style) -> (end:
        (u16, u16))
        requires
            old(self).wf(),
        ensures
            final(self).wf(),
            final(self).area == old(self).area,
            (final(self)@, end.0 as int) == string_written(
                old(self)@,
                old(self).area,
                x,
                y,
                string@,
                width,
                style,
            ),
            end.1 == y,
            x <= end.0 <= x + width,
            end.0 > x ==> end.0 <= old(self).area.right(),
            forall|i: int|
                0 <= i < old(self)@.len() && !(index_at(old(self).area, x as int, y as int) <= i
                    < index_at(old(self).area, x as int, y as int) + (end.0 - x)) ==> final(self)@[i]
                    == old(self)@[i],
    {
        let clusters = graphemes(string);
        assert(cluster_views(clusters@) =~= grapheme_clusters(string@));
        let widths = widths_of(&clusters);
        self.set_graphemes(x, y, &clusters, &widths, width, style)
    }
}

/// A symbol of two or more columns that is written leaves every cell that it
/// covers beyond its own blank, so that nothing shows from under it.
pub proof fn law_wide_symbol_covers(
    cells: Seq<CellView>,
    index: int,
    x: int,
    stop: int,
    symbol: Seq<char>,
    width: usize,
    style: Style,
    j: int,
)
    requires
        0 <= index,
        index + width <= cells.len(),
        width >= 2,
        x + width <= stop,
        0 < j < width,
    ensures
        ({
            let (after, end) = write_clusters(
                cells,
                index,
                x,
                stop,
                seq![symbol],
                seq![width],
                style,
                0,
            );
            &&& end == x + width
            &&& after[index].symbol == symbol
            &&& after[index + j] == CellView::blank()
        }),
{
    reveal_with_fuel(write_clusters, 3);
}

/// The columns that are cut from the start of a text whose clusters have the
/// given widths, to make up for `overflow` columns: the widths of the leading
/// clusters, for as long as their sum stays within `overflow`. `k` counts the
/// clusters looked at, `cut` the columns cut so far.
pub open spec fn scroll_cut(widths: Seq<usize>, overflow: int, k: int, cut: int) -> int
    decreases widths.len() - k,
{
    if k < 0 || k >= widths.len() || cut + widths[k] > overflow {
        cut
    } else {
        scroll_cut(widths, overflow, k + 1, cut + widths[k])
    }
}

/// The columns to cut from the start of a text, given the widths of its
/// clusters, to make up for `overflow` columns.
pub fn scroll_skip(widths: &Vec<usize>, overflow: usize) -> (skip: usize)
    ensures
        skip == scroll_cut(widths@, overflow as int, 0, 0),
        skip <= overflow,
{
    let mut skip: usize = 0;
    let mut k: usize = 0;
    while k < widths.len()
        invariant_except_break
            k <= widths@.len(),
            scroll_cut(widths@, overflow as int, k as int, skip as int) == scroll_cut(
                widths@,
                overflow as int,
                0,
                0,
            ),
        invariant
            skip <= overflow,
        ensures
            skip == scroll_cut(widths@, overflow as int, 0, 0),
        decreases widths.len() - k,
    {
        if widths[k] <= overflow - skip {
            skip += widths[k];
        } else {
            break ;
        }
        k += 1;
    }
    skip
}

/// What is left of `text` after its first `skip` bytes, if a character starts there.
pub open spec fn text_tail(text: Seq<char>, skip: int) -> Option<Seq<char>> {
    let bytes = encode_utf8(text);
    if is_char_boundary(bytes, skip) {
        Some(decode_utf8(bytes.subrange(skip, bytes.len() as int)))
    } else {
        None
    }
}

/// What is left of `text` after its first `skip` bytes, if a character starts there.
pub fn tail_from(text: &str, skip: usize) -> (tail: Option<&str>)
    ensures
        match tail {
            Some(tail) => text_tail(text@, skip as int) == Some(tail@),
            None => text_tail(text@, skip as int) is None,
        },
{
    if text.is_char_boundary(skip) {
        let (_, tail) = text.split_at(skip);
        proof {
            vstd::utf8::encode_utf8_decode_utf8(tail@);
        }
        Some(tail)
    } else {
        None
    }
}

/// The columns that the first `n` spans take together.
pub open spec fn spans_width(spans: Seq<Text>, n: int) -> int
    decreases n,
{
    if n <= 0 {
        0
    } else {
        spans_width(spans, n - 1) + display_width(spans[n - 1].inner@)
    }
}

/// The columns by which the spans are wider than `width`.
pub open spec fn line_overflow(spans: Seq<Text>, width: u16) -> int {
    vstd::math::max(
        vstd::math::min(spans_width(spans, spans.len() as int), usize::MAX as int) - width,
        0,
    )
}

/// The style in which a span is drawn: the line's, if it has one.
pub open spec fn span_style(line_style: Option<Style>, span: Text) -> Style {
    match line_style {
        Some(style) => style,
        None => span.style,
    }
}

/// The cells, and the column reached, after the spans from the `k`-th on were
/// written one after the other from column `x` of row `y`, with `remaining`
/// columns to write into. Writing ends where no column remains or `x` has left
/// the grid. With `scroll`, columns are cut from the start of the spans to
/// make up for `overflow`: writing ends at a span that cannot be cut there.
pub open spec fn lines_written(
    cells: Seq<CellView>,
    grid: Rect,
    x: int,
    y: u16,
    spans: Seq<Text>,
    line_style: Option<Style>,
    remaining: int,
    scroll: bool,
    overflow: int,
    k: int,
) -> (Seq<CellView>, int)
    decreases spans.len() - k,
{
    if k < 0 || k >= spans.len() || remaining <= 0 || !grid.has_cell(x, y as int) {
        (cells, x)
    } else {
        let span = spans[k];
        let skip = if scroll && overflow > 0 {
            scroll_cut(cluster_widths(grapheme_clusters(span.inner@)), overflow, 0, 0)
        } else {
            0
        };
        let text = if scroll {
            text_tail(span.inner@, skip)
        } else {
            Some(span.inner@)
        };
        match text {
            None => (cells, x),
            Some(text) => {
                let (after, end) = string_written(
                    cells,
                    grid,
                    x as u16,
                    y,
                    text,
                    remaining as usize,
                    span_style(line_style, span),
                );
                lines_written(
                    after,
                    grid,
                    end,
                    y,
                    spans,
                    line_style,
                    remaining - (end - x),
                    scroll,
                    overflow - skip,
                    k + 1,
                )
            },
        }
    }
}

/// The display width of each cluster.
fn widths_of(clusters: &Vec<&str>) -> (widths: Vec<usize>)
    ensures
        widths@ == cluster_widths(cluster_views(clusters@)),
{
    let mut widths: Vec<usize> = Vec::with_capacity(clusters.len());
    let mut k: usize = 0;
    while k < clusters.len()
        invariant
            k <= clusters@.len(),
            widths@.len() == k,
            forall|i: int| 0 <= i < k ==> #[trigger] widths@[i] == display_width(clusters@[i]@),
        decreases clusters.len() - k,
    {
        widths.push(str_width(clusters[k]));
        k += 1;
    }
    assert(widths@ =~= cluster_widths(cluster_views(clusters@)));
    widths
}

/// The display width of each cluster of `text`.
fn cluster_widths_of(text: &str) -> (widths: Vec<usize>)
    ensures
        widths@ == cluster_widths(grapheme_clusters(text@)),
{
    let clusters = graphemes(text);
    assert(cluster_views(clusters@) =~= grapheme_clusters(text@));
    widths_of(&clusters)
}

impl Line {
    /// The columns that the spans take together, held at the largest number.
    pub fn width(&self) -> (w: usize)
        ensures
            w == vstd::math::min(spans_width(self.lines@, self.lines@.len() as int), usize::MAX as int),
    {
        let mut total: usize = 0;
        let mut k: usize = 0;
        while k < self.lines.len()
            invariant
                k <= self.lines@.len(),
                total == vstd::math::min(spans_width(self.lines@, k as int), usize::MAX as int),
                spans_width(self.lines@, k as int) >= 0,
            decreases self.lines.len() - k,
        {
            total = total.saturating_add(self.lines[k].width());
            k += 1;
        }
        total
    }
}

impl Buffer {
    /// Writes the spans of `lines` one after the other from column `x` of row
    /// `y`, within `width` columns. With `scroll`, a line that is too wide loses
    /// columns at its start rather than at its end. Returns the column that was
    /// reached, and `y`.
    pub fn set_lines(&mut self, x: u16, y: u16, lines: &Line, width: u16, scroll: bool) -> (end: (
        u16,
        u16,
    ))
        requires
            old(self).wf(),
        ensures
            final(self).wf(),
            final(self).area == old(self).area,
            (final(self)@, end.0 as int) == lines_written(
                old(self)@,
                old(self).area,
                x as int,
                y,
                lines.lines@,
                lines.style,
                width as int,
                scroll,
                line_overflow(lines.lines@, width),
                0,
            ),
            end.1 == y,
    {
        let ghost grid = self.area;
        let ghost spans = lines.lines@;
        let ghost start = x;
        let mut x = x;
        let mut remaining_width = width;
        let text_width = lines.width();
        let mut overflow = text_width.saturating_sub(width as usize);
        let mut k: usize = 0;
        while k < lines.lines.len()
            invariant_except_break
                k <= spans.len(),
                lines_written(
                    self@,
                    grid,
                    x as int,
                    y,
                    spans,
                    lines.style,
                    remaining_width as int,
                    scroll,
                    overflow as int,
                    k as int,
                ) == lines_written(
                    old(self)@,
                    grid,
                    start as int,
                    y,
                    spans,
                    lines.style,
                    width as int,
                    scroll,
                    line_overflow(spans, width),
                    0,
                ),
            invariant
                self.wf(),
                self.area == grid,
                spans == lines.lines@,
            ensures
                (self@, x as int) == lines_written(
                    old(self)@,
                    grid,
                    start as int,
                    y,
                    spans,
                    lines.style,
                    width as int,
                    scroll,
                    line_overflow(spans, width),
                    0,
                ),
            decreases lines.lines.len() - k,
        {
            if remaining_width == 0 || !(x >= self.area.left() && x < self.area.right() && y
                >= self.area.top() && y < self.area.bottom()) {
                break ;
            }
            let span = &lines.lines[k];
            let style = match lines.style {
                Some(style) => style,
                None => span.style,
            };
            let text = if scroll {
                let mut skip: usize = 0;
                if overflow > 0 {
                    let widths = cluster_widths_of(span.inner.as_str());
                    skip = scroll_skip(&widths, overflow);
                    overflow -= skip;
                }
                match tail_from(span.inner.as_str(), skip) {
                    Some(tail) => tail,
                    None => {
                        break ;
                    },
                }
            } else {
                span.inner.as_str()
            };
            let pos = self.set_stringn(x, y, text, remaining_width as usize, style);
            let w = pos.0.saturating_sub(x);
            x = pos.0;
            remaining_width = remaining_width.saturating_sub(w);
            k += 1;
        }
        (x, y)
    }
}

/// Writing clusters from place `index`, column `x` changes only the cells from
/// `index` up to where the writing ended, and ends before column `stop`.
pub proof fn lemma_write_clusters_frame(
    cells: Seq<CellView>,
    index: int,
    x: int,
    stop: int,
    clusters: Seq<Seq<char>>,
    widths: Seq<usize>,
    style: Style,
    k: int,
)
    ensures
        ({
            let (after, end) = write_clusters(cells, index, x, stop, clusters, widths, style, k);
            &&& after.len() == cells.len()
            &&& x <= end
            &&& end > x ==> end <= stop
            &&& forall|i: int|
                0 <= i < cells.len() && !(index <= i < index + (end - x)) ==> #[trigger] after[i]
                    == cells[i]
        }),
    decreases clusters.len() - k,
{
    if k < 0 || k >= clusters.len() {
    } else if widths[k] == 0 {
        lemma_write_clusters_frame(cells, index, x, stop, clusters, widths, style, k + 1);
    } else if x + widths[k] > stop {
    } else {
        let w = widths[k] as int;
        let first = written(cells, index, clusters[k], w, style);
        lemma_write_clusters_frame(first, index + w, x + w, stop, clusters, widths, style, k + 1);
        let (after, end) = write_clusters(cells, index, x, stop, clusters, widths, style, k);
        assert forall|i: int|
            0 <= i < cells.len() && !(index <= i < index + (end - x)) implies #[trigger] after[i]
            == cells[i] by {
            assert(after[i] == first[i]);
        }
    }
}

/// The single row of `width` cells from column `x` of row `y`.
pub open spec fn row_rect(x: u16, y: u16, width: u16) -> Rect {
    Rect { x, y, width, height: 1 }
}

/// Writing a text within `width` columns from column `x` of row `y` changes no
/// cell outside these columns of this row, and ends within them.
pub proof fn lemma_string_written_within(
    cells: Seq<CellView>,
    grid: Rect,
    x: u16,
    y: u16,
    text: Seq<char>,
    width: u16,
    style: Style,
)
    requires
        cells.len() == grid.width * grid.height,
    ensures
        ({
            let (after, end) = string_written(cells, grid, x, y, text, width as usize, style);
            &&& after.len() == cells.len()
            &&& x <= end <= x + width
            &&& forall|i: int|
                0 <= i < cells.len() && !cell_in(grid, row_rect(x, y, width), i)
                    ==> #[trigger] after[i] == cells[i]
        }),
{
    if grid.has_cell(x as int, y as int) {
        let index = index_at(grid, x as int, y as int);
        let stop = stop_column(grid, x, width as usize);
        let clusters = grapheme_clusters(text);
        lemma_write_clusters_frame(
            cells,
            index,
            x as int,
            stop,
            clusters,
            cluster_widths(clusters),
            style,
            0,
        );
        let (after, end) = string_written(cells, grid, x, y, text, width as usize, style);
        assert forall|i: int|
            0 <= i < cells.len() && !cell_in(grid, row_rect(x, y, width), i) implies #[trigger] after[i]
            == cells[i] by {
            if index <= i < index + (end - x) {
                let column = x + (i - index);
                lemma_place_of_cell(grid, column, y as int);
                assert(index_at(grid, column, y as int) == i);
                assert(row_rect(x, y, width).has_cell(column, y as int));
            }
        }
    }
}

/// Writing spans within `remaining` columns from column `x` of row `y` changes
/// no cell outside the row of `width` cells from column `from` that holds
/// these columns, and ends within them.
pub proof fn lemma_lines_written_within(
    cells: Seq<CellView>,
    grid: Rect,
    x: int,
    y: u16,
    spans: Seq<Text>,
    line_style: Option<Style>,
    remaining: int,
    scroll: bool,
    overflow: int,
    k: int,
    from: u16,
    width: u16,
)
    requires
        cells.len() == grid.width * grid.height,
        from <= x,
        0 <= remaining,
        x + remaining <= from + width,
    ensures
        ({
            let (after, end) = lines_written(
                cells,
                grid,
                x,
                y,
                spans,
                line_style,
                remaining,
                scroll,
                overflow,
                k,
            );
            &&& after.len() == cells.len()
            &&& x <= end <= x + remaining
            &&& forall|i: int|
                0 <= i < cells.len() && !cell_in(grid, row_rect(from, y, width), i)
                    ==> #[trigger] after[i] == cells[i]
        }),
    decreases spans.len() - k,
{
    if k < 0 || k >= spans.len() || remaining <= 0 || !grid.has_cell(x, y as int) {
    } else {
        let span = spans[k];
        let skip = if scroll && overflow > 0 {
            scroll_cut(cluster_widths(grapheme_clusters(span.inner@)), overflow, 0, 0)
        } else {
            0
        };
        let text = if scroll {
            text_tail(span.inner@, skip)
        } else {
            Some(span.inner@)
        };
        if let Some(text) = text {
            let style = span_style(line_style, span);
            lemma_string_written_within(cells, grid, x as u16, y, text, remaining as u16, style);
            let (first, reached) = string_written(
                cells,
                grid,
                x as u16,
                y,
                text,
                remaining as usize,
                style,
            );
            lemma_lines_written_within(
                first,
                grid,
                reached,
                y,
                spans,
                line_style,
                remaining - (reached - x),
                scroll,
                overflow - skip,
                k + 1,
                from,
                width,
            );
            let (after, end) = lines_written(
                cells,
                grid,
                x,
                y,
                spans,
                line_style,
                remaining,
                scroll,
                overflow,
                k,
            );
            assert forall|i: int|
                0 <= i < cells.len() && !cell_in(grid, row_rect(from, y, width), i) implies #[trigger] after[i]
                == cells[i] by {
                assert(!cell_in(grid, row_rect(x as u16, y, remaining as u16), i));
                assert(after[i] == first[i]);
            }
        }
    }
}

} // verus!
