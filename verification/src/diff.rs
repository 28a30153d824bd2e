//! The difference between two frames: the cells that have to be drawn again.

use crate::buffer::{Buffer, Cell, CellView};
use crate::trusted::{display_width, str_width};
use vstd::prelude::*;

verus! {

/// The columns that a symbol takes beyond its own cell.
pub open spec fn trailing(width: usize) -> int {
    if width >= 1 {
        width - 1
    } else {
        0
    }
}

/// How many columns the symbol just before place `i` of the new frame reaches
/// into place `i`. A cell under such a symbol is never drawn by itself.
pub open spec fn skip_at(next_widths: Seq<usize>, i: int) -> int {
    if i <= 0 {
        0
    } else {
        trailing(next_widths[i - 1])
    }
}

/// How many cells from place `i` on have to be drawn again whether or not they
/// changed, because a symbol further left, old or new, reaches over them.
pub open spec fn invalidated_at(prev_widths: Seq<usize>, next_widths: Seq<usize>, i: int) -> int
    decreases i,
{
    if i <= 0 {
        0
    } else {
        let reach = vstd::math::max(
            vstd::math::max(next_widths[i - 1] as int, prev_widths[i - 1] as int),
            invalidated_at(prev_widths, next_widths, i - 1),
        );
        if reach >= 1 {
            reach - 1
        } else {
            0
        }
    }
}

/// Whether the cell at place `i` belongs to the difference: it is not hidden
/// under the symbol before it, and it changed or was invalidated.
pub open spec fn emitted(
    prev: Seq<CellView>,
    next: Seq<CellView>,
    prev_widths: Seq<usize>,
    next_widths: Seq<usize>,
    i: int,
) -> bool {
    &&& skip_at(next_widths, i) == 0
    &&& (next[i] != prev[i] || invalidated_at(prev_widths, next_widths, i) > 0)
}

/// The update that draws the cell at place `i` of a grid `width` columns wide.
pub open spec fn update_at(next: Seq<CellView>, width: u16, i: int) -> (u16, u16, CellView) {
    ((i % (width as int)) as u16, (i / (width as int)) as u16, next[i])
}

/// The difference among the first `n` places, in row-major order.
pub open spec fn diff_upto(
    prev: Seq<CellView>,
    next: Seq<CellView>,
    prev_widths: Seq<usize>,
    next_widths: Seq<usize>,
    width: u16,
    n: int,
) -> Seq<(u16, u16, CellView)>
    decreases n,
{
    if n <= 0 {
        Seq::empty()
    } else {
        let before = diff_upto(prev, next, prev_widths, next_widths, width, n - 1);
        if emitted(prev, next, prev_widths, next_widths, n - 1) {
            before.push(update_at(next, width, n - 1))
        } else {
            before
        }
    }
}

/// The difference between the frame `prev` and the frame `next`, two grids
/// `width` columns wide, given the display width of each cell's symbol.
pub open spec fn diff_spec(
    prev: Seq<CellView>,
    next: Seq<CellView>,
    prev_widths: Seq<usize>,
    next_widths: Seq<usize>,
    width: u16,
) -> Seq<(u16, u16, CellView)> {
    diff_upto(prev, next, prev_widths, next_widths, width, next.len() as int)
}

/// Every cell of a frame, in row-major order.
pub open spec fn full_spec(cells: Seq<CellView>, width: u16) -> Seq<(u16, u16, CellView)> {
    Seq::new(cells.len(), |i: int| update_at(cells, width, i))
}

/// The display width of each cell's symbol.
pub open spec fn widths_of(cells: Seq<CellView>) -> Seq<usize> {
    Seq::new(cells.len(), |i: int| display_width(cells[i].symbol))
}

/// A list of updates, each cell as plain values.
pub open spec fn update_views(updates: Seq<(u16, u16, &Cell)>) -> Seq<(u16, u16, CellView)> {
    Seq::new(updates.len(), |i: int| (updates[i].0, updates[i].1, updates[i].2@))
}

/// The coordinates that stand for place `i` of a grid lie in the grid.
pub proof fn lemma_place_in_grid(width: u16, height: u16, i: int)
    requires
        0 <= i < width * height,
    ensures
        width > 0,
        0 <= i % (width as int) < width,
        0 <= i / (width as int) < height,
{
    let w = width as int;
    let h = height as int;
    assert(w > 0) by (nonlinear_arith)
        requires
            0 <= i < w * h,
            w >= 0,
    ;
    assert(0 <= i % w < w && 0 <= i / w && i == w * (i / w) + i % w) by (nonlinear_arith)
        requires
            w > 0,
            i >= 0,
    ;
    assert(i / w < h) by (nonlinear_arith)
        requires
            i == w * (i / w) + i % w,
            0 <= i % w,
            i < w * h,
            w > 0,
    ;
}

impl Buffer {
    /// The display width of the symbol in each cell.
    pub fn symbol_widths(&self) -> (widths: Vec<usize>)
        ensures
            widths@ == widths_of(self@),
    {
        let mut widths: Vec<usize> = Vec::with_capacity(self.content.len());
        let mut i: usize = 0;
        while i < self.content.len()
            invariant
                i <= self.content@.len(),
                widths@.len() == i,
                forall|j: int| 0 <= j < i ==> #[trigger] widths@[j] == display_width(self@[j].symbol),
            decreases self.content.len() - i,
        {
            widths.push(str_width(self.content[i].symbol.as_str()));
            i += 1;
        }
        widths
    }

    /// The cells of `other` that have to be drawn over a screen that shows
    /// `self`, where `widths` and `other_widths` give the display width of each
    /// symbol of `self` and of `other`.
    pub fn diff_by_widths<'a>(
        &self,
        other: &'a Buffer,
        widths: &Vec<usize>,
        other_widths: &Vec<usize>,
    ) -> (updates: Vec<(u16, u16, &'a Cell)>)
        requires
            self.wf(),
            other.wf(),
            self.area == other.area,
            widths@.len() == self@.len(),
            other_widths@.len() == other@.len(),
        ensures
            update_views(updates@) == diff_spec(
                self@,
                other@,
                widths@,
                other_widths@,
                self.area.width,
            ),
            forall|k: int|
                0 <= k < updates@.len() ==> (#[trigger] updates@[k]).0 < self.area.width
                    && updates@[k].1 < self.area.height,
    {
        let width = self.area.width;
        let mut updates: Vec<(u16, u16, &Cell)> = Vec::new();
        let mut invalidated: usize = 0;
        let mut to_skip: usize = 0;
        let mut i: usize = 0;
        while i < other.content.len()
            invariant
                self.wf(),
                other.wf(),
                self.area == other.area,
                width == self.area.width,
                widths@.len() == self@.len(),
                other_widths@.len() == other@.len(),
                i <= other.content@.len(),
                forall|k: int|
                    0 <= k < updates@.len() ==> (#[trigger] updates@[k]).0 < self.area.width
                        && updates@[k].1 < self.area.height,
                to_skip == skip_at(other_widths@, i as int),
                invalidated == invalidated_at(widths@, other_widths@, i as int),
                update_views(updates@) == diff_upto(
                    self@,
                    other@,
                    widths@,
                    other_widths@,
                    width,
                    i as int,
                ),
            decreases other.content.len() - i,
        {
            let current = &other.content[i];
            let previous = &self.content[i];
            let ghost before = update_views(updates@);
            proof {
                lemma_place_in_grid(self.area.width, self.area.height, i as int);
            }
            if (current != previous || invalidated > 0) && to_skip == 0 {
                let x = i as u16 % width;
                let y = i as u16 / width;
                updates.push((x, y, current));
                assert(update_views(updates@) =~= before.push(
                    update_at(other@, width, i as int),
                ));
            } else {
                assert(update_views(updates@) =~= before);
            }
            to_skip = other_widths[i].saturating_sub(1);
            let affected = if other_widths[i] >= widths[i] {
                other_widths[i]
            } else {
                widths[i]
            };
            let reach = if affected >= invalidated {
                affected
            } else {
                invalidated
            };
            invalidated = reach.saturating_sub(1);
            i += 1;
        }
        updates
    }

    /// The cells of `other` that have to be drawn over a screen that shows
    /// `self`, in row-major order. A cell is left out where it is equal in both
    /// and no wider symbol reached over it, and where it lies under a wide
    /// symbol of `other`.
    pub fn diff<'a>(&self, other: &'a Buffer) -> (updates: Vec<(u16, u16, &'a Cell)>)
        requires
            self.wf(),
            other.wf(),
            self.area == other.area,
        ensures
            update_views(updates@) == diff_spec(
                self@,
                other@,
                widths_of(self@),
                widths_of(other@),
                self.area.width,
            ),
            forall|k: int|
                0 <= k < updates@.len() ==> (#[trigger] updates@[k]).0 < self.area.width
                    && updates@[k].1 < self.area.height,
    {
        let widths = self.symbol_widths();
        let other_widths = other.symbol_widths();
        self.diff_by_widths(other, &widths, &other_widths)
    }

    /// Every cell with its coordinates, in row-major order: what a full redraw
    /// draws.
    pub fn to_vec<'a>(&'a self) -> (updates: Vec<(u16, u16, &'a Cell)>)
        requires
            self.wf(),
        ensures
            update_views(updates@) == full_spec(self@, self.area.width),
            forall|k: int|
                0 <= k < updates@.len() ==> (#[trigger] updates@[k]).0 < self.area.width
                    && updates@[k].1 < self.area.height,
    {
        let width = self.area.width;
        let mut updates: Vec<(u16, u16, &Cell)> = Vec::with_capacity(self.content.len());
        let mut i: usize = 0;
        while i < self.content.len()
            invariant
                self.wf(),
                width == self.area.width,
                i <= self.content@.len(),
                updates@.len() == i,
                forall|k: int|
                    0 <= k < updates@.len() ==> (#[trigger] updates@[k]).0 < self.area.width
                        && updates@[k].1 < self.area.height,
                forall|j: int|
                    0 <= j < i ==> #[trigger] update_views(updates@)[j] == update_at(
                        self@,
                        width,
                        j,
                    ),
            decreases self.content.len() - i,
        {
            proof {
                lemma_place_in_grid(self.area.width, self.area.height, i as int);
            }
            let x = i as u16 % width;
            let y = i as u16 / width;
            let ghost before = update_views(updates@);
            updates.push((x, y, &self.content[i]));
            assert(update_views(updates@) =~= before.push(update_at(self@, width, i as int)));
            i += 1;
        }
        assert(update_views(updates@) =~= full_spec(self@, width));
        updates
    }
}

/// A frame after `updates` were drawn over it, one after the other. An update
/// past the end of the frame draws nothing.
pub open spec fn overlay(base: Seq<CellView>, updates: Seq<(u16, u16, CellView)>, width: u16) -> Seq<
    CellView,
>
    decreases updates.len(),
{
    if updates.len() == 0 {
        base
    } else {
        let below = overlay(base, updates.drop_last(), width);
        let last = updates.last();
        let place = last.1 * width + last.0;
        if place < below.len() {
            below.update(place, last.2)
        } else {
            below
        }
    }
}

/// The frame that shows `next` wherever place `i < n` belongs to the
/// difference, and `prev` everywhere else.
pub open spec fn patched(
    prev: Seq<CellView>,
    next: Seq<CellView>,
    prev_widths: Seq<usize>,
    next_widths: Seq<usize>,
    n: int,
) -> Seq<CellView> {
    Seq::new(
        prev.len(),
        |i: int|
            if i < n && emitted(prev, next, prev_widths, next_widths, i) {
                next[i]
            } else {
                prev[i]
            },
    )
}

/// An update made for place `i` of a grid draws at place `i`.
proof fn lemma_update_place(next: Seq<CellView>, width: u16, i: int)
    requires
        width > 0,
        0 <= i <= 0xffff,
    ensures
        update_at(next, width, i).1 * width + update_at(next, width, i).0 == i,
{
    let w = width as int;
    assert(0 <= i % w < w && 0 <= i / w <= i && i == w * (i / w) + i % w) by (nonlinear_arith)
        requires
            w > 0,
            i >= 0,
    ;
    assert((i / w) * w == w * (i / w)) by (nonlinear_arith);
}

/// Drawing the difference among the first `n` places over `prev` gives `patched`.
proof fn lemma_overlay_diff(
    prev: Seq<CellView>,
    next: Seq<CellView>,
    prev_widths: Seq<usize>,
    next_widths: Seq<usize>,
    width: u16,
    n: int,
)
    requires
        width > 0,
        prev.len() == next.len(),
        prev.len() <= 0xffff,
        0 <= n <= prev.len(),
    ensures
        overlay(prev, diff_upto(prev, next, prev_widths, next_widths, width, n), width) == patched(
            prev,
            next,
            prev_widths,
            next_widths,
            n,
        ),
    decreases n,
{
    if n == 0 {
        assert(patched(prev, next, prev_widths, next_widths, 0) =~= prev);
    } else {
        lemma_overlay_diff(prev, next, prev_widths, next_widths, width, n - 1);
        let before = diff_upto(prev, next, prev_widths, next_widths, width, n - 1);
        if emitted(prev, next, prev_widths, next_widths, n - 1) {
            let update = update_at(next, width, n - 1);
            lemma_update_place(next, width, n - 1);
            assert(before.push(update).drop_last() =~= before);
            assert(before.push(update).last() == update);
            assert(patched(prev, next, prev_widths, next_widths, n - 1).update(n - 1, next[n - 1])
                =~= patched(prev, next, prev_widths, next_widths, n));
        } else {
            assert(patched(prev, next, prev_widths, next_widths, n - 1) =~= patched(
                prev,
                next,
                prev_widths,
                next_widths,
                n,
            ));
        }
    }
}

/// The difference between two frames, drawn over the first, gives the second
/// exactly when the two agree in every cell that lies under a wide symbol of
/// the second: such a cell is hidden on the screen and is never drawn.
pub proof fn law_diff_overlay(a: Buffer, b: Buffer)
    requires
        a.wf(),
        b.wf(),
        a.area == b.area,
    ensures
        overlay(
            a@,
            diff_spec(a@, b@, widths_of(a@), widths_of(b@), a.area.width),
            a.area.width,
        ) == b@ <==> forall|i: int|
            0 <= i < b@.len() && skip_at(widths_of(b@), i) > 0 ==> a@[i] == b@[i],
{
    let pw = widths_of(a@);
    let nw = widths_of(b@);
    let width = a.area.width;
    if a@.len() == 0 {
        assert(overlay(a@, diff_spec(a@, b@, pw, nw, width), width) =~= b@);
    } else {
        assert(width > 0) by (nonlinear_arith)
            requires
                0 < a.area.width * a.area.height,
                width == a.area.width,
        ;
        lemma_overlay_diff(a@, b@, pw, nw, width, a@.len() as int);
        let result = patched(a@, b@, pw, nw, a@.len() as int);
        if forall|i: int| 0 <= i < b@.len() && skip_at(nw, i) > 0 ==> a@[i] == b@[i] {
            assert(result =~= b@);
        }
        if result == b@ {
            assert forall|i: int| 0 <= i < b@.len() && skip_at(nw, i) > 0 implies a@[i]
                == b@[i] by {
                assert(result[i] == a@[i]);
            }
        }
    }
}

/// Where no place is emitted, the difference is empty.
proof fn lemma_diff_none(
    prev: Seq<CellView>,
    next: Seq<CellView>,
    prev_widths: Seq<usize>,
    next_widths: Seq<usize>,
    width: u16,
    n: int,
)
    requires
        forall|i: int| 0 <= i < n ==> !emitted(prev, next, prev_widths, next_widths, i),
    ensures
        diff_upto(prev, next, prev_widths, next_widths, width, n) == Seq::<
            (u16, u16, CellView),
        >::empty(),
    decreases n,
{
    if n > 0 {
        lemma_diff_none(prev, next, prev_widths, next_widths, width, n - 1);
    }
}

/// The update of an emitted place is in the difference, and the difference is
/// no longer than the frame.
proof fn lemma_diff_some(
    prev: Seq<CellView>,
    next: Seq<CellView>,
    prev_widths: Seq<usize>,
    next_widths: Seq<usize>,
    width: u16,
    n: int,
    i: int,
)
    requires
        0 <= i < n,
        emitted(prev, next, prev_widths, next_widths, i),
    ensures
        diff_upto(prev, next, prev_widths, next_widths, width, n).contains(
            update_at(next, width, i),
        ),
    decreases n,
{
    let before = diff_upto(prev, next, prev_widths, next_widths, width, n - 1);
    if i == n - 1 {
        let all = before.push(update_at(next, width, i));
        assert(all[before.len() as int] == update_at(next, width, i));
    } else {
        lemma_diff_some(prev, next, prev_widths, next_widths, width, n - 1, i);
        let k = choose|k: int| 0 <= k < before.len() && before[k] == update_at(next, width, i);
        if emitted(prev, next, prev_widths, next_widths, n - 1) {
            assert(before.push(update_at(next, width, n - 1))[k] == update_at(next, width, i));
        }
    }
}

/// Where no symbol is wider than two columns, whatever was invalidated lies
/// under the wide symbol just before it.
proof fn lemma_invalidated_narrow(widths: Seq<usize>, i: int)
    requires
        0 <= i <= widths.len(),
        forall|j: int| 0 <= j < widths.len() ==> widths[j] <= 2,
    ensures
        invalidated_at(widths, widths, i) <= 1,
        invalidated_at(widths, widths, i) > 0 ==> skip_at(widths, i) > 0,
    decreases i,
{
    if i > 0 {
        lemma_invalidated_narrow(widths, i - 1);
    }
}

/// A cell that is drawn again although the frame did not change: no wide
/// symbol hides it, and a symbol further left reached over it.
pub open spec fn stale(widths: Seq<usize>, i: int) -> bool {
    skip_at(widths, i) == 0 && invalidated_at(widths, widths, i) > 0
}

/// The difference between a frame and itself is empty, but for the cells that
/// a symbol of three or more columns leaves stale.
pub proof fn law_diff_self(a: Buffer)
    requires
        a.wf(),
    ensures
        diff_spec(a@, a@, widths_of(a@), widths_of(a@), a.area.width) == Seq::<
            (u16, u16, CellView),
        >::empty() <==> forall|i: int| 0 <= i < a@.len() ==> !stale(widths_of(a@), i),
{
    let w = widths_of(a@);
    let width = a.area.width;
    let n = a@.len() as int;
    if forall|i: int| 0 <= i < n ==> !stale(w, i) {
        assert forall|i: int| 0 <= i < n implies !emitted(a@, a@, w, w, i) by {
            assert(!stale(w, i));
        }
        lemma_diff_none(a@, a@, w, w, width, n);
    } else {
        let i = choose|i: int| 0 <= i < n && stale(w, i);
        lemma_diff_some(a@, a@, w, w, width, n, i);
    }
}

/// The difference between a frame and itself is empty where no symbol is wider
/// than two columns.
pub proof fn law_diff_self_narrow(a: Buffer)
    requires
        a.wf(),
        forall|i: int| 0 <= i < a@.len() ==> display_width(a@[i].symbol) <= 2,
    ensures
        diff_spec(a@, a@, widths_of(a@), widths_of(a@), a.area.width) == Seq::<
            (u16, u16, CellView),
        >::empty(),
{
    let w = widths_of(a@);
    assert forall|i: int| 0 <= i < a@.len() implies !stale(w, i) by {
        lemma_invalidated_narrow(w, i);
    }
    law_diff_self(a);
}

/// A full redraw of a frame over any screen of its size shows the frame, and
/// the difference that follows it is that of the frame with itself: empty
/// where no symbol is wider than two columns.
pub proof fn law_full_redraw(screen: Seq<CellView>, a: Buffer)
    requires
        a.wf(),
        screen.len() == a@.len(),
    ensures
        overlay(screen, full_spec(a@, a.area.width), a.area.width) == a@,
        (forall|i: int| 0 <= i < a@.len() ==> display_width(a@[i].symbol) <= 2) ==> diff_spec(
            overlay(screen, full_spec(a@, a.area.width), a.area.width),
            a@,
            widths_of(a@),
            widths_of(a@),
            a.area.width,
        ) == Seq::<(u16, u16, CellView)>::empty(),
{
    let width = a.area.width;
    if a@.len() == 0 {
        assert(full_spec(a@, width) =~= Seq::<(u16, u16, CellView)>::empty());
        assert(overlay(screen, full_spec(a@, width), width) =~= a@);
    } else {
        assert(width > 0) by (nonlinear_arith)
            requires
                0 < a.area.width * a.area.height,
                width == a.area.width,
        ;
        lemma_overlay_full(screen, a@, width, a@.len() as int);
        assert(full_spec(a@, width).subrange(0, a@.len() as int) =~= full_spec(a@, width));
        assert(overlay(screen, full_spec(a@, width), width) =~= a@);
    }
    if forall|i: int| 0 <= i < a@.len() ==> display_width(a@[i].symbol) <= 2 {
        law_diff_self_narrow(a);
    }
}

/// The first `n` updates of a full redraw replace the first `n` cells.
proof fn lemma_overlay_full(screen: Seq<CellView>, cells: Seq<CellView>, width: u16, n: int)
    requires
        width > 0,
        screen.len() == cells.len(),
        cells.len() <= 0xffff,
        0 <= n <= cells.len(),
    ensures
        overlay(screen, full_spec(cells, width).subrange(0, n), width) == Seq::new(
            screen.len(),
            |i: int|
                if i < n {
                    cells[i]
                } else {
                    screen[i]
                },
        ),
    decreases n,
{
    let updates = full_spec(cells, width).subrange(0, n);
    let target = Seq::new(
        screen.len(),
        |i: int|
            if i < n {
                cells[i]
            } else {
                screen[i]
            },
    );
    if n == 0 {
        assert(overlay(screen, updates, width) =~= target);
    } else {
        lemma_overlay_full(screen, cells, width, n - 1);
        lemma_update_place(cells, width, n - 1);
        assert(updates.drop_last() =~= full_spec(cells, width).subrange(0, n - 1));
        assert(updates.last() == update_at(cells, width, n - 1));
        assert(overlay(screen, updates, width) =~= target);
    }
}

/// Where a wide symbol of the old frame gives way to a narrow one, the cell
/// after it is drawn again, changed or not, and so is the cell itself unless
/// it lies under a wide symbol of the new frame: nothing of the old symbol
/// stays on the screen.
pub proof fn law_wide_replacement(a: Buffer, b: Buffer, i: int)
    requires
        a.wf(),
        b.wf(),
        a.area == b.area,
        0 <= i,
        i + 1 < a@.len(),
        display_width(a@[i].symbol) >= 2,
        display_width(b@[i].symbol) <= 1,
    ensures
        diff_spec(a@, b@, widths_of(a@), widths_of(b@), a.area.width).contains(
            update_at(b@, a.area.width, i + 1),
        ),
        skip_at(widths_of(b@), i) == 0 ==> diff_spec(
            a@,
            b@,
            widths_of(a@),
            widths_of(b@),
            a.area.width,
        ).contains(update_at(b@, a.area.width, i)),
{
    let pw = widths_of(a@);
    let nw = widths_of(b@);
    assert(invalidated_at(pw, nw, i + 1) >= 1);
    assert(emitted(a@, b@, pw, nw, i + 1));
    lemma_diff_some(a@, b@, pw, nw, a.area.width, a@.len() as int, i + 1);
    if skip_at(nw, i) == 0 {
        assert(a@[i].symbol != b@[i].symbol);
        assert(emitted(a@, b@, pw, nw, i));
        lemma_diff_some(a@, b@, pw, nw, a.area.width, a@.len() as int, i);
    }
}

/// The place in a grid `width` columns wide at which an update draws.
pub open spec fn place_of(update: (u16, u16, CellView), width: u16) -> int {
    update.1 * width + update.0
}

/// Every update of the difference among the first `n` places draws at a place
/// before the `n`-th that is emitted, and draws the cell of the new frame there.
/// The updates come in the order of their places.
proof fn lemma_diff_places(
    prev: Seq<CellView>,
    next: Seq<CellView>,
    prev_widths: Seq<usize>,
    next_widths: Seq<usize>,
    width: u16,
    n: int,
)
    requires
        width > 0,
        0 <= n <= next.len() <= 0xffff,
    ensures
        forall|k: int|
            #![trigger diff_upto(prev, next, prev_widths, next_widths, width, n)[k]]
            0 <= k < diff_upto(prev, next, prev_widths, next_widths, width, n).len() ==> {
                let update = diff_upto(prev, next, prev_widths, next_widths, width, n)[k];
                let place = place_of(update, width);
                &&& 0 <= place < n
                &&& emitted(prev, next, prev_widths, next_widths, place)
                &&& update == update_at(next, width, place)
                &&& k > 0 ==> place_of(
                    diff_upto(prev, next, prev_widths, next_widths, width, n)[k - 1],
                    width,
                ) < place
            },
    decreases n,
{
    if n > 0 {
        lemma_diff_places(prev, next, prev_widths, next_widths, width, n - 1);
        lemma_update_place(next, width, n - 1);
        let before = diff_upto(prev, next, prev_widths, next_widths, width, n - 1);
        let all = diff_upto(prev, next, prev_widths, next_widths, width, n);
        assert forall|k: int| #![trigger all[k]] 0 <= k < all.len() implies {
            let place = place_of(all[k], width);
            &&& 0 <= place < n
            &&& emitted(prev, next, prev_widths, next_widths, place)
            &&& all[k] == update_at(next, width, place)
            &&& k > 0 ==> place_of(all[k - 1], width) < place
        } by {
            if k < before.len() {
                assert(all[k] == before[k]);
                if k > 0 {
                    assert(all[k - 1] == before[k - 1]);
                }
            } else {
                assert(all[k] == update_at(next, width, n - 1));
                if k > 0 {
                    assert(all[k - 1] == before[k - 1]);
                }
            }
        }
    }
}

/// The difference lists its updates in row-major order, each place once: every
/// update draws the cell of the new frame at a place that is emitted, and at a
/// later place than the update before it.
pub proof fn law_diff_row_major(a: Buffer, b: Buffer, k: int)
    requires
        a.wf(),
        b.wf(),
        a.area == b.area,
        0 <= k < diff_spec(a@, b@, widths_of(a@), widths_of(b@), a.area.width).len(),
    ensures
        ({
            let diff = diff_spec(a@, b@, widths_of(a@), widths_of(b@), a.area.width);
            let place = place_of(diff[k], a.area.width);
            &&& 0 <= place < b@.len()
            &&& emitted(a@, b@, widths_of(a@), widths_of(b@), place)
            &&& diff[k] == update_at(b@, a.area.width, place)
            &&& k > 0 ==> place_of(diff[k - 1], a.area.width) < place
        }),
{
    if b@.len() > 0 {
        lemma_place_in_grid(a.area.width, a.area.height, 0);
        lemma_diff_places(
            a@,
            b@,
            widths_of(a@),
            widths_of(b@),
            a.area.width,
            b@.len() as int,
        );
    }
}

/// A cell under a wide symbol of the new frame is in no update: the symbol
/// covers it on the screen, and drawing it would cut the symbol in two.
pub proof fn law_covered_cell_not_drawn(a: Buffer, b: Buffer, i: int, k: int)
    requires
        a.wf(),
        b.wf(),
        a.area == b.area,
        0 <= i,
        i + 1 < b@.len(),
        display_width(b@[i].symbol) >= 2,
        0 <= k < diff_spec(a@, b@, widths_of(a@), widths_of(b@), a.area.width).len(),
    ensures
        place_of(diff_spec(a@, b@, widths_of(a@), widths_of(b@), a.area.width)[k], a.area.width)
            != i + 1,
{
    law_diff_row_major(a, b, k);
}

} // verus!
