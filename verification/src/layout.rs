//! Rectangles in cell coordinates.

use vstd::prelude::*;

verus! {

#[derive(Debug, Clone, Copy, PartialEq, Eq, Structural)]
pub enum Corner {
    TopLeft,
    TopRight,
    BottomRight,
    BottomLeft,
}

#[derive(Debug, Clone, Copy, PartialEq, Eq, Structural)]
pub enum Direction {
    Horizontal,
    Vertical,
}

#[derive(Debug, Clone, Copy, PartialEq, Eq, Structural)]
pub enum Constraint {
    Percentage(u16),
    Length(u16),
    Fill,
}

#[derive(Debug, Clone, Copy, PartialEq, Eq, Structural)]
pub enum Alignment {
    Left,
    Center,
    Right,
}

impl Default for Alignment {
    fn default() -> (a: Alignment)
        ensures
            a == Alignment::Left,
    {
        Alignment::Left
    }
}

/// The largest area, in cells, that a rectangle may cover.
pub const MAX_AREA: u16 = 0xffff;

/// An axis-aligned rectangle of cells: its top-left corner and its size.
#[derive(Debug, Clone, Copy, Hash, PartialEq, Eq, Structural)]
pub struct Rect {
    pub x: u16,
    pub y: u16,
    pub width: u16,
    pub height: u16,
}

impl Default for Rect {
    fn default() -> (r: Rect)
        ensures
            r == (Rect { x: 0, y: 0, width: 0, height: 0 }),
    {
        Rect { x: 0, y: 0, width: 0, height: 0 }
    }
}

/// Whether `n` is the largest number whose square, scaled by `den`, stays within
/// `MAX_AREA` scaled by `num`: the floor of the square root of `MAX_AREA * num / den`.
pub open spec fn is_clipped_side(n: int, num: int, den: int) -> bool {
    &&& 0 <= n
    &&& n * n * den <= MAX_AREA * num
    &&& MAX_AREA * num < (n + 1) * (n + 1) * den
}

/// The largest `n` with `n * n * den <= MAX_AREA * num`.
fn clipped_side(num: u16, den: u16) -> (n: u16)
    requires
        num > 0,
        den > 0,
    ensures
        is_clipped_side(n as int, num as int, den as int),
{
    let target: u64 = 0xffff * (num as u64);
    let d: u64 = den as u64;
    let mut lo: u64 = 0;
    let mut hi: u64 = 0x10000;
    assert(0x10000 * 0x10000 * d > target) by (nonlinear_arith)
        requires
            d >= 1,
            target <= 0xffff * 0xffff,
    ;
    assert(lo * lo * d == 0) by (nonlinear_arith)
        requires
            lo == 0,
    ;
    while hi - lo > 1
        invariant
            0 <= lo < hi <= 0x10000,
            1 <= d <= 0xffff,
            target == 0xffff * (num as int),
            lo * lo * d <= target,
            target < hi * hi * d,
        decreases hi - lo,
    {
        let mid: u64 = lo + (hi - lo) / 2;
        assert(mid * mid <= 0x10000 * 0x10000) by (nonlinear_arith)
            requires
                0 <= mid <= 0x10000,
        ;
        assert(mid * mid * d <= 0x10000 * 0x10000 * 0xffff) by (nonlinear_arith)
            requires
                0 <= mid * mid <= 0x10000 * 0x10000,
                0 <= d <= 0xffff,
        ;
        if mid * mid * d <= target {
            lo = mid;
        } else {
            hi = mid;
        }
    }
    assert(hi == lo + 1);
    assert(lo < 0x10000);
    lo as u16
}

/// A side clipped to the square root keeps the product of both sides within `MAX_AREA`.
proof fn lemma_clipped_fits(w: int, h: int, width: int, height: int)
    requires
        width > 0,
        height > 0,
        0 <= w,
        0 <= h,
        w * w * height <= MAX_AREA * width,
        h * h * width <= MAX_AREA * height,
    ensures
        w * h <= MAX_AREA,
{
    if w * h > MAX_AREA {
        let m = MAX_AREA as int;
        assert((w * w * height) * (h * h * width) <= (m * width) * (m * height)) by (nonlinear_arith)
            requires
                0 <= w * w * height <= m * width,
                0 <= h * h * width <= m * height,
        ;
        assert((w * w * height) * (h * h * width) == (w * h) * (w * h) * (width * height))
            by (nonlinear_arith);
        assert((m * width) * (m * height) == m * m * (width * height)) by (nonlinear_arith);
        assert((w * h) * (w * h) > m * m) by (nonlinear_arith)
            requires
                w * h > m,
                m >= 0,
        ;
        assert(width * height > 0) by (nonlinear_arith)
            requires
                width > 0,
                height > 0,
        ;
        assert((w * h) * (w * h) * (width * height) > m * m * (width * height))
            by (nonlinear_arith)
            requires
                (w * h) * (w * h) > m * m,
                width * height > 0,
        ;
    }
}

impl Rect {
    /// Whether the rectangle's area can be counted in sixteen bits.
    pub open spec fn fits(self) -> bool {
        self.width * self.height <= MAX_AREA
    }

    pub open spec fn spec_area(self) -> u16 {
        (self.width * self.height) as u16
    }

    pub open spec fn spec_left(self) -> u16 {
        self.x
    }

    pub open spec fn spec_top(self) -> u16 {
        self.y
    }

    /// The column just past the right edge, held at the largest column.
    pub open spec fn spec_right(self) -> u16 {
        if self.x + self.width > u16::MAX {
            u16::MAX
        } else {
            (self.x + self.width) as u16
        }
    }

    /// The row just past the bottom edge, held at the largest row.
    pub open spec fn spec_bottom(self) -> u16 {
        if self.y + self.height > u16::MAX {
            u16::MAX
        } else {
            (self.y + self.height) as u16
        }
    }

    /// Whether the cell at column `x`, row `y` lies in the rectangle.
    pub open spec fn has_cell(self, x: int, y: int) -> bool {
        &&& self.left() <= x < self.right()
        &&& self.top() <= y < self.bottom()
    }

    /// Whether `self` is the rectangle at `(x, y)` for the size that was asked
    /// for: of that size where its area is within `MAX_AREA`, and else clipped,
    /// each side to the floor of the square root that keeps the aspect ratio.
    pub open spec fn is_sized(self, x: u16, y: u16, width: u16, height: u16) -> bool {
        &&& self.x == x
        &&& self.y == y
        &&& self.fits()
        &&& width * height <= MAX_AREA ==> self.width == width && self.height == height
        &&& width * height > MAX_AREA ==> is_clipped_side(
            self.width as int,
            width as int,
            height as int,
        ) && is_clipped_side(self.height as int, height as int, width as int)
    }

    /// A rectangle at `(x, y)`. A size whose area would pass `MAX_AREA` is clipped,
    /// keeping the aspect ratio.
    pub fn new(x: u16, y: u16, width: u16, height: u16) -> (r: Rect)
        ensures
            r.is_sized(x, y, width, height),
    {
        assert(width * height <= 0xffff * 0xffff) by (nonlinear_arith)
            requires
                0 <= width <= 0xffff,
                0 <= height <= 0xffff,
        ;
        if (width as u32) * (height as u32) > MAX_AREA as u32 {
            let w = clipped_side(width, height);
            let h = clipped_side(height, width);
            proof {
                assert(w * w * height == (w as int) * (w as int) * (height as int));
                lemma_clipped_fits(w as int, h as int, width as int, height as int);
            }
            Rect { x, y, width: w, height: h }
        } else {
            Rect { x, y, width, height }
        }
    }

    /// The number of cells in the rectangle.
    #[verifier::when_used_as_spec(spec_area)]
    pub fn area(self) -> (a: u16)
        requires
            self.fits(),
        ensures
            a == self.width * self.height,
            a == self.spec_area(),
    {
        self.width * self.height
    }

    #[verifier::when_used_as_spec(spec_left)]
    pub fn left(self) -> (x: u16)
        ensures
            x == self.x,
    {
        self.x
    }

    #[verifier::when_used_as_spec(spec_right)]
    pub fn right(self) -> (x: u16)
        ensures
            x == self.spec_right(),
    {
        self.x.saturating_add(self.width)
    }

    #[verifier::when_used_as_spec(spec_top)]
    pub fn top(self) -> (y: u16)
        ensures
            y == self.y,
    {
        self.y
    }

    #[verifier::when_used_as_spec(spec_bottom)]
    pub fn bottom(self) -> (y: u16)
        ensures
            y == self.spec_bottom(),
    {
        self.y.saturating_add(self.height)
    }

    /// The rectangle that is left when `w` columns are taken from the left and
    /// from the right, and `h` rows from the top and from the bottom.
    pub fn inner(self, w: u16, h: u16) -> (res: Result<Rect, &'static str>)
        requires
            2 * w <= self.width && 2 * h <= self.height ==> self.x + w <= u16::MAX && self.y + h
                <= u16::MAX,
        ensures
            match res {
                Ok(r) => {
                    &&& 2 * w <= self.width
                    &&& 2 * h <= self.height
                    &&& r.x == self.x + w
                    &&& r.y == self.y + h
                    &&& r.width == self.width - 2 * w
                    &&& r.height == self.height - 2 * h
                },
                Err(msg) => if self.width < 2 * w {
                    msg@ == "Inner area exceeded outside area. Reduce margin width."@
                } else {
                    &&& self.height < 2 * h
                    &&& msg@ == "Inner area exceeded outside area. Reduce margin height."@
                },
            },
    {
        if (self.width as u32) < 2 * (w as u32) {
            Err("Inner area exceeded outside area. Reduce margin width.")
        } else if (self.height as u32) < 2 * (h as u32) {
            Err("Inner area exceeded outside area. Reduce margin height.")
        } else {
            Ok(
                Rect {
                    x: self.x + w,
                    y: self.y + h,
                    width: self.width - 2 * w,
                    height: self.height - 2 * h,
                },
            )
        }
    }

    /// Where a rectangle of the given size starts when it is centred in `self`:
    /// half of what `self` is longer by, taken from each side.
    pub open spec fn centered_origin(self, width: u16, height: u16) -> (int, int) {
        (
            self.x + if self.width / 2 >= width / 2 {
                self.width / 2 - width / 2
            } else {
                0
            },
            self.y + if self.height / 2 >= height / 2 {
                self.height / 2 - height / 2
            } else {
                0
            },
        )
    }

    /// A rectangle of the given size, centred in `self`. It must not reach past
    /// the bottom or the right edge of `self`.
    pub fn centered(&self, width: u16, height: u16) -> (res: Result<Rect, &'static str>)
        requires
            self.centered_origin(width, height).0 <= u16::MAX,
            self.centered_origin(width, height).1 <= u16::MAX,
        ensures
            ({
                let (x, y) = self.centered_origin(width, height);
                let r = Rect { x: x as u16, y: y as u16, width, height };
                match res {
                    Ok(rect) => rect == r && r.bottom() <= self.bottom() && r.right() <= self.right(),
                    Err(msg) => if r.bottom() > self.bottom() {
                        msg@ == "Centered rectangle bounds exceed it's parent. Reduce the height."@
                    } else {
                        &&& r.right() > self.right()
                        &&& msg@
                            == "Centered rectangle bounds exceed it's parent. Reduce the width."@
                    },
                }
            }),
    {
        let v = self.height / 2;
        let h = self.width / 2;
        match self.inner(h.saturating_sub(width / 2), v.saturating_sub(height / 2)) {
            Ok(inner) => {
                let rect = Rect { x: inner.x, y: inner.y, width, height };
                if rect.bottom() > self.bottom() {
                    Err("Centered rectangle bounds exceed it's parent. Reduce the height.")
                } else if rect.right() > self.right() {
                    Err("Centered rectangle bounds exceed it's parent. Reduce the width.")
                } else {
                    Ok(rect)
                }
            },
            Err(err) => Err(err),
        }
    }

    /// Whether neither rectangle reaches past the largest column or row.
    pub open spec fn in_range(self) -> bool {
        &&& self.x + self.width <= u16::MAX
        &&& self.y + self.height <= u16::MAX
    }

    /// The smallest rectangle that covers both.
    pub fn union(self, other: Rect) -> (r: Rect)
        requires
            self.in_range(),
            other.in_range(),
        ensures
            r.x == vstd::math::min(self.x as int, other.x as int),
            r.y == vstd::math::min(self.y as int, other.y as int),
            r.x + r.width == vstd::math::max(self.x + self.width, other.x + other.width),
            r.y + r.height == vstd::math::max(self.y + self.height, other.y + other.height),
    {
        let x1 = if self.x <= other.x { self.x } else { other.x };
        let y1 = if self.y <= other.y { self.y } else { other.y };
        let sx = self.x + self.width;
        let ox = other.x + other.width;
        let sy = self.y + self.height;
        let oy = other.y + other.height;
        let x2 = if sx >= ox { sx } else { ox };
        let y2 = if sy >= oy { sy } else { oy };
        Rect { x: x1, y: y1, width: x2 - x1, height: y2 - y1 }
    }

    /// Whether the two rectangles share a column range and a row range, a shared
    /// edge counted in.
    pub open spec fn touches(self, other: Rect) -> bool {
        &&& self.x <= other.x + other.width
        &&& other.x <= self.x + self.width
        &&& self.y <= other.y + other.height
        &&& other.y <= self.y + self.height
    }

    /// The rectangle that both cover.
    pub fn intersection(self, other: Rect) -> (r: Rect)
        requires
            self.in_range(),
            other.in_range(),
            self.touches(other),
        ensures
            r.x == vstd::math::max(self.x as int, other.x as int),
            r.y == vstd::math::max(self.y as int, other.y as int),
            r.x + r.width == vstd::math::min(self.x + self.width, other.x + other.width),
            r.y + r.height == vstd::math::min(self.y + self.height, other.y + other.height),
    {
        let x1 = if self.x >= other.x { self.x } else { other.x };
        let y1 = if self.y >= other.y { self.y } else { other.y };
        let sx = self.x + self.width;
        let ox = other.x + other.width;
        let sy = self.y + self.height;
        let oy = other.y + other.height;
        let x2 = if sx <= ox { sx } else { ox };
        let y2 = if sy <= oy { sy } else { oy };
        Rect { x: x1, y: y1, width: x2 - x1, height: y2 - y1 }
    }

    /// Whether the two rectangles overlap.
    pub fn intersects(self, other: Rect) -> (b: bool)
        ensures
            b == (self.x < other.x + other.width && self.x + self.width > other.x && self.y
                < other.y + other.height && self.y + self.height > other.y),
    {
        (self.x as u32) < other.x as u32 + other.width as u32 && self.x as u32 + self.width as u32
            > other.x as u32 && (self.y as u32) < other.y as u32 + other.height as u32 && self.y as u32
            + self.height as u32 > other.y as u32
    }
}

/// The Fill constraints among the first `n`.
pub open spec fn fill_count(cons: Seq<Constraint>, n: int) -> int
    decreases n,
{
    if n <= 0 {
        0
    } else {
        fill_count(cons, n - 1) + if cons[n - 1] == Constraint::Fill {
            1int
        } else {
            0int
        }
    }
}

/// The cells that a constraint asks for along a side of `side` cells: a
/// percentage of the side, rounded to the nearest cell, or a length as it is.
pub open spec fn wanted_length(con: Constraint, side: u16) -> int {
    match con {
        Constraint::Percentage(p) => vstd::math::min((side * p + 50) / 100, 0xffff),
        Constraint::Length(l) => l as int,
        Constraint::Fill => 0,
    }
}

/// The cells that a constraint gets at `cursor`: what it asks for, or what is
/// left before `limit`.
pub open spec fn placed_length(wanted: int, cursor: int, limit: int) -> int {
    if wanted + cursor >= limit {
        limit - cursor
    } else {
        wanted
    }
}

/// Where the first `n` constraints end, along the direction of the layout.
pub open spec fn cursor_after(area: Rect, direction: Direction, cons: Seq<Constraint>, n: int) -> int
    decreases n,
{
    if n <= 0 {
        match direction {
            Direction::Horizontal => area.x as int,
            Direction::Vertical => area.y as int,
        }
    } else {
        let cursor = cursor_after(area, direction, cons, n - 1);
        match cons[n - 1] {
            Constraint::Fill => cursor,
            con => cursor + segment_length(area, direction, con, cursor),
        }
    }
}

/// The cells that `con` gets at `cursor` in a layout of `area`.
pub open spec fn segment_length(area: Rect, direction: Direction, con: Constraint, cursor: int) -> int {
    match direction {
        Direction::Horizontal => placed_length(
            wanted_length(con, area.width),
            cursor,
            area.right() as int,
        ),
        Direction::Vertical => placed_length(
            wanted_length(con, area.height),
            cursor,
            area.bottom() as int,
        ),
    }
}

/// The rectangle of `length` cells at `cursor`, across the whole of `area` in
/// the other direction.
pub open spec fn segment(area: Rect, direction: Direction, cursor: int, length: int) -> Rect {
    match direction {
        Direction::Horizontal => Rect {
            x: cursor as u16,
            y: area.y,
            width: length as u16,
            height: area.height,
        },
        Direction::Vertical => Rect {
            x: area.x,
            y: cursor as u16,
            width: area.width,
            height: length as u16,
        },
    }
}

/// The rectangles of the first `n` constraints, one after the other. A Fill
/// constraint gets none here.
pub open spec fn segments(area: Rect, direction: Direction, cons: Seq<Constraint>, n: int) -> Seq<
    Rect,
>
    decreases n,
{
    if n <= 0 {
        Seq::empty()
    } else {
        let before = segments(area, direction, cons, n - 1);
        let cursor = cursor_after(area, direction, cons, n - 1);
        match cons[n - 1] {
            Constraint::Fill => before,
            con => before.push(
                segment(area, direction, cursor, segment_length(area, direction, con, cursor)),
            ),
        }
    }
}

/// Where the layout ends: the column and the row after the last segment.
pub open spec fn layout_end(area: Rect, direction: Direction, cons: Seq<Constraint>) -> (int, int) {
    let cursor = cursor_after(area, direction, cons, cons.len() as int);
    match direction {
        Direction::Horizontal => (cursor, area.y as int),
        Direction::Vertical => (area.x as int, cursor),
    }
}

/// Whether the first or the last constraint is Fill.
pub open spec fn fill_first(cons: Seq<Constraint>) -> bool {
    cons.len() > 0 && cons[0] == Constraint::Fill
}

pub open spec fn fill_last(cons: Seq<Constraint>) -> bool {
    cons.len() > 0 && cons[cons.len() - 1] == Constraint::Fill
}

/// Whether what is left for a Fill constraint can be measured: the layout ends
/// no further right than `area` is wide, and no further down than it is high.
pub open spec fn fill_measured(area: Rect, direction: Direction, cons: Seq<Constraint>) -> bool {
    fill_first(cons) || fill_last(cons) ==> layout_end(area, direction, cons).0 <= area.width
        && layout_end(area, direction, cons).1 <= area.height
}

/// The rectangle moved by `dx` columns and `dy` rows.
pub open spec fn moved(r: Rect, dx: int, dy: int) -> Rect {
    Rect { x: (r.x + dx) as u16, y: (r.y + dy) as u16, width: r.width, height: r.height }
}

/// The layout of `area`: the segments of the constraints in order. A leading
/// Fill gets what the segments leave, as a rectangle at the origin, and moves
/// the segments by as much along the direction; a trailing Fill gets the same
/// size after the last segment.
pub open spec fn layout_spec(area: Rect, direction: Direction, cons: Seq<Constraint>) -> Seq<Rect> {
    let rects = segments(area, direction, cons, cons.len() as int);
    let (x, y) = layout_end(area, direction, cons);
    let rest = Rect { x: 0, y: 0, width: (area.width - x) as u16, height: (area.height - y) as u16 };
    let (dx, dy) = match direction {
        Direction::Horizontal => (area.width - x, 0int),
        Direction::Vertical => (0int, area.height - y),
    };
    let leading = if fill_first(cons) {
        seq![rest] + Seq::new(rects.len(), |i: int| moved(rects[i], dx, dy))
    } else {
        rects
    };
    if fill_last(cons) {
        leading.push(Rect { x: x as u16, y: y as u16, width: rest.width, height: rest.height })
    } else {
        leading
    }
}

/// A count is never negative.
proof fn lemma_fill_count_bounds(cons: Seq<Constraint>, n: int)
    ensures
        fill_count(cons, n) >= 0,
    decreases n,
{
    if n > 0 {
        lemma_fill_count_bounds(cons, n - 1);
    }
}

/// A Fill among the first `n` constraints is counted.
proof fn lemma_fill_counted(cons: Seq<Constraint>, n: int, k: int)
    requires
        0 <= k < n <= cons.len(),
    ensures
        cons[k] == Constraint::Fill ==> fill_count(cons, n) >= 1,
    decreases n,
{
    lemma_fill_count_bounds(cons, n - 1);
    if k < n - 1 {
        lemma_fill_counted(cons, n - 1, k);
    }
}

/// The cursor of a layout stays between the start of `area` and its end.
pub proof fn lemma_cursor_in_area(area: Rect, direction: Direction, cons: Seq<Constraint>, n: int)
    requires
        0 <= n <= cons.len(),
    ensures
        direction == Direction::Horizontal ==> area.x <= cursor_after(area, direction, cons, n)
            <= area.right(),
        direction == Direction::Vertical ==> area.y <= cursor_after(area, direction, cons, n)
            <= area.bottom(),
    decreases n,
{
    if n > 0 {
        lemma_cursor_in_area(area, direction, cons, n - 1);
    }
}

/// Divides `area`, less `margin` columns on the left and on the right and
/// `margin` rows at the top and at the bottom, among the constraints, along
/// `direction`. At most one constraint may be Fill, and only the first or the
/// last.
pub fn layout_margin(area: Rect, direction: Direction, cons: &[Constraint], margin: (u16, u16)) -> (res:
    Result<Vec<Rect>, &'static str>)
    requires
        area.fits(),
        2 * margin.0 <= area.width && 2 * margin.1 <= area.height ==> area.x + margin.0 <= u16::MAX
            && area.y + margin.1 <= u16::MAX,
        2 * margin.0 <= area.width && 2 * margin.1 <= area.height && fill_count(
            cons@,
            cons@.len() as int,
        ) == 1 ==> fill_measured(
            Rect {
                x: (area.x + margin.0) as u16,
                y: (area.y + margin.1) as u16,
                width: (area.width - 2 * margin.0) as u16,
                height: (area.height - 2 * margin.1) as u16,
            },
            direction,
            cons@,
        ),
    ensures
        match res {
            Ok(rects) => {
                &&& 2 * margin.0 <= area.width
                &&& 2 * margin.1 <= area.height
                &&& fill_count(cons@, cons@.len() as int) <= 1
                &&& fill_count(cons@, cons@.len() as int) == 1 ==> fill_first(cons@) || fill_last(
                    cons@,
                )
                &&& rects@ == layout_spec(
                    Rect {
                        x: (area.x + margin.0) as u16,
                        y: (area.y + margin.1) as u16,
                        width: (area.width - 2 * margin.0) as u16,
                        height: (area.height - 2 * margin.1) as u16,
                    },
                    direction,
                    cons@,
                )
            },
            Err(msg) => if area.width < 2 * margin.0 {
                msg@ == "Inner area exceeded outside area. Reduce margin width."@
            } else if area.height < 2 * margin.1 {
                msg@ == "Inner area exceeded outside area. Reduce margin height."@
            } else if fill_count(cons@, cons@.len() as int) > 1 {
                msg@ == "Cannot have multiple fill constraints."@
            } else {
                &&& fill_count(cons@, cons@.len() as int) == 1
                &&& !fill_first(cons@)
                &&& !fill_last(cons@)
                &&& msg@ == "Fill constraint must be at the beginning or end."@
            },
        },
{
    let outer = area;
    let area = match outer.inner(margin.0, margin.1) {
        Ok(inner) => inner,
        Err(err) => {
            return Err(err);
        },
    };
    assert(area.fits()) by (nonlinear_arith)
        requires
            0 <= area.width <= outer.width,
            0 <= area.height <= outer.height,
            outer.width * outer.height <= MAX_AREA,
    ;
    let mut count: usize = 0;
    let mut i: usize = 0;
    while i < cons.len()
        invariant
            i <= cons@.len(),
            count == fill_count(cons@, i as int),
            count <= i,
        decreases cons.len() - i,
    {
        if cons[i] == Constraint::Fill {
            count += 1;
        }
        i += 1;
    }
    if count > 1 {
        return Err("Cannot have multiple fill constraints.");
    }
    let start = cons.len() > 0 && cons[0] == Constraint::Fill;
    let end = cons.len() > 0 && cons[cons.len() - 1] == Constraint::Fill;
    if !(start || end) && count == 1 {
        return Err("Fill constraint must be at the beginning or end.");
    }
    let mut rects: Vec<Rect> = Vec::new();
    let mut x = area.x;
    let mut y = area.y;
    let right = area.right();
    let bottom = area.bottom();
    let mut i: usize = 0;
    while i < cons.len()
        invariant
            i <= cons@.len(),
            area.fits(),
            right == area.right(),
            bottom == area.bottom(),
            rects@ == segments(area, direction, cons@, i as int),
            direction == Direction::Horizontal ==> x == cursor_after(area, direction, cons@, i as int)
                && y == area.y,
            direction == Direction::Vertical ==> y == cursor_after(area, direction, cons@, i as int)
                && x == area.x,
            area.x <= x <= right,
            area.y <= y <= bottom,
        decreases cons.len() - i,
    {
        let con = cons[i];
        let wanted: u32 = match con {
            Constraint::Percentage(p) => {
                let side: u32 = match direction {
                    Direction::Horizontal => area.width as u32,
                    Direction::Vertical => area.height as u32,
                };
                assert(side * p <= 0xffff * 0xffff) by (nonlinear_arith)
                    requires
                        0 <= side <= 0xffff,
                        0 <= p <= 0xffff,
                ;
                let rounded = (side * (p as u32) + 50) / 100;
                if rounded > 0xffff {
                    0xffff
                } else {
                    rounded
                }
            },
            Constraint::Length(l) => l as u32,
            Constraint::Fill => 0,
        };
        match con {
            Constraint::Fill => {},
            _ => {
                match direction {
                    Direction::Horizontal => {
                        let width = if wanted + x as u32 >= right as u32 {
                            right - x
                        } else {
                            wanted as u16
                        };
                        assert(width * area.height <= MAX_AREA) by (nonlinear_arith)
                            requires
                                0 <= width <= area.width,
                                area.width * area.height <= MAX_AREA,
                                0 <= area.height,
                        ;
                        rects.push(Rect::new(x, y, width, area.height));
                        x += width;
                    },
                    Direction::Vertical => {
                        let height = if wanted + y as u32 >= bottom as u32 {
                            bottom - y
                        } else {
                            wanted as u16
                        };
                        assert(area.width * height <= MAX_AREA) by (nonlinear_arith)
                            requires
                                0 <= height <= area.height,
                                area.width * area.height <= MAX_AREA,
                                0 <= area.width,
                        ;
                        rects.push(Rect::new(x, y, area.width, height));
                        y += height;
                    },
                }
            },
        }
        i += 1;
    }
    if !(start || end) {
        assert(rects@ =~= layout_spec(area, direction, cons@));
        return Ok(rects);
    }
    let ghost placed = rects@;
    proof {
        lemma_fill_counted(cons@, cons@.len() as int, 0);
        lemma_fill_counted(cons@, cons@.len() as int, cons@.len() - 1);
        assert(fill_measured(area, direction, cons@));
    }
    let rem_x = area.width - x;
    let rem_y = area.height - y;
    assert(rem_x * rem_y <= MAX_AREA) by (nonlinear_arith)
        requires
            0 <= rem_x <= area.width,
            0 <= rem_y <= area.height,
            area.width * area.height <= MAX_AREA,
    ;
    if start {
        let (dx, dy) = match direction {
            Direction::Horizontal => (rem_x, 0),
            Direction::Vertical => (0, rem_y),
        };
        let mut j: usize = 0;
        while j < rects.len()
            invariant
                j <= rects@.len(),
                rects@.len() == placed.len(),
                placed == segments(area, direction, cons@, cons@.len() as int),
                direction == Direction::Horizontal ==> dx == rem_x && dy == 0 && x == cursor_after(
                    area,
                    direction,
                    cons@,
                    cons@.len() as int,
                ),
                direction == Direction::Vertical ==> dx == 0 && dy == rem_y && y == cursor_after(
                    area,
                    direction,
                    cons@,
                    cons@.len() as int,
                ),
                rem_x == area.width - x,
                rem_y == area.height - y,
                forall|k: int| 0 <= k < j ==> #[trigger] rects@[k] == moved(placed[k], dx as int, dy as int),
                forall|k: int| j <= k < rects@.len() ==> #[trigger] rects@[k] == placed[k],
            decreases rects.len() - j,
        {
            let r = rects[j];
            proof {
                lemma_segment_before_end(area, direction, cons@, cons@.len() as int, j as int);
            }
            rects.set(j, Rect { x: r.x + dx, y: r.y + dy, width: r.width, height: r.height });
            j += 1;
        }
        rects.insert(0, Rect::new(0, 0, rem_x, rem_y));
    }
    if end {
        rects.push(Rect::new(x, y, area.width - x, area.height - y));
    }
    assert(rects@ =~= layout_spec(area, direction, cons@));
    Ok(rects)
}

/// A segment starts no later than the layout ends.
proof fn lemma_segment_before_end(
    area: Rect,
    direction: Direction,
    cons: Seq<Constraint>,
    n: int,
    k: int,
)
    requires
        0 <= n <= cons.len(),
        0 <= k < segments(area, direction, cons, n).len(),
    ensures
        direction == Direction::Horizontal ==> segments(area, direction, cons, n)[k].x
            <= cursor_after(area, direction, cons, n) && segments(area, direction, cons, n)[k].y
            == area.y,
        direction == Direction::Vertical ==> segments(area, direction, cons, n)[k].y
            <= cursor_after(area, direction, cons, n) && segments(area, direction, cons, n)[k].x
            == area.x,
    decreases n,
{
    if n > 0 {
        lemma_cursor_in_area(area, direction, cons, n - 1);
        lemma_cursor_in_area(area, direction, cons, n);
        let before = segments(area, direction, cons, n - 1);
        if k < before.len() {
            lemma_segment_before_end(area, direction, cons, n - 1, k);
        }
    }
}

/// Divides `area` among the constraints, along `direction`.
pub fn layout(area: Rect, direction: Direction, cons: &[Constraint]) -> (rects: Vec<Rect>)
    requires
        area.fits(),
        fill_count(cons@, cons@.len() as int) <= 1,
        fill_count(cons@, cons@.len() as int) == 1 ==> (fill_first(cons@) || fill_last(cons@))
            && fill_measured(area, direction, cons@),
    ensures
        rects@ == layout_spec(area, direction, cons@),
{
    match layout_margin(area, direction, cons, (0, 0)) {
        Ok(rects) => rects,
        Err(_) => Vec::new(),
    }
}

} // verus!
