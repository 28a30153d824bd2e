//! Turning a list of changed cells into the text that repaints the terminal.

use crate::buffer::{Cell, CellView};
use crate::diff::update_views;
use crate::escape::{cursor_to, hide_cursor, move_to};
use crate::style::{
    sgr, Color, Modifier, BOLD, DIM, FAST_BLINKING, HIDDEN, INVERT, ITALIC, NO_BLINKING,
    NO_BOLD_OR_DIM, NO_HIDDEN, NO_INVERT, NO_ITALIC, NO_STRIKETHROUGH, NO_UNDERLINE, RESET,
    SLOW_BLINKING, STRIKETHROUGH, UNDERLINE,
};
use vstd::prelude::*;
use vstd::string::StringExecFns;

verus! {

/// `code` where `wanted` holds, nothing otherwise.
pub open spec fn code_if(wanted: bool, code: Seq<char>) -> Seq<char> {
    if wanted {
        code
    } else {
        Seq::empty()
    }
}

/// The codes that switch off the attributes of `from` that `to` lacks. Bold and
/// dim share one code: after it, dim is switched on again where `to` has it.
pub open spec fn removal_codes(from: Modifier, to: Modifier) -> Seq<char> {
    let removed = Modifier { bits: from.bits & !to.bits };
    code_if(removed.has(Modifier::INVERT), NO_INVERT@) + code_if(
        removed.has(Modifier::BOLD),
        NO_BOLD_OR_DIM@ + code_if(to.has(Modifier::DIM), DIM@),
    ) + code_if(removed.has(Modifier::ITALIC), NO_ITALIC@) + code_if(
        removed.has(Modifier::UNDERLINED),
        NO_UNDERLINE@,
    ) + code_if(removed.has(Modifier::DIM), NO_BOLD_OR_DIM@) + code_if(
        removed.has(Modifier::CROSSED_OUT),
        NO_STRIKETHROUGH@,
    ) + code_if(
        removed.has(Modifier::SLOW_BLINK) || removed.has(Modifier::FAST_BLINK),
        NO_BLINKING@,
    ) + code_if(removed.has(Modifier::HIDDEN), NO_HIDDEN@)
}

/// The codes that switch on the attributes of `to` that `from` lacks.
pub open spec fn addition_codes(from: Modifier, to: Modifier) -> Seq<char> {
    let added = Modifier { bits: to.bits & !from.bits };
    code_if(added.has(Modifier::INVERT), INVERT@) + code_if(added.has(Modifier::BOLD), BOLD@)
        + code_if(added.has(Modifier::ITALIC), ITALIC@) + code_if(
        added.has(Modifier::UNDERLINED),
        UNDERLINE@,
    ) + code_if(added.has(Modifier::DIM), DIM@) + code_if(
        added.has(Modifier::CROSSED_OUT),
        STRIKETHROUGH@,
    ) + code_if(added.has(Modifier::SLOW_BLINK), SLOW_BLINKING@) + code_if(
        added.has(Modifier::FAST_BLINK),
        FAST_BLINKING@,
    ) + code_if(added.has(Modifier::HIDDEN), HIDDEN@)
}

/// The codes that take the terminal from the attributes `from` to the
/// attributes `to`: first what is switched off, then what is switched on.
pub open spec fn modifier_codes(from: Modifier, to: Modifier) -> Seq<char> {
    removal_codes(from, to) + addition_codes(from, to)
}

/// Appending is associative.
proof fn lemma_append_assoc(a: Seq<char>, b: Seq<char>, c: Seq<char>)
    ensures
        (a + b) + c == a + (b + c),
{
    assert((a + b) + c =~= a + (b + c));
}

/// Appends `code` where `wanted` holds.
fn push_if(w: &mut String, wanted: bool, code: &str)
    ensures
        final(w)@ == old(w)@ + code_if(wanted, code@),
{
    if wanted {
        w.append(code);
    }
    assert(w@ =~= old(w)@ + code_if(wanted, code@));
}

/// Appends `code` where `wanted` holds, to text that stands as `base + sent`.
fn push_next(w: &mut String, Ghost(base): Ghost<Seq<char>>, Ghost(sent): Ghost<Seq<char>>, wanted: bool, code: &str)
    requires
        old(w)@ == base + sent,
    ensures
        final(w)@ == base + (sent + code_if(wanted, code@)),
{
    push_if(w, wanted, code);
    proof {
        lemma_append_assoc(base, sent, code_if(wanted, code@));
    }
}

/// Appends the codes that switch off what `from` has and `to` lacks.
fn draw_removed(w: &mut String, from: Modifier, to: Modifier)
    ensures
        final(w)@ == old(w)@ + removal_codes(from, to),
{
    let ghost base = w@;
    let removed = from.difference(to);
    push_if(w, removed.contains(Modifier::INVERT), NO_INVERT);
    let ghost invert = code_if(removed.has(Modifier::INVERT), NO_INVERT@);
    if removed.contains(Modifier::BOLD) {
        w.append(NO_BOLD_OR_DIM);
        push_if(w, to.contains(Modifier::DIM), DIM);
    }
    let ghost bold = invert + code_if(
        removed.has(Modifier::BOLD),
        NO_BOLD_OR_DIM@ + code_if(to.has(Modifier::DIM), DIM@),
    );
    assert(w@ =~= base + bold);
    push_next(w, Ghost(base), Ghost(bold), removed.contains(Modifier::ITALIC), NO_ITALIC);
    let ghost italic = bold + code_if(removed.has(Modifier::ITALIC), NO_ITALIC@);
    push_next(w, Ghost(base), Ghost(italic), removed.contains(Modifier::UNDERLINED), NO_UNDERLINE);
    let ghost underlined = italic + code_if(removed.has(Modifier::UNDERLINED), NO_UNDERLINE@);
    push_next(w, Ghost(base), Ghost(underlined), removed.contains(Modifier::DIM), NO_BOLD_OR_DIM);
    let ghost dim = underlined + code_if(removed.has(Modifier::DIM), NO_BOLD_OR_DIM@);
    push_next(
        w,
        Ghost(base),
        Ghost(dim),
        removed.contains(Modifier::CROSSED_OUT),
        NO_STRIKETHROUGH,
    );
    let ghost crossed = dim + code_if(removed.has(Modifier::CROSSED_OUT), NO_STRIKETHROUGH@);
    push_next(
        w,
        Ghost(base),
        Ghost(crossed),
        removed.contains(Modifier::SLOW_BLINK) || removed.contains(Modifier::FAST_BLINK),
        NO_BLINKING,
    );
    let ghost blink = crossed + code_if(
        removed.has(Modifier::SLOW_BLINK) || removed.has(Modifier::FAST_BLINK),
        NO_BLINKING@,
    );
    push_next(w, Ghost(base), Ghost(blink), removed.contains(Modifier::HIDDEN), NO_HIDDEN);
}

/// Appends the codes that switch on what `to` has and `from` lacks.
fn draw_added(w: &mut String, from: Modifier, to: Modifier)
    ensures
        final(w)@ == old(w)@ + addition_codes(from, to),
{
    let ghost base = w@;
    let added = to.difference(from);
    push_if(w, added.contains(Modifier::INVERT), INVERT);
    let ghost invert = code_if(added.has(Modifier::INVERT), INVERT@);
    push_next(w, Ghost(base), Ghost(invert), added.contains(Modifier::BOLD), BOLD);
    let ghost bold = invert + code_if(added.has(Modifier::BOLD), BOLD@);
    push_next(w, Ghost(base), Ghost(bold), added.contains(Modifier::ITALIC), ITALIC);
    let ghost italic = bold + code_if(added.has(Modifier::ITALIC), ITALIC@);
    push_next(w, Ghost(base), Ghost(italic), added.contains(Modifier::UNDERLINED), UNDERLINE);
    let ghost underlined = italic + code_if(added.has(Modifier::UNDERLINED), UNDERLINE@);
    push_next(w, Ghost(base), Ghost(underlined), added.contains(Modifier::DIM), DIM);
    let ghost dim = underlined + code_if(added.has(Modifier::DIM), DIM@);
    push_next(w, Ghost(base), Ghost(dim), added.contains(Modifier::CROSSED_OUT), STRIKETHROUGH);
    let ghost crossed = dim + code_if(added.has(Modifier::CROSSED_OUT), STRIKETHROUGH@);
    push_next(w, Ghost(base), Ghost(crossed), added.contains(Modifier::SLOW_BLINK), SLOW_BLINKING);
    let ghost slow = crossed + code_if(added.has(Modifier::SLOW_BLINK), SLOW_BLINKING@);
    push_next(w, Ghost(base), Ghost(slow), added.contains(Modifier::FAST_BLINK), FAST_BLINKING);
    let ghost fast = slow + code_if(added.has(Modifier::FAST_BLINK), FAST_BLINKING@);
    push_next(w, Ghost(base), Ghost(fast), added.contains(Modifier::HIDDEN), HIDDEN);
}

/// Appends the codes that take the terminal from the attributes `from` to the
/// attributes `to`. Only attributes that differ get a code.
pub fn draw_modifier(w: &mut String, from: Modifier, to: Modifier)
    ensures
        final(w)@ == old(w)@ + modifier_codes(from, to),
{
    draw_removed(w, from, to);
    draw_added(w, from, to);
    proof {
        lemma_append_assoc(old(w)@, removal_codes(from, to), addition_codes(from, to));
    }
}

/// Between equal sets of attributes no code is sent.
pub proof fn law_modifier_codes_same(m: Modifier)
    ensures
        modifier_codes(m, m) == Seq::<char>::empty(),
{
    let bits = m.bits;
    assert(bits & !bits == 0) by (bit_vector);
    assert(0u16 & 0x001 != 0x001) by (bit_vector);
    assert(0u16 & 0x002 != 0x002) by (bit_vector);
    assert(0u16 & 0x004 != 0x004) by (bit_vector);
    assert(0u16 & 0x008 != 0x008) by (bit_vector);
    assert(0u16 & 0x010 != 0x010) by (bit_vector);
    assert(0u16 & 0x020 != 0x020) by (bit_vector);
    assert(0u16 & 0x040 != 0x040) by (bit_vector);
    assert(0u16 & 0x080 != 0x080) by (bit_vector);
    assert(0u16 & 0x100 != 0x100) by (bit_vector);
    assert(modifier_codes(m, m) =~= Seq::<char>::empty());
}

/// The colours and attributes that the terminal is in after `last` was drawn,
/// or at the start of a frame: as a cell without symbol.
pub open spec fn pen_after(last: Option<(u16, u16, CellView)>) -> CellView {
    match last {
        Some(update) => update.2,
        None => CellView::blank(),
    }
}

/// Whether the cursor stands at column `x`, row `y` once `last` was drawn: on
/// the same row, one column further right.
pub open spec fn follows(last: Option<(u16, u16, CellView)>, x: u16, y: u16) -> bool {
    match last {
        Some(update) => x == update.0 + 1 && y == update.1,
        None => false,
    }
}

/// What is sent for one cell after `last` was drawn: a cursor move unless the
/// cell follows `last`, the codes for the attributes that differ, each colour
/// that differs, and the symbol as it is. Coordinates are sent counted from one.
pub open spec fn cell_codes(last: Option<(u16, u16, CellView)>, update: (u16, u16, CellView)) -> Seq<
    char,
> {
    let pen = pen_after(last);
    let cell = update.2;
    code_if(!follows(last, update.0, update.1), cursor_to((update.0 + 1) as nat, (update.1 + 1) as nat))
        + code_if(cell.modifier != pen.modifier, modifier_codes(pen.modifier, cell.modifier))
        + code_if(cell.fg != pen.fg, sgr(cell.fg.fg_number())) + code_if(
        cell.bg != pen.bg,
        sgr(cell.bg.bg_number()),
    ) + cell.symbol
}

/// The update before the `i`-th, if there is one.
pub open spec fn update_before(updates: Seq<(u16, u16, CellView)>, i: int) -> Option<
    (u16, u16, CellView),
> {
    if i <= 0 {
        None
    } else {
        Some(updates[i - 1])
    }
}

/// What is sent for the first `n` updates of a frame, after the cursor was
/// hidden and moved to the top left.
pub open spec fn frame_body(updates: Seq<(u16, u16, CellView)>, n: int) -> Seq<char>
    decreases n,
{
    if n <= 0 {
        "\x1b[?25l"@ + cursor_to(1, 1)
    } else {
        frame_body(updates, n - 1) + cell_codes(update_before(updates, n - 1), updates[n - 1])
    }
}

/// What is sent for a frame: the cursor is hidden and moved to the top left,
/// each update is drawn in turn, and the style is reset at the end, always.
pub open spec fn frame_codes(updates: Seq<(u16, u16, CellView)>) -> Seq<char> {
    frame_body(updates, updates.len() as int) + RESET@
}

/// Appends what repaints the terminal for the updates of `diff`, given in
/// row-major order.
pub fn draw(w: &mut String, diff: Vec<(u16, u16, &Cell)>)
    requires
        forall|i: int|
            0 <= i < diff@.len() ==> (#[trigger] diff@[i]).0 < u16::MAX && diff@[i].1 < u16::MAX,
    ensures
        final(w)@ == old(w)@ + frame_codes(update_views(diff@)),
{
    let ghost updates = update_views(diff@);
    let mut fg = Color::Reset;
    let mut bg = Color::Reset;
    let mut modifier = Modifier::empty();
    let mut last_pos: Option<(u16, u16)> = None;

    hide_cursor(w);
    move_to(w, 1, 1);
    proof {
        lemma_append_assoc(old(w)@, "\x1b[?25l"@, cursor_to(1, 1));
    }

    let mut i: usize = 0;
    while i < diff.len()
        invariant
            i <= diff@.len(),
            updates == update_views(diff@),
            forall|j: int|
                0 <= j < diff@.len() ==> (#[trigger] diff@[j]).0 < u16::MAX && diff@[j].1
                    < u16::MAX,
            w@ == old(w)@ + frame_body(updates, i as int),
            fg == pen_after(update_before(updates, i as int)).fg,
            bg == pen_after(update_before(updates, i as int)).bg,
            modifier == pen_after(update_before(updates, i as int)).modifier,
            match last_pos {
                Some(p) => i > 0 && p.0 == diff@[i - 1].0 + 1 && p.1 == diff@[i - 1].1 + 1,
                None => i == 0,
            },
        decreases diff.len() - i,
    {
        let (x0, y0, cell) = diff[i];
        let ghost last = update_before(updates, i as int);
        let ghost pen = pen_after(last);
        let ghost start = w@;
        assert(updates[i as int] == (x0, y0, cell@));
        let x = x0 + 1;
        let y = y0 + 1;
        let contiguous = match last_pos {
            Some(p) => p.0 < u16::MAX && x == p.0 + 1 && y == p.1,
            None => false,
        };
        assert(contiguous == follows(last, x0, y0));
        if !contiguous {
            move_to(w, x, y);
        }
        last_pos = Some((x, y));
        let ghost moved = code_if(!follows(last, x0, y0), cursor_to(x as nat, y as nat));
        assert(w@ =~= start + moved);

        let ghost before = w@;
        if cell.modifier != modifier {
            draw_modifier(w, modifier, cell.modifier);
        }
        let ghost attributes = code_if(
            cell@.modifier != pen.modifier,
            modifier_codes(pen.modifier, cell@.modifier),
        );
        assert(w@ =~= before + attributes);
        proof {
            lemma_append_assoc(start, moved, attributes);
        }
        modifier = cell.modifier;

        let ghost before = w@;
        if cell.fg != fg {
            w.append(cell.fg.fg_code());
            fg = cell.fg;
        }
        let ghost fore = code_if(cell@.fg != pen.fg, sgr(cell@.fg.fg_number()));
        assert(w@ =~= before + fore);
        proof {
            lemma_append_assoc(start, moved + attributes, fore);
        }

        let ghost before = w@;
        if cell.bg != bg {
            w.append(cell.bg.bg_code());
            bg = cell.bg;
        }
        let ghost back = code_if(cell@.bg != pen.bg, sgr(cell@.bg.bg_number()));
        assert(w@ =~= before + back);
        proof {
            lemma_append_assoc(start, moved + attributes + fore, back);
        }

        w.append(cell.symbol.as_str());
        proof {
            lemma_append_assoc(start, moved + attributes + fore + back, cell@.symbol);
            assert(moved + attributes + fore + back + cell@.symbol == cell_codes(
                last,
                updates[i as int],
            ));
            lemma_append_assoc(
                old(w)@,
                frame_body(updates, i as int),
                cell_codes(last, updates[i as int]),
            );
        }
        i += 1;
    }
    proof {
        lemma_append_assoc(old(w)@, frame_body(updates, diff@.len() as int), RESET@);
    }
    w.append(RESET);
}

/// A cell that follows the one before it, in the same colours and attributes,
/// costs its symbol and nothing else: no cursor move, no code.
pub proof fn law_run_sends_symbols_only(
    last: (u16, u16, CellView),
    update: (u16, u16, CellView),
)
    requires
        update.0 == last.0 + 1,
        update.1 == last.1,
        update.2.fg == last.2.fg,
        update.2.bg == last.2.bg,
        update.2.modifier == last.2.modifier,
    ensures
        cell_codes(Some(last), update) == update.2.symbol,
{
    assert(cell_codes(Some(last), update) =~= update.2.symbol);
}

/// Whatever is drawn, the frame ends with the reset of the style.
pub proof fn law_frame_ends_reset(updates: Seq<(u16, u16, CellView)>)
    ensures
        frame_codes(updates).len() >= RESET@.len(),
        frame_codes(updates).subrange(
            frame_codes(updates).len() - RESET@.len(),
            frame_codes(updates).len() as int,
        ) == RESET@,
{
    let body = frame_body(updates, updates.len() as int);
    assert((body + RESET@).subrange(body.len() as int, (body + RESET@).len() as int) =~= RESET@);
}

} // verus!
