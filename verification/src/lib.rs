//! A terminal user-interface rendering library: a grid of styled cells, a
//! minimal diff between two frames, and the escape sequences that repaint a
//! terminal from that diff.

pub mod block;
pub mod buffer;
pub mod diff;
pub mod escape;
pub mod event;
pub mod gauge;
pub mod layout;
pub mod list;
pub mod render;
pub mod style;
pub mod table;
pub mod text;
pub mod trusted;
pub mod windows;
pub mod write;

pub use block::{block, Block, BorderType, Borders};
pub use buffer::{Buffer, Cell, CellView, OutOfBounds};
pub use escape::{
    clear, clear_from_cursor, clear_from_cursor_to_start, clear_line, clear_line_from_cursor,
    clear_line_from_cursor_to_start, hide_alternate_screen, hide_blinking, hide_cursor, move_to,
    reset, shift_down, shift_up, show_alternate_screen, show_blinking, show_cursor, uninit,
};
pub use event::{poll, Event, Input, Key, KeyModifiers, Mouse};
pub use gauge::{guage, Gauge};
pub use layout::{layout, layout_margin, Alignment, Constraint, Corner, Direction, Rect};
pub use list::{list, List};
pub use render::{draw, draw_modifier};
pub use style::{bg, fg, style, Color, Modifier, Style};
pub use table::{table, Row, Table};
pub use text::{Line, Stylize, Text};

use crate::diff::{diff_spec, widths_of};
use crate::render::frame_codes;
use vstd::prelude::*;

verus! {

/// The two frames of the screen: the one that is drawn into, and the one that
/// the terminal shows.
pub struct Winter {
    /// The size of the terminal, as it was last reported.
    pub viewport: Rect,
    pub buffers: [Buffer; 2],
    /// Which of the two buffers is drawn into.
    pub current: usize,
}

/// A frame of `len` blank cells.
pub open spec fn blank_frame(len: nat) -> Seq<CellView> {
    Seq::new(len, |i: int| CellView::blank())
}

impl Winter {
    /// The driver's invariant: both buffers are whole and stand for the viewport.
    pub open spec fn wf(&self) -> bool {
        &&& self.current < 2
        &&& self.buffers[0].wf()
        &&& self.buffers[1].wf()
        &&& self.buffers[0].area == self.viewport
        &&& self.buffers[1].area == self.viewport
    }

    /// The frame that is drawn into.
    pub open spec fn front(&self) -> Buffer {
        self.buffers[self.current as int]
    }

    /// The frame that the terminal shows.
    pub open spec fn back(&self) -> Buffer {
        self.buffers[1 - self.current]
    }

    /// A driver for a terminal of `width` columns and `height` rows, with both
    /// frames blank. Appends what enters the alternate screen and clears it.
    pub fn new(w: &mut String, width: u16, height: u16) -> (winter: Winter)
        ensures
            winter.wf(),
            winter.current == 0,
            winter.viewport.is_sized(0, 0, width, height),
            winter.front()@ == blank_frame(winter.front()@.len()),
            winter.back()@ == blank_frame(winter.back()@.len()),
            final(w)@ == old(w)@ + "\x1b[?1049h"@ + "\x1b[2J"@,
    {
        show_alternate_screen(w);
        clear(w);
        let viewport = Rect::new(0, 0, width, height);
        Winter { viewport, buffers: [Buffer::empty(viewport), Buffer::empty(viewport)], current: 0 }
    }

    /// Ends a frame. Appends what repaints the terminal: the difference between
    /// the frame that it shows and the frame that was drawn. The two frames then
    /// change places, and the new frame to draw into is blank. `width` and
    /// `height` are the size that the terminal reports now: where it differs
    /// from the viewport, both frames are resized and blanked and the screen is
    /// cleared, so that the next frame is drawn in full.
    pub fn draw(&mut self, w: &mut String, width: u16, height: u16)
        requires
            old(self).wf(),
        ensures
            final(self).wf(),
            final(self).current == 1 - old(self).current,
            final(self).viewport.is_sized(0, 0, width, height),
            final(self).front()@ == blank_frame(final(self).front()@.len()),
            final(self).viewport == old(self).viewport ==> final(self).back() == old(
                self,
            ).front(),
            final(self).viewport != old(self).viewport ==> final(self).back()@ == blank_frame(
                final(self).back()@.len(),
            ),
            final(w)@ == old(w)@ + frame_codes(
                diff_spec(
                    old(self).back()@,
                    old(self).front()@,
                    widths_of(old(self).back()@),
                    widths_of(old(self).front()@),
                    old(self).viewport.width,
                ),
            ) + if final(self).viewport != old(self).viewport {
                "\x1b[2J"@
            } else {
                Seq::<char>::empty()
            },
    {
        let current = self.current;
        let diff = self.buffers[1 - current].diff(&self.buffers[current]);
        draw(w, diff);
        let ghost drawn = w@;

        self.buffers[1 - current].reset();
        self.current = 1 - current;

        self.viewport = Rect::new(0, 0, width, height);
        if self.buffers[self.current].area != self.viewport {
            let viewport = self.viewport;
            let ghost shown = self.buffers[1 - current];
            self.buffers[1 - current].resize(viewport);
            let ghost resized = self.buffers[1 - current];
            assert forall|i: int| 0 <= i < resized@.len() implies #[trigger] resized@[i]
                == CellView::blank() by {
                assert(resized@[i] == resized.content@[i]@);
                if i < shown@.len() {
                    assert(shown@[i] == CellView::blank());
                }
            }
            self.buffers[current].resize(viewport);
            self.buffers[current].reset();
            clear(w);
            assert(self.buffers[1 - current]@ =~= blank_frame(self.buffers[1 - current]@.len()));
        } else {
            assert(w@ =~= drawn + Seq::<char>::empty());
        }
    }

    /// The buffer to draw the next frame into.
    pub fn buffer(&mut self) -> (buffer: &mut Buffer)
        requires
            old(self).current < 2,
        ensures
            *buffer == old(self).front(),
            final(self).buffers@ == old(self).buffers@.update(
                old(self).current as int,
                *final(buffer),
            ),
            final(self).viewport == old(self).viewport,
            final(self).current == old(self).current,
    {
        &mut self.buffers[self.current]
    }
}

} // verus!
