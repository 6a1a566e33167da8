//! One falling glyph stream. A droplet owns a fixed column, the row of its
//! leading edge, a bounded trailing history of glyphs (newest at the back),
//! and an independent advance timer. It paints itself into the frame buffer
//! and advances on its own schedule; time is handed in as a millisecond
//! timestamp so a run is fully reproducible.

use std::collections::VecDeque;

use vstd::prelude::*;

use crate::color::{rendered_cell, styled_cell, Cell};
use crate::sampling;
use crate::screen::Screen;

verus! {

#[derive(Debug)]
pub struct Droplet {
    /// Row of the leading edge; grows by exactly one per advance.
    pub row: u32,
    /// Column the stream falls down; fixed for the droplet's lifetime.
    pub column: u16,
    /// Bound on the trailing history, at least one.
    pub length: u16,
    /// Minimum milliseconds between advances.
    pub speed: u64,
    /// Millisecond timestamp of the last advance.
    pub last_update: u64,
    /// Trailing history of glyphs, oldest at the front, newest at the back.
    pub trace: VecDeque<char>,
}

/// The fixed alphabet glyphs are drawn from: the halfwidth-katakana code
/// points 65382..65437. The specific set is a replaceable visual asset,
/// not part of the simulation's logic.
pub open spec fn glyph_in_alphabet(c: char) -> bool {
    65382 <= (c as int) && (c as int) < 65437
}

/// The trace after the oldest glyph is shed: the front is removed exactly
/// when the trace has reached its bound.
pub open spec fn popped_trace(t: Seq<char>, length: int) -> Seq<char> {
    if t.len() >= length {
        t.subrange(1, t.len() as int)
    } else {
        t
    }
}

/// The trace length after one advance: the oldest glyph is shed when the
/// trace is full, and a fresh glyph is appended while the new head row is
/// still above the bottom edge.
pub open spec fn advanced_trace_len(len: int, length: int, new_row: int, height: int) -> int {
    let after_pop = if len >= length {
        len - 1
    } else {
        len
    };
    if new_row < height {
        after_pop + 1
    } else {
        after_pop
    }
}

/// One advance keeps the trace bounds `1 <= len(trace) <= max_length`.
/// The single exception is a droplet of bound one whose head has passed the
/// bottom edge: it sheds its only glyph without drawing a fresh one, and its
/// trace drains to empty just before the engine evicts it.
pub proof fn lemma_trace_bounds_preserved(len: int, length: int, new_row: int, height: int)
    requires
        1 <= len <= length,
        2 <= length || new_row < height,
    ensures
        1 <= advanced_trace_len(len, length, new_row, height) <= length,
{
}

/// How one `tick` call relates a droplet's next state to its previous one:
/// nothing changes before the interval elapses; otherwise the head moves
/// down one row, the timer is reset, a full trace sheds its oldest glyph,
/// and a fresh alphabet glyph is appended while the new head row is still
/// above the bottom edge.
pub open spec fn tick_rel(pre: Droplet, post: Droplet, now: u64, height: u16) -> bool {
    &&& post.column == pre.column
    &&& post.length == pre.length
    &&& post.speed == pre.speed
    &&& if !pre.due(now) {
        post == pre
    } else {
        &&& post.row == pre.row + 1
        &&& post.last_update == now
        &&& if pre.row + 1 < height {
            exists|g: char|
                glyph_in_alphabet(g) && post.trace@ == popped_trace(
                    pre.trace@,
                    pre.length as int,
                ).push(g)
        } else {
            post.trace@ == popped_trace(pre.trace@, pre.length as int)
        }
    }
}

impl Droplet {
    /// The trailing history never outgrows its bound, and the bound is at
    /// least one.
    pub open spec fn wf(self) -> bool {
        &&& 1 <= self.length
        &&& self.trace@.len() <= self.length
    }

    /// An advance is due: at least `speed` milliseconds have passed since
    /// the last one.
    pub open spec fn due(self, now: u64) -> bool {
        now >= self.last_update + self.speed
    }

    /// The whole trailing history has scrolled past the bottom edge.
    pub open spec fn off_screen(self, height: u16) -> bool {
        self.row >= height + self.length
    }

    /// The grid positions this droplet paints: its own column, from the
    /// head row up through the trace.
    pub open spec fn covers(self, r: int, c: int) -> bool {
        c == self.column as int && self.row - self.trace@.len() < r <= self.row
    }

    /// The cell this droplet paints at row `r`: the glyph at distance
    /// `row - r` from the head, styled by that distance.
    pub open spec fn rendered_at(self, r: int) -> Cell {
        let d = self.row - r;
        rendered_cell(self.trace@[self.trace@.len() - 1 - d], self.length as int, d)
    }

    /// Creates a droplet whose trace holds exactly one freshly drawn glyph.
    /// A history bound of zero is invalid: the bound must be at least one.
    pub fn new(
        row: u32,
        column: u16,
        length: u16,
        speed: u64,
        now: u64,
        rng: &mut rand::rngs::StdRng,
    ) -> (r: Droplet)
        requires
            1 <= length,
        ensures
            r.wf(),
            r.row == row,
            r.column == column,
            r.length == length,
            r.speed == speed,
            r.last_update == now,
            r.trace@.len() == 1,
            glyph_in_alphabet(r.trace@[0]),
    {
        let mut trace: VecDeque<char> = VecDeque::with_capacity(length as usize);
        trace.push_back(Droplet::draw_letter(rng));
        Droplet { row, column, length, speed, last_update: now, trace }
    }

    /// Draws one glyph uniformly from the fixed alphabet.
    pub fn draw_letter(rng: &mut rand::rngs::StdRng) -> (r: char)
        ensures
            glyph_in_alphabet(r),
    {
        let n = sampling::glyph_alphabet_len();
        let i = sampling::sample_range_usize(rng, 0, n);
        match sampling::glyph_alphabet_nth(i) {
            Some(c) => c,
            None => {
                proof {
                    assert(false);
                }
                ' '
            },
        }
    }

    /// The trailing history has reached its bound.
    pub fn is_full(&self) -> (r: bool)
        ensures
            r == (self.trace@.len() >= self.length),
    {
        self.trace.len() >= self.length as usize
    }

    /// The head has reached the bottom edge, so the droplet no longer draws
    /// fresh glyphs.
    pub fn is_running_out(&self, height: u16) -> (r: bool)
        ensures
            r == (self.row >= height),
    {
        self.row >= height as u32
    }

    /// True exactly when the whole trailing history has scrolled past the
    /// bottom edge, i.e. `head row >= height + max_length`; the engine
    /// evicts such a droplet.
    pub fn is_invisible(&self, height: u16) -> (r: bool)
        ensures
            r == self.off_screen(height),
    {
        self.row >= height as u32 + self.length as u32
    }

    /// Advances the droplet once, if its interval has elapsed: the head
    /// moves down one row, a full trace sheds its oldest glyph, and a fresh
    /// glyph is appended while the new head row is above the bottom edge.
    /// Calling before the interval elapses changes nothing, and the head
    /// row never decreases.
    pub fn tick(&mut self, rng: &mut rand::rngs::StdRng, now: u64, height: u16)
        requires
            old(self).wf(),
            old(self).due(now) ==> old(self).row < u32::MAX,
        ensures
            final(self).wf(),
            tick_rel(*old(self), *final(self), now, height),
            final(self).row >= old(self).row,
            !old(self).due(now) ==> *final(self) == *old(self),
            old(self).due(now) ==> final(self).trace@.len() == advanced_trace_len(
                old(self).trace@.len() as int,
                old(self).length as int,
                old(self).row + 1,
                height as int,
            ),
    {
        if !(now >= self.last_update && now - self.last_update >= self.speed) {
            return ;
        }
        self.row = self.row + 1;
        if self.is_full() {
            self.trace.pop_front();
        }
        assert(self.trace@ == popped_trace(old(self).trace@, old(self).length as int));
        if !self.is_running_out(height) {
            let g = Droplet::draw_letter(rng);
            self.trace.push_back(g);
        }
        self.last_update = now;
    }

    /// Paints the trace into the buffer: the glyph at distance `d` from the
    /// head lands on row `head row - d` of the droplet's column, styled by
    /// its distance; rows outside the grid are skipped, and every other
    /// cell keeps its previous content.
    pub fn write(&self, screen: &mut Screen)
        requires
            self.wf(),
            old(screen).wf(),
            (self.column as int) < old(screen).width,
        ensures
            final(screen).wf(),
            final(screen).width == old(screen).width,
            final(screen).height == old(screen).height,
            forall|r: int, c: int|
                0 <= r < old(screen).height && 0 <= c < old(screen).width ==> final(screen).cell(
                    r,
                    c,
                ) == (if self.covers(r, c) {
                    self.rendered_at(r)
                } else {
                    old(screen).cell(r, c)
                }),
    {
        let len: usize = self.trace.len();
        let mut d: usize = 0;
        while d < len
            invariant
                d <= len,
                len == self.trace@.len(),
                self.wf(),
                screen.wf(),
                screen.width == old(screen).width,
                screen.height == old(screen).height,
                (self.column as int) < screen.width,
                forall|r: int, c: int|
                    0 <= r < screen.height && 0 <= c < screen.width ==> screen.cell(r, c) == (if (c
                        == self.column as int && self.row - d < r <= self.row) {
                        self.rendered_at(r)
                    } else {
                        old(screen).cell(r, c)
                    }),
            decreases len - d,
        {
            if (d as u32) <= self.row {
                let target: u32 = self.row - (d as u32);
                if (target as usize) < screen.height {
                    let glyph: char = self.trace[len - 1 - d];
                    let cell = styled_cell(glyph, self.length, d as u16);
                    screen.write_at_pos(cell, target as usize, self.column as usize);
                }
            }
            d = d + 1;
        }
    }
}

} // verus!
