//! The frame buffer: an owned `width x height` grid of styled cells,
//! row-major, the sole render target. It is cleared at the start of every
//! frame, written by every live droplet, and then flushed to the display by
//! the platform layer, which reads it cell by cell.

use vstd::prelude::*;

use crate::color::{blank_cell, make_blank_cell, Cell};

verus! {

pub struct Screen {
    pub width: usize,
    pub height: usize,
    pub buffer: Vec<Cell>,
}

impl Screen {
    /// The buffer holds exactly one cell per grid position.
    pub open spec fn wf(self) -> bool {
        self.buffer@.len() == self.width * self.height
    }

    /// The cell stored at `(row, col)`.
    pub open spec fn cell(self, row: int, col: int) -> Cell {
        self.buffer@[row * self.width + col]
    }

    /// Every grid position holds the blank cell.
    pub open spec fn all_blank(self) -> bool {
        forall|r: int, c: int|
            0 <= r < self.height && 0 <= c < self.width ==> self.cell(r, c) == blank_cell()
    }

    /// A row-major index stays within the buffer.
    proof fn lemma_index_in_bounds(self, row: int, col: int)
        requires
            self.wf(),
            0 <= row < self.height,
            0 <= col < self.width,
        ensures
            0 <= row * self.width + col < self.buffer@.len(),
    {
        assert(0 <= row * self.width + col < self.width * self.height) by (nonlinear_arith)
            requires
                0 <= row < self.height,
                0 <= col < self.width,
        ;
    }

    /// Distinct grid positions map to distinct buffer indices.
    proof fn lemma_index_injective(self, r1: int, c1: int, r2: int, c2: int)
        requires
            self.wf(),
            0 <= r1 < self.height,
            0 <= c1 < self.width,
            0 <= r2 < self.height,
            0 <= c2 < self.width,
            r1 * self.width + c1 == r2 * self.width + c2,
        ensures
            r1 == r2 && c1 == c2,
    {
        assert(r1 == r2 && c1 == c2) by (nonlinear_arith)
            requires
                0 <= c1 < self.width,
                0 <= c2 < self.width,
                0 <= r1,
                0 <= r2,
                r1 * self.width + c1 == r2 * self.width + c2,
        ;
    }

    /// Allocates a `width x height` grid with every cell blank.
    pub fn new(width: usize, height: usize) -> (r: Screen)
        requires
            width * height <= usize::MAX,
        ensures
            r.wf(),
            r.width == width,
            r.height == height,
            r.all_blank(),
    {
        let total: usize = width * height;
        let mut buffer: Vec<Cell> = Vec::new();
        let mut i: usize = 0;
        while i < total
            invariant
                i <= total,
                buffer@.len() == i,
                forall|j: int| 0 <= j < i ==> buffer@[j] == blank_cell(),
            decreases total - i,
        {
            buffer.push(make_blank_cell());
            i = i + 1;
        }
        let s = Screen { width, height, buffer };
        proof {
            assert forall|r: int, c: int|
                0 <= r < s.height && 0 <= c < s.width implies s.cell(r, c) == blank_cell() by {
                s.lemma_index_in_bounds(r, c);
            }
        }
        s
    }

    /// Resets every cell to blank; the grid dimensions are unchanged.
    pub fn clear(&mut self)
        requires
            old(self).wf(),
        ensures
            final(self).wf(),
            final(self).width == old(self).width,
            final(self).height == old(self).height,
            final(self).all_blank(),
    {
        let total: usize = self.buffer.len();
        let mut i: usize = 0;
        while i < total
            invariant
                i <= total,
                self.buffer@.len() == total,
                self.width == old(self).width,
                self.height == old(self).height,
                total == self.width * self.height,
                forall|j: int| 0 <= j < i ==> self.buffer@[j] == blank_cell(),
            decreases total - i,
        {
            self.buffer[i] = make_blank_cell();
            i = i + 1;
        }
        proof {
            assert forall|r: int, c: int|
                0 <= r < self.height && 0 <= c < self.width implies self.cell(r, c)
                    == blank_cell() by {
                self.lemma_index_in_bounds(r, c);
            }
        }
    }

    /// Stores `c` at `(row, col)`; every other cell is unchanged. Callers
    /// keep coordinates in range: droplets filter rows before writing and
    /// their columns are sampled within the grid at spawn time.
    pub fn write_at_pos(&mut self, c: Cell, row: usize, col: usize)
        requires
            old(self).wf(),
            row < old(self).height,
            col < old(self).width,
        ensures
            final(self).wf(),
            final(self).width == old(self).width,
            final(self).height == old(self).height,
            final(self).cell(row as int, col as int) == c,
            forall|r: int, cl: int|
                0 <= r < old(self).height && 0 <= cl < old(self).width && !(r == row && cl == col)
                    ==> final(self).cell(r, cl) == old(self).cell(r, cl),
    {
        proof {
            self.lemma_index_in_bounds(row as int, col as int);
        }
        let n: usize = self.buffer.len();
        assert(row * self.width + col < n);
        let idx: usize = col + self.width * row;
        assert(idx == row * self.width + col);
        self.buffer[idx] = c;
        proof {
            assert forall|r: int, cl: int|
                0 <= r < old(self).height && 0 <= cl < old(self).width && !(r == row && cl == col)
                    implies final(self).cell(r, cl) == old(self).cell(r, cl) by {
                self.lemma_index_in_bounds(r, cl);
                if r * self.width + cl == row * self.width + col {
                    self.lemma_index_injective(r, cl, row as int, col as int);
                }
            }
        }
    }

    /// Reads the cell at `(row, col)`; the platform layer serializes the
    /// whole grid in row-major order through this accessor when it flushes
    /// a frame to the display.
    pub fn cell_at(&self, row: usize, col: usize) -> (r: Cell)
        requires
            self.wf(),
            row < self.height,
            col < self.width,
        ensures
            r == self.cell(row as int, col as int),
    {
        proof {
            self.lemma_index_in_bounds(row as int, col as int);
        }
        let n: usize = self.buffer.len();
        assert(row * self.width + col < n);
        self.buffer[col + self.width * row]
    }
}

} // verus!
