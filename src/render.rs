//! Where each part of a board is painted: the squares of the cells and the
//! lines between them, in pixels. Painting itself is left to the host.
use vstd::prelude::*;

use crate::cell::Cell;
use crate::simulation::Simulation;

verus! {

/// The distance between two neighbouring cells, in pixels.
pub const STEP: usize = 20;

/// How far a cell's square stands in from the corner of its slot.
pub const INSET: usize = 2;

/// The side of a cell's square.
pub const SQUARE_SIDE: usize = 18;

/// How far the grid lines stand in from the origin.
pub const LINE_OFFSET: usize = 1;

/// A filled square for one cell.
#[derive(Clone, Copy, Debug, PartialEq, Eq, Structural)]
pub struct Square {
    pub x: usize,
    pub y: usize,
    pub side: usize,
    pub occupied: bool,
}

/// A straight line from `(x0, y0)` to `(x1, y1)`.
#[derive(Clone, Copy, Debug, PartialEq, Eq, Structural)]
pub struct Segment {
    pub x0: usize,
    pub y0: usize,
    pub x1: usize,
    pub y1: usize,
}

/// Every pixel offset of a board of side `n` fits in a `usize`.
pub open spec fn drawable(n: nat) -> bool {
    STEP * n + INSET <= usize::MAX
}

/// The square painted for the cell `c` at `(row, col)`.
pub open spec fn square_at(row: nat, col: nat, c: Cell) -> Square {
    Square {
        x: (STEP * row + INSET) as usize,
        y: (STEP * col + INSET) as usize,
        side: SQUARE_SIDE,
        occupied: c == Cell::Occupied,
    }
}

/// The far end of every grid line of a board of side `n`.
pub open spec fn line_end(n: nat) -> usize {
    (LINE_OFFSET + STEP * n) as usize
}

/// The `k`-th line across the first axis, spanning the whole board.
pub open spec fn first_axis_line(k: nat, n: nat) -> Segment {
    Segment {
        x0: (STEP * k + LINE_OFFSET) as usize,
        y0: LINE_OFFSET,
        x1: (STEP * k + LINE_OFFSET) as usize,
        y1: line_end(n),
    }
}

/// The `k`-th line across the second axis, spanning the whole board.
pub open spec fn second_axis_line(k: nat, n: nat) -> Segment {
    Segment {
        x0: LINE_OFFSET,
        y0: (STEP * k + LINE_OFFSET) as usize,
        x1: line_end(n),
        y1: (STEP * k + LINE_OFFSET) as usize,
    }
}

/// The `i`-th grid line of a board of side `n`: the lines across the two
/// axes alternate, starting with the first axis.
pub open spec fn grid_line(i: nat, n: nat) -> Segment {
    if i % 2 == 0 {
        first_axis_line(i / 2, n)
    } else {
        second_axis_line(i / 2, n)
    }
}

impl Simulation {
    /// The square to paint for every cell, row by row: the cell at
    /// `(row, col)` fills the square of side `SQUARE_SIDE` whose corner is at
    /// `STEP * row + INSET`, `STEP * col + INSET`.
    pub fn cell_squares(&self) -> (r: Vec<Vec<Square>>)
        requires
            self.wf(),
            drawable(self.spec_size()),
        ensures
            r@.len() == self.spec_size(),
            forall|i: int| 0 <= i < self.spec_size() ==> #[trigger] r@[i]@.len() == self.spec_size(),
            forall|i: int, j: int|
                0 <= i < self.spec_size() && 0 <= j < self.spec_size() ==> #[trigger] r@[i]@[j]
                    == square_at(i as nat, j as nat, self@[i][j]),
    {
        let n = self.size();
        let mut squares: Vec<Vec<Square>> = Vec::new();
        let mut i: usize = 0;
        let mut x: usize = INSET;
        while i < n
            invariant
                self.wf(),
                n == self.spec_size(),
                drawable(n as nat),
                i <= n,
                i < n ==> x == STEP * i + INSET,
                squares@.len() == i,
                forall|a: int| 0 <= a < i ==> #[trigger] squares@[a]@.len() == n,
                forall|a: int, b: int|
                    0 <= a < i && 0 <= b < n ==> #[trigger] squares@[a]@[b] == square_at(
                        a as nat,
                        b as nat,
                        self@[a][b],
                    ),
            decreases n - i,
        {
            let mut row: Vec<Square> = Vec::new();
            let mut j: usize = 0;
            let mut y: usize = INSET;
            while j < n
                invariant
                    self.wf(),
                    n == self.spec_size(),
                    drawable(n as nat),
                    i < n,
                    i < n ==> x == STEP * i + INSET,
                    j <= n,
                    j < n ==> y == STEP * j + INSET,
                    row@.len() == j,
                    forall|b: int| 0 <= b < j ==> #[trigger] row@[b] == square_at(i as nat, b as nat, self@[i as int][b]),
                decreases n - j,
            {
                let occupied = self.get(i, j).is_occupied();
                row.push(Square { x, y, side: SQUARE_SIDE, occupied });
                j = j + 1;
                if j < n {
                    y = y + STEP;
                }
            }
            squares.push(row);
            i = i + 1;
            if i < n {
                x = x + STEP;
            }
        }
        squares
    }

    /// The grid lines of the board: for each `k` in `0..=size`, the line
    /// across the first axis at `STEP * k + LINE_OFFSET`, then the one across
    /// the second axis at the same offset, each spanning the whole board.
    pub fn grid_lines(&self) -> (r: Vec<Segment>)
        requires
            self.wf(),
            drawable(self.spec_size()),
        ensures
            r@.len() == 2 * (self.spec_size() + 1),
            forall|i: int| 0 <= i < r@.len() ==> #[trigger] r@[i] == grid_line(i as nat, self.spec_size()),
    {
        let n = self.size();
        let end = LINE_OFFSET + STEP * n;
        let mut lines: Vec<Segment> = Vec::new();
        let mut k: usize = 0;
        let mut offset: usize = LINE_OFFSET;
        let count = n + 1;
        while k < count
            invariant
                n == self.spec_size(),
                count == n + 1,
                drawable(n as nat),
                end == line_end(n as nat),
                k <= count,
                k <= n ==> offset == STEP * k + LINE_OFFSET,
                lines@.len() == 2 * k,
                forall|i: int| 0 <= i < 2 * k ==> #[trigger] lines@[i] == grid_line(i as nat, n as nat),
            decreases count - k,
        {
            lines.push(Segment { x0: offset, y0: LINE_OFFSET, x1: offset, y1: end });
            lines.push(Segment { x0: LINE_OFFSET, y0: offset, x1: end, y1: offset });
            assert(lines@[2 * k as int] == grid_line(2 * k as nat, n as nat));
            assert(lines@[2 * k + 1] == grid_line((2 * k + 1) as nat, n as nat));
            k = k + 1;
            if k < count {
                offset = offset + STEP;
            }
        }
        lines
    }
}

} // verus!
