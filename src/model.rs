use vstd::prelude::*;

use crate::cell::{cell_char, Cell};

verus! {

/// A board is square: `n` rows of `n` cells each.
pub open spec fn is_square(g: Seq<Seq<Cell>>, n: nat) -> bool {
    &&& g.len() == n
    &&& forall|r: int| 0 <= r < n ==> #[trigger] g[r].len() == n
}

/// The board of side `n` with every cell empty.
pub open spec fn empty_grid(n: nat) -> Seq<Seq<Cell>> {
    Seq::new(n, |r: int| Seq::new(n, |c: int| Cell::Empty))
}

/// Whether `(r, c)` lies on the board and holds an occupied cell.
/// Positions off the board count as unoccupied: there is no wraparound.
pub open spec fn occupied(g: Seq<Seq<Cell>>, r: int, c: int) -> bool {
    &&& 0 <= r < g.len()
    &&& 0 <= c < g[r].len()
    &&& g[r][c] == Cell::Occupied
}

/// 1 if `(r, c)` is an occupied position of the board, else 0.
pub open spec fn occ(g: Seq<Seq<Cell>>, r: int, c: int) -> int {
    if occupied(g, r, c) {
        1
    } else {
        0
    }
}

/// The number of occupied cells among the eight positions around `(r, c)`.
pub open spec fn neighbor_count(g: Seq<Seq<Cell>>, r: int, c: int) -> int {
    occ(g, r - 1, c - 1) + occ(g, r - 1, c) + occ(g, r - 1, c + 1) + occ(g, r, c - 1) + occ(
        g,
        r,
        c + 1,
    ) + occ(g, r + 1, c - 1) + occ(g, r + 1, c) + occ(g, r + 1, c + 1)
}

/// The rule of the game: a cell with three occupied neighbours is occupied
/// next; an occupied cell with two stays occupied; every other cell is empty.
pub open spec fn next_cell(current: Cell, neighbors: int) -> Cell {
    if neighbors == 3 {
        Cell::Occupied
    } else if neighbors == 2 && current == Cell::Occupied {
        Cell::Occupied
    } else {
        Cell::Empty
    }
}

/// The next generation: every cell follows the rule, with the neighbour
/// counts all taken from the current generation.
pub open spec fn step(g: Seq<Seq<Cell>>) -> Seq<Seq<Cell>> {
    Seq::new(
        g.len(),
        |r: int| Seq::new(g[r].len(), |c: int| next_cell(g[r][c], neighbor_count(g, r, c))),
    )
}

/// Samples for seeding a board are drawn uniformly from `0..SAMPLE_RANGE`.
pub const SAMPLE_RANGE: u32 = 1000;

/// A sample below this bound seeds an occupied cell, so a cell is occupied
/// with probability `OCCUPIED_BELOW / SAMPLE_RANGE` (0.4).
pub const OCCUPIED_BELOW: u32 = 400;

/// The cell that a sample seeds: occupied below `OCCUPIED_BELOW`, else empty.
pub open spec fn seed_cell(sample: u32) -> Cell {
    if sample < OCCUPIED_BELOW {
        Cell::Occupied
    } else {
        Cell::Empty
    }
}

/// The board seeded from a matrix of samples, one per cell.
pub open spec fn seeded_grid(samples: Seq<Seq<u32>>) -> Seq<Seq<Cell>> {
    Seq::new(samples.len(), |r: int| samples[r].map_values(|s: u32| seed_cell(s)))
}

/// The text of one row: a character per cell, then a newline.
pub open spec fn row_text(row: Seq<Cell>) -> Seq<char> {
    row.map_values(|c: Cell| cell_char(c)).push('\n')
}

/// The text form of a board: its rows in order, each as `row_text`.
pub open spec fn grid_text(g: Seq<Seq<Cell>>) -> Seq<char>
    decreases g.len(),
{
    if g.len() == 0 {
        Seq::empty()
    } else {
        grid_text(g.drop_last()) + row_text(g.last())
    }
}

} // verus!
