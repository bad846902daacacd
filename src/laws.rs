//! Facts about the rule of the game, proved over the model that the
//! contracts of `Simulation` speak of.
use vstd::prelude::*;

use crate::cell::Cell;
use crate::model::{is_square, neighbor_count, step};

verus! {

/// A neighbour count is between 0 and 8.
pub proof fn lemma_neighbor_count_bounds(g: Seq<Seq<Cell>>, r: int, c: int)
    ensures
        0 <= neighbor_count(g, r, c) <= 8,
{
}

/// On a board of side at least 2, a corner cell has at most 3 occupied
/// neighbours, since only 3 of its neighbouring positions lie on the board.
pub proof fn lemma_corner_neighbor_count(g: Seq<Seq<Cell>>, n: nat, r: int, c: int)
    requires
        is_square(g, n),
        n >= 2,
        r == 0 || r == n - 1,
        c == 0 || c == n - 1,
    ensures
        0 <= neighbor_count(g, r, c) <= 3,
{
}

/// A cell on an edge of the board has at most 5 occupied neighbours.
pub proof fn lemma_edge_neighbor_count(g: Seq<Seq<Cell>>, n: nat, r: int, c: int)
    requires
        is_square(g, n),
        0 <= r < n,
        0 <= c < n,
        r == 0 || r == n - 1 || c == 0 || c == n - 1,
    ensures
        0 <= neighbor_count(g, r, c) <= 5,
{
}

/// An occupied cell with no occupied neighbour is empty after one step.
pub proof fn lemma_isolated_cell_dies(g: Seq<Seq<Cell>>, n: nat, r: int, c: int)
    requires
        is_square(g, n),
        0 <= r < n,
        0 <= c < n,
        g[r][c] == Cell::Occupied,
        neighbor_count(g, r, c) == 0,
    ensures
        step(g)[r][c] == Cell::Empty,
{
}

/// A cell with exactly three occupied neighbours is occupied after one
/// step, whatever its state before.
pub proof fn lemma_three_neighbors_give_birth(g: Seq<Seq<Cell>>, n: nat, r: int, c: int)
    requires
        is_square(g, n),
        0 <= r < n,
        0 <= c < n,
        neighbor_count(g, r, c) == 3,
    ensures
        step(g)[r][c] == Cell::Occupied,
{
}

/// The board whose occupied cells are exactly the 2×2 block with its
/// top-left corner at `(r0, c0)`.
pub open spec fn is_lone_block(g: Seq<Seq<Cell>>, n: nat, r0: int, c0: int) -> bool {
    &&& is_square(g, n)
    &&& 0 <= r0 && r0 + 1 < n
    &&& 0 <= c0 && c0 + 1 < n
    &&& forall|r: int, c: int|
        0 <= r < n && 0 <= c < n ==> (#[trigger] g[r][c] == Cell::Occupied <==> (r0 <= r <= r0 + 1
            && c0 <= c <= c0 + 1))
}

/// A 2×2 block of occupied cells alone on the board is a still life: one
/// step leaves the board as it was.
pub proof fn lemma_block_is_still(g: Seq<Seq<Cell>>, n: nat, r0: int, c0: int)
    requires
        is_lone_block(g, n, r0, c0),
    ensures
        step(g) == g,
{
    let s = step(g);
    assert forall|r: int| 0 <= r < n implies #[trigger] s[r] == g[r] by {
        assert forall|c: int| 0 <= c < n implies #[trigger] s[r][c] == g[r][c] by {
        }
        assert(s[r] =~= g[r]);
    }
    assert(s =~= g);
}

} // verus!
