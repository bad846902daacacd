use vstd::prelude::*;
use vstd::string::*;

use crate::cell::{cell_char, Cell};
use crate::model::{
    empty_grid, grid_text, is_square, neighbor_count, next_cell, seeded_grid, step,
};

verus! {

/// The side of the board that `create_simulation` makes.
pub const DEFAULT_SIZE: usize = 15;

/// A square board of cells and the number of generations computed so far.
pub struct Simulation {
    size: usize,
    cells: Vec<Vec<Cell>>,
    turn: usize,
}

impl View for Simulation {
    type V = Seq<Seq<Cell>>;

    /// The board as a matrix of cells, row by row.
    closed spec fn view(&self) -> Seq<Seq<Cell>> {
        self.cells@.map_values(|row: Vec<Cell>| row@)
    }
}

impl Simulation {
    /// The side of the board.
    pub closed spec fn spec_size(&self) -> nat {
        self.size as nat
    }

    /// How many generations `simulate` has computed on this board.
    pub closed spec fn spec_turn(&self) -> nat {
        self.turn as nat
    }

    /// The board has a side of at least one and is square of that side.
    pub open spec fn wf(&self) -> bool {
        &&& self.spec_size() >= 1
        &&& is_square(self@, self.spec_size())
    }

    /// A board of side `size` with every cell empty, at turn 0; `None` when
    /// `size` is 0.
    pub fn new_with_size(size: usize) -> (r: Option<Self>)
        ensures
            size == 0 <==> r is None,
            r matches Some(s) ==> {
                &&& s.wf()
                &&& s.spec_size() == size
                &&& s@ == empty_grid(size as nat)
                &&& s.spec_turn() == 0
            },
    {
        if size == 0 {
            return None;
        }
        let mut cells: Vec<Vec<Cell>> = Vec::new();
        let mut i: usize = 0;
        while i < size
            invariant
                i <= size,
                cells@.len() == i,
                forall|r: int| 0 <= r < i ==> #[trigger] cells@[r]@ == Seq::new(size as nat, |c: int| Cell::Empty),
            decreases size - i,
        {
            let mut row: Vec<Cell> = Vec::new();
            let mut j: usize = 0;
            while j < size
                invariant
                    j <= size,
                    row@ == Seq::new(j as nat, |c: int| Cell::Empty),
                decreases size - j,
            {
                row.push(Cell::Empty);
                j = j + 1;
                assert(row@ =~= Seq::new(j as nat, |c: int| Cell::Empty));
            }
            cells.push(row);
            i = i + 1;
        }
        let s = Simulation { size, cells, turn: 0 };
        assert(s@ =~= empty_grid(size as nat));
        Some(s)
    }

    /// The side of the board.
    pub fn size(&self) -> (r: usize)
        ensures
            r == self.spec_size(),
    {
        self.size
    }

    /// How many generations `simulate` has computed on this board.
    pub fn turn(&self) -> (r: usize)
        ensures
            r == self.spec_turn(),
    {
        self.turn
    }

    /// The cell at `(row, col)`.
    pub fn get(&self, row: usize, col: usize) -> (r: Cell)
        requires
            self.wf(),
            row < self.spec_size(),
            col < self.spec_size(),
        ensures
            r == self@[row as int][col as int],
    {
        assert(self.cells@[row as int]@ == self@[row as int]);
        self.cells[row][col]
    }

    /// Puts `cell` at `(row, col)` and leaves every other cell and the turn as they were.
    pub fn set(&mut self, row: usize, col: usize, cell: Cell)
        requires
            old(self).wf(),
            row < old(self).spec_size(),
            col < old(self).spec_size(),
        ensures
            final(self).wf(),
            final(self).spec_size() == old(self).spec_size(),
            final(self).spec_turn() == old(self).spec_turn(),
            final(self)@ == old(self)@.update(row as int, old(self)@[row as int].update(col as int, cell)),
    {
        assert(self.cells@[row as int]@ == self@[row as int]);
        self.cells[row][col] = cell;
        assert(self@ =~= old(self)@.update(row as int, old(self)@[row as int].update(col as int, cell)));
    }

    /// The number of occupied cells among the up to eight positions around
    /// `(row, col)` that lie on the board.
    pub fn count_neighbors(&self, row: usize, col: usize) -> (r: usize)
        requires
            self.wf(),
            row < self.spec_size(),
            col < self.spec_size(),
        ensures
            r == neighbor_count(self@, row as int, col as int),
            r <= 8,
    {
        let up = row > 0;
        let down = row + 1 < self.size;
        let left = col > 0;
        let right = col + 1 < self.size;
        let mut count: usize = 0;
        if up && left && self.get(row - 1, col - 1).is_occupied() {
            count = count + 1;
        }
        if up && self.get(row - 1, col).is_occupied() {
            count = count + 1;
        }
        if up && right && self.get(row - 1, col + 1).is_occupied() {
            count = count + 1;
        }
        if left && self.get(row, col - 1).is_occupied() {
            count = count + 1;
        }
        if right && self.get(row, col + 1).is_occupied() {
            count = count + 1;
        }
        if down && left && self.get(row + 1, col - 1).is_occupied() {
            count = count + 1;
        }
        if down && self.get(row + 1, col).is_occupied() {
            count = count + 1;
        }
        if down && right && self.get(row + 1, col + 1).is_occupied() {
            count = count + 1;
        }
        count
    }

    /// Advances the board by one generation: every cell's next state is
    /// computed from the current generation, then the whole board is
    /// replaced and the turn goes up by one.
    pub fn simulate(&mut self)
        requires
            old(self).wf(),
            old(self).spec_turn() < usize::MAX,
        ensures
            final(self).wf(),
            final(self).spec_size() == old(self).spec_size(),
            final(self)@ == step(old(self)@),
            final(self).spec_turn() == old(self).spec_turn() + 1,
    {
        let g = Ghost(self@);
        let n = self.size;
        let mut next: Vec<Vec<Cell>> = Vec::new();
        let mut i: usize = 0;
        while i < n
            invariant
                self.wf(),
                self@ == g@,
                n == self.spec_size(),
                i <= n,
                next@.len() == i,
                forall|r: int| 0 <= r < i ==> #[trigger] next@[r]@ == step(g@)[r],
            decreases n - i,
        {
            let mut row: Vec<Cell> = Vec::new();
            let mut j: usize = 0;
            while j < n
                invariant
                    self.wf(),
                    self@ == g@,
                    n == self.spec_size(),
                    i < n,
                    j <= n,
                    row@ == step(g@)[i as int].take(j as int),
                decreases n - j,
            {
                let neighbors = self.count_neighbors(i, j);
                let current = self.get(i, j);
                let cell = if neighbors == 3 {
                    Cell::Occupied
                } else if neighbors == 2 && current.is_occupied() {
                    Cell::Occupied
                } else {
                    Cell::Empty
                };
                assert(cell == next_cell(g@[i as int][j as int], neighbor_count(g@, i as int, j as int)));
                row.push(cell);
                j = j + 1;
                assert(row@ =~= step(g@)[i as int].take(j as int));
            }
            assert(row@ =~= step(g@)[i as int]);
            next.push(row);
            i = i + 1;
        }
        self.cells = next;
        self.turn = self.turn + 1;
        assert(self@ =~= step(g@));
    }

    /// Reseeds every cell from its own sample (see `Cell::from_sample`);
    /// `samples` holds one row of samples per row of the board. The turn is
    /// left as it was.
    pub fn fill_random(&mut self, samples: &Vec<Vec<u32>>)
        requires
            old(self).wf(),
            samples@.len() == old(self).spec_size(),
            forall|r: int| 0 <= r < samples@.len() ==> #[trigger] samples@[r]@.len() == old(self).spec_size(),
        ensures
            final(self).wf(),
            final(self).spec_size() == old(self).spec_size(),
            final(self)@ == seeded_grid(samples@.map_values(|row: Vec<u32>| row@)),
            final(self).spec_turn() == old(self).spec_turn(),
    {
        let ghost target = seeded_grid(samples@.map_values(|row: Vec<u32>| row@));
        let n = self.size;
        let mut next: Vec<Vec<Cell>> = Vec::new();
        let mut i: usize = 0;
        while i < n
            invariant
                n == self.spec_size(),
                samples@.len() == n,
                forall|r: int| 0 <= r < n ==> #[trigger] samples@[r]@.len() == n,
                target == seeded_grid(samples@.map_values(|row: Vec<u32>| row@)),
                i <= n,
                next@.len() == i,
                forall|r: int| 0 <= r < i ==> #[trigger] next@[r]@ == target[r],
            decreases n - i,
        {
            let mut row: Vec<Cell> = Vec::new();
            let mut j: usize = 0;
            while j < n
                invariant
                    samples@.len() == n,
                    forall|r: int| 0 <= r < n ==> #[trigger] samples@[r]@.len() == n,
                    target == seeded_grid(samples@.map_values(|row: Vec<u32>| row@)),
                    i < n,
                    j <= n,
                    row@ == target[i as int].take(j as int),
                decreases n - j,
            {
                row.push(Cell::from_sample(samples[i][j]));
                j = j + 1;
                assert(row@ =~= target[i as int].take(j as int));
            }
            assert(row@ =~= target[i as int]);
            next.push(row);
            i = i + 1;
        }
        self.cells = next;
        assert(self@ =~= target);
    }

    /// The board as text: one line per row, `_` for an empty cell and `X`
    /// for an occupied one, each line ended by a newline.
    pub fn to_string(&self) -> (r: String)
        requires
            self.wf(),
        ensures
            r@ == grid_text(self@),
    {
        let ghost g = self@;
        let n = self.size;
        let mut text = String::new();
        let mut i: usize = 0;
        while i < n
            invariant
                self.wf(),
                self@ == g,
                n == self.spec_size(),
                i <= n,
                text@ == grid_text(g.take(i as int)),
            decreases n - i,
        {
            let ghost before = text@;
            let mut j: usize = 0;
            while j < n
                invariant
                    self.wf(),
                    self@ == g,
                    n == self.spec_size(),
                    i < n,
                    j <= n,
                    text@ == before + g[i as int].take(j as int).map_values(|c: Cell| cell_char(c)),
                decreases n - j,
            {
                proof {
                    reveal_strlit("_");
                    reveal_strlit("X");
                }
                if self.get(i, j).is_occupied() {
                    text.append("X");
                } else {
                    text.append("_");
                }
                j = j + 1;
                assert(text@ =~= before + g[i as int].take(j as int).map_values(|c: Cell| cell_char(c)));
            }
            proof {
                reveal_strlit("\n");
            }
            text.append("\n");
            assert(g.take(i + 1).drop_last() =~= g.take(i as int));
            assert(g[i as int].take(n as int) =~= g[i as int]);
            assert(text@ =~= grid_text(g.take(i + 1)));
            i = i + 1;
        }
        assert(g.take(n as int) =~= g);
        text
    }
}

/// The board of the default side, every cell empty, at turn 0.
pub fn create_simulation() -> (r: Simulation)
    ensures
        r.wf(),
        r.spec_size() == DEFAULT_SIZE,
        r@ == empty_grid(DEFAULT_SIZE as nat),
        r.spec_turn() == 0,
{
    Simulation::new_with_size(DEFAULT_SIZE).unwrap()
}

} // verus!
