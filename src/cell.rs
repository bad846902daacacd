use vstd::prelude::*;

use crate::model::{seed_cell, OCCUPIED_BELOW};

verus! {

/// The state of one square of the board.
#[derive(Clone, Copy, Debug, PartialEq, Eq, Structural)]
pub enum Cell {
    Empty,
    Occupied,
}

/// The character that stands for a cell in the text form of a board.
pub open spec fn cell_char(c: Cell) -> char {
    match c {
        Cell::Empty => '_',
        Cell::Occupied => 'X',
    }
}

impl Cell {
    /// The cell that a sample seeds: occupied below `OCCUPIED_BELOW`, else empty.
    pub fn from_sample(sample: u32) -> (r: Cell)
        ensures
            r == seed_cell(sample),
    {
        if sample < OCCUPIED_BELOW {
            Cell::Occupied
        } else {
            Cell::Empty
        }
    }

    /// Whether the cell is occupied.
    pub fn is_occupied(&self) -> (r: bool)
        ensures
            r == (*self == Cell::Occupied),
    {
        match self {
            Cell::Empty => false,
            Cell::Occupied => true,
        }
    }
}

} // verus!
