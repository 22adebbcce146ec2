//! The two-state cell and the transition rule applied to a single cell.

use vstd::prelude::*;

verus! {

/// One cell of the grid: exactly two states.
#[derive(Clone, Copy, Debug, PartialEq, Eq, Structural)]
pub enum Cell {
    Dead,
    Alive,
}

/// Integer projection of a cell, so that live neighbors can be summed:
/// a dead cell contributes 0 and a live cell contributes 1.
pub open spec fn cell_value(c: Cell) -> nat {
    match c {
        Cell::Dead => 0,
        Cell::Alive => 1,
    }
}

impl Cell {
    /// Executable integer projection: 0 for `Dead`, 1 for `Alive`.
    pub fn as_u8(self) -> (r: u8)
        ensures
            r == cell_value(self),
    {
        match self {
            Cell::Dead => 0,
            Cell::Alive => 1,
        }
    }
}

/// The classic rule: the next state of a cell from its current state and
/// its current live-neighbor count.
///
/// A live cell survives with 2 or 3 live neighbors and otherwise dies
/// (underpopulation below 2, overpopulation above 3); a dead cell becomes
/// alive with exactly 3 live neighbors and otherwise stays dead.
pub open spec fn next_cell(c: Cell, live_neighbors: nat) -> Cell {
    match c {
        Cell::Alive => if 2 <= live_neighbors <= 3 {
            Cell::Alive
        } else {
            Cell::Dead
        },
        Cell::Dead => if live_neighbors == 3 {
            Cell::Alive
        } else {
            Cell::Dead
        },
    }
}

/// Apply the transition rule to one cell.
pub fn apply_rule(c: Cell, live_neighbors: u8) -> (r: Cell)
    ensures
        r == next_cell(c, live_neighbors as nat),
{
    match (c, live_neighbors) {
        (Cell::Alive, x) if x < 2 => Cell::Dead,
        (Cell::Dead, 3) => Cell::Alive,
        (Cell::Alive, x) if x > 3 => Cell::Dead,
        (Cell::Alive, 2) | (Cell::Alive, 3) => Cell::Alive,
        (otherwise, _) => otherwise,
    }
}

/// The transition rule, case by case: a live cell with fewer than 2 live
/// neighbors dies; a live cell with 2 or 3 survives; a live cell with more
/// than 3 dies; a dead cell with exactly 3 becomes alive; a dead cell with
/// any other count stays dead.
pub proof fn lemma_rule_table(c: Cell, n: nat)
    ensures
        c == Cell::Alive && n < 2 ==> next_cell(c, n) == Cell::Dead,
        c == Cell::Alive && (n == 2 || n == 3) ==> next_cell(c, n) == Cell::Alive,
        c == Cell::Alive && n > 3 ==> next_cell(c, n) == Cell::Dead,
        c == Cell::Dead && n == 3 ==> next_cell(c, n) == Cell::Alive,
        c == Cell::Dead && n != 3 ==> next_cell(c, n) == Cell::Dead,
{
}

} // verus!
