//! General properties of the engine, stated and proved once for all
//! grids: the neighbor count's range and locality, wrap-around at the
//! grid's corner, and determinism of the step.

use vstd::prelude::*;

use crate::cell::Cell;
use crate::cell::cell_value;
use crate::grid::Universe;
use crate::grid::cell_at;
use crate::grid::initial_cells;
use crate::grid::neighbor_count_spec;
use crate::grid::next_gen;
use crate::grid::wrap_dec;
use crate::grid::wrap_inc;

verus! {

/// The live-neighbor count is a sum of eight cell values, so it lies in
/// [0, 8] for every grid and every coordinate.
pub proof fn lemma_neighbor_count_range(
    cells: Seq<Cell>,
    width: nat,
    height: nat,
    row: nat,
    col: nat,
)
    ensures
        neighbor_count_spec(cells, width, height, row, col) <= 8,
{
}

/// The live-neighbor count depends only on the eight cells of the
/// surrounding neighborhood: any two positions, on any two grids and at
/// any wrap position, whose corresponding neighbors hold equal cells have
/// equal counts.
pub proof fn lemma_neighbor_count_local(
    c1: Seq<Cell>,
    w1: nat,
    h1: nat,
    r1: nat,
    col1: nat,
    c2: Seq<Cell>,
    w2: nat,
    h2: nat,
    r2: nat,
    col2: nat,
)
    requires
        cell_at(c1, w1, wrap_dec(r1, h1), wrap_dec(col1, w1)) == cell_at(
            c2,
            w2,
            wrap_dec(r2, h2),
            wrap_dec(col2, w2),
        ),
        cell_at(c1, w1, wrap_dec(r1, h1), col1) == cell_at(c2, w2, wrap_dec(r2, h2), col2),
        cell_at(c1, w1, wrap_dec(r1, h1), wrap_inc(col1, w1)) == cell_at(
            c2,
            w2,
            wrap_dec(r2, h2),
            wrap_inc(col2, w2),
        ),
        cell_at(c1, w1, r1, wrap_dec(col1, w1)) == cell_at(c2, w2, r2, wrap_dec(col2, w2)),
        cell_at(c1, w1, r1, wrap_inc(col1, w1)) == cell_at(c2, w2, r2, wrap_inc(col2, w2)),
        cell_at(c1, w1, wrap_inc(r1, h1), wrap_dec(col1, w1)) == cell_at(
            c2,
            w2,
            wrap_inc(r2, h2),
            wrap_dec(col2, w2),
        ),
        cell_at(c1, w1, wrap_inc(r1, h1), col1) == cell_at(c2, w2, wrap_inc(r2, h2), col2),
        cell_at(c1, w1, wrap_inc(r1, h1), wrap_inc(col1, w1)) == cell_at(
            c2,
            w2,
            wrap_inc(r2, h2),
            wrap_inc(col2, w2),
        ),
    ensures
        neighbor_count_spec(c1, w1, h1, r1, col1) == neighbor_count_spec(c2, w2, h2, r2, col2),
{
}

/// Wrap-around correctness at the corner: the neighborhood of `(0, 0)`
/// includes the cell at `(height - 1, width - 1)`, so the count there is
/// at least that cell's value — edges have no neighbor deficit.
pub proof fn lemma_wraparound_corner(cells: Seq<Cell>, width: nat, height: nat)
    requires
        width >= 1,
        height >= 1,
    ensures
        neighbor_count_spec(cells, width, height, 0, 0) >= cell_value(
            cell_at(cells, width, (height - 1) as nat, (width - 1) as nat),
        ),
{
}

/// Determinism: two grids constructed with identical dimensions hold
/// identical initial cells, and equal generations advance to equal next
/// generations.
pub proof fn lemma_determinism(u1: Universe, u2: Universe)
    requires
        u1.spec_width() == u2.spec_width(),
        u1.spec_height() == u2.spec_height(),
        u1.spec_cells() == initial_cells(u1.spec_width() as nat, u1.spec_height() as nat),
        u2.spec_cells() == initial_cells(u2.spec_width() as nat, u2.spec_height() as nat),
    ensures
        u1.spec_cells() == u2.spec_cells(),
        next_gen(u1.spec_cells(), u1.spec_width() as nat, u1.spec_height() as nat) == next_gen(
            u2.spec_cells(),
            u2.spec_width() as nat,
            u2.spec_height() as nat,
        ),
{
}

} // verus!
