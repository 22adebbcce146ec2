//! The toroidal grid: index mapping, wrap-around neighbor counting, the
//! single-step advance, and state export.

use vstd::prelude::*;

use crate::cell::Cell;
use crate::cell::apply_rule;
use crate::cell::cell_value;
use crate::cell::next_cell;

verus! {

/// The faults a caller can induce: zero dimensions at construction, or an
/// out-of-range coordinate in a query.
#[derive(Clone, Copy, Debug, PartialEq, Eq, Structural)]
pub enum GridError {
    InvalidDimensions,
    InvalidCoordinate,
}

/// Flat index of the cell at `(row, col)` in a row-major buffer of the
/// given width.
pub open spec fn grid_index(width: nat, row: nat, col: nat) -> nat {
    row * width + col
}

/// Predecessor of `i` modulo `n`, for `i < n`: wraps 0 to `n - 1`.
pub open spec fn wrap_dec(i: nat, n: nat) -> nat {
    if i == 0 {
        (n - 1) as nat
    } else {
        (i - 1) as nat
    }
}

/// Successor of `i` modulo `n`, for `i < n`: wraps `n - 1` to 0.
pub open spec fn wrap_inc(i: nat, n: nat) -> nat {
    if i + 1 == n {
        0
    } else {
        (i + 1) as nat
    }
}

/// The cell at `(row, col)` of a row-major buffer of the given width.
pub open spec fn cell_at(cells: Seq<Cell>, width: nat, row: nat, col: nat) -> Cell {
    cells[grid_index(width, row, col) as int]
}

/// Number of live cells among the eight neighbors of `(row, col)`, with
/// row and column offsets wrapped modulo `height` and `width` (toroidal
/// topology: the grid has no edges).
pub open spec fn neighbor_count_spec(
    cells: Seq<Cell>,
    width: nat,
    height: nat,
    row: nat,
    col: nat,
) -> nat {
    let up = wrap_dec(row, height);
    let down = wrap_inc(row, height);
    let left = wrap_dec(col, width);
    let right = wrap_inc(col, width);
    cell_value(cell_at(cells, width, up, left)) + cell_value(cell_at(cells, width, up, col))
        + cell_value(cell_at(cells, width, up, right)) + cell_value(
        cell_at(cells, width, row, left),
    ) + cell_value(cell_at(cells, width, row, right)) + cell_value(
        cell_at(cells, width, down, left),
    ) + cell_value(cell_at(cells, width, down, col)) + cell_value(
        cell_at(cells, width, down, right),
    )
}

/// The next generation: every cell's next state, computed from the prior
/// generation's cell states and live-neighbor counts.
pub open spec fn next_gen(cells: Seq<Cell>, width: nat, height: nat) -> Seq<Cell> {
    Seq::new(
        cells.len(),
        |i: int|
            next_cell(
                cells[i],
                neighbor_count_spec(
                    cells,
                    width,
                    height,
                    (i / width as int) as nat,
                    (i % width as int) as nat,
                ),
            ),
    )
}

/// The deterministic initial pattern: the cell at flat index `i` is alive
/// exactly when `i` is divisible by 2 or by 7.
pub open spec fn initial_cell(i: nat) -> Cell {
    if i % 2 == 0 || i % 7 == 0 {
        Cell::Alive
    } else {
        Cell::Dead
    }
}

/// The initial cell buffer of a freshly constructed grid.
pub open spec fn initial_cells(width: nat, height: nat) -> Seq<Cell> {
    Seq::new(width * height, |i: int| initial_cell(i as nat))
}

/// The glyph a cell is rendered as: a filled square for a live cell, an
/// open square for a dead one.
pub open spec fn glyph(c: Cell) -> char {
    match c {
        Cell::Alive => '◼',
        Cell::Dead => '◻',
    }
}

/// One rendered row: the glyphs of the row's cells, left to right,
/// followed by a line break.
pub open spec fn row_chars(cells: Seq<Cell>, width: nat, row: nat) -> Seq<char> {
    Seq::new(width, |c: int| glyph(cells[row * width + c])).push('\n')
}

/// The rendered text of the first `rows` rows, top to bottom.
pub open spec fn render_spec(cells: Seq<Cell>, width: nat, rows: nat) -> Seq<char>
    decreases rows,
{
    if rows == 0 {
        Seq::empty()
    } else {
        render_spec(cells, width, (rows - 1) as nat) + row_chars(cells, width, (rows - 1) as nat)
    }
}

/// A fixed-dimension dense grid of cells in row-major order.
///
/// The dimensions are fixed for the lifetime of the grid and the buffer
/// always holds exactly `width * height` cells.
pub struct Universe {
    width: u32,
    height: u32,
    cells: Vec<Cell>,
}

impl Universe {
    /// The grid's width, as seen by specifications.
    pub closed spec fn spec_width(&self) -> u32 {
        self.width
    }

    /// The grid's height, as seen by specifications.
    pub closed spec fn spec_height(&self) -> u32 {
        self.height
    }

    /// The grid's cell buffer, as seen by specifications.
    pub closed spec fn spec_cells(&self) -> Seq<Cell> {
        self.cells@
    }

    /// The structural invariant: positive dimensions, a product that fits
    /// the index arithmetic, and a buffer of exactly `width * height`
    /// cells.
    pub open spec fn well_formed(&self) -> bool {
        &&& self.spec_width() >= 1
        &&& self.spec_height() >= 1
        &&& self.spec_width() * self.spec_height() <= u32::MAX
        &&& self.spec_cells().len() == self.spec_width() * self.spec_height()
    }

    /// Construct the cell buffer holding the deterministic initial
    /// pattern.
    fn initial_vec(width: u32, height: u32) -> (v: Vec<Cell>)
        requires
            width * height <= u32::MAX,
        ensures
            v@ == initial_cells(width as nat, height as nat),
    {
        let total: u32 = width * height;
        let mut v: Vec<Cell> = Vec::new();
        let mut i: u32 = 0;
        while i < total
            invariant
                i <= total,
                v@.len() == i,
                forall|k: int| 0 <= k < i ==> v@[k] == initial_cell(k as nat),
            decreases total - i,
        {
            if i % 2 == 0 || i % 7 == 0 {
                v.push(Cell::Alive);
            } else {
                v.push(Cell::Dead);
            }
            i = i + 1;
        }
        proof {
            assert(v@ =~= initial_cells(width as nat, height as nat));
        }
        v
    }

    /// Construct a grid of the given dimensions holding the deterministic
    /// initial pattern. Zero width or height is rejected with
    /// `InvalidDimensions`; the product bound is a machine limit on the
    /// buffer's length.
    pub fn with_size(width: u32, height: u32) -> (r: Result<Universe, GridError>)
        requires
            width * height <= u32::MAX,
        ensures
            r is Ok <==> (width >= 1 && height >= 1),
            r is Ok ==> {
                let u = r->Ok_0;
                &&& u.well_formed()
                &&& u.spec_width() == width
                &&& u.spec_height() == height
                &&& u.spec_cells() == initial_cells(width as nat, height as nat)
            },
            r is Err ==> r->Err_0 == GridError::InvalidDimensions,
    {
        if width == 0 || height == 0 {
            return Err(GridError::InvalidDimensions);
        }
        let cells = Self::initial_vec(width, height);
        Ok(Universe { width, height, cells })
    }

    /// Construct the default 64-by-64 grid holding the deterministic
    /// initial pattern.
    pub fn new() -> (u: Universe)
        ensures
            u.well_formed(),
            u.spec_width() == 64,
            u.spec_height() == 64,
            u.spec_cells() == initial_cells(64, 64),
    {
        Self::with_size(64, 64).unwrap()
    }

    /// Construct a grid of the given dimensions from a caller-supplied
    /// cell buffer in row-major order. Zero dimensions or a buffer whose
    /// length is not `width * height` are rejected with
    /// `InvalidDimensions`.
    pub fn from_cells(width: u32, height: u32, cells: Vec<Cell>) -> (r: Result<
        Universe,
        GridError,
    >)
        requires
            width * height <= u32::MAX,
        ensures
            r is Ok <==> (width >= 1 && height >= 1 && cells@.len() == width * height),
            r is Ok ==> {
                let u = r->Ok_0;
                &&& u.well_formed()
                &&& u.spec_width() == width
                &&& u.spec_height() == height
                &&& u.spec_cells() == cells@
            },
            r is Err ==> r->Err_0 == GridError::InvalidDimensions,
    {
        if width == 0 || height == 0 {
            return Err(GridError::InvalidDimensions);
        }
        let total: u32 = width * height;
        if cells.len() != total as usize {
            return Err(GridError::InvalidDimensions);
        }
        Ok(Universe { width, height, cells })
    }

    /// Flat index of the cell at `(row, column)`, in range for the cell
    /// buffer whenever the coordinates are in range.
    pub fn get_index(&self, row: u32, column: u32) -> (idx: usize)
        requires
            self.well_formed(),
            row < self.spec_height(),
            column < self.spec_width(),
        ensures
            idx == grid_index(self.spec_width() as nat, row as nat, column as nat),
            idx < self.spec_cells().len(),
    {
        proof {
            assert(row * self.spec_width() + column < self.spec_height() * self.spec_width())
                by (nonlinear_arith)
                requires
                    row < self.spec_height(),
                    column < self.spec_width(),
            ;
            assert(self.spec_height() * self.spec_width() == self.spec_width()
                * self.spec_height()) by (nonlinear_arith);
        }
        (row * self.width + column) as usize
    }

    /// Validated index lookup: out-of-range coordinates are rejected with
    /// `InvalidCoordinate` instead of producing an out-of-range index.
    pub fn checked_index(&self, row: u32, column: u32) -> (r: Result<usize, GridError>)
        requires
            self.well_formed(),
        ensures
            r is Ok <==> (row < self.spec_height() && column < self.spec_width()),
            r is Ok ==> r->Ok_0 == grid_index(self.spec_width() as nat, row as nat, column as nat)
                && r->Ok_0 < self.spec_cells().len(),
            r is Err ==> r->Err_0 == GridError::InvalidCoordinate,
    {
        if row >= self.height || column >= self.width {
            return Err(GridError::InvalidCoordinate);
        }
        Ok(self.get_index(row, column))
    }

    /// Number of live cells among the eight neighbors of `(row, column)`,
    /// with toroidal wrap-around. The count is always between 0 and 8.
    pub fn live_neighbor_count(&self, row: u32, column: u32) -> (count: u8)
        requires
            self.well_formed(),
            row < self.spec_height(),
            column < self.spec_width(),
        ensures
            count == neighbor_count_spec(
                self.spec_cells(),
                self.spec_width() as nat,
                self.spec_height() as nat,
                row as nat,
                column as nat,
            ),
            count <= 8,
    {
        let up = if row == 0 {
            self.height - 1
        } else {
            row - 1
        };
        let down = if row + 1 == self.height {
            0
        } else {
            row + 1
        };
        let left = if column == 0 {
            self.width - 1
        } else {
            column - 1
        };
        let right = if column + 1 == self.width {
            0
        } else {
            column + 1
        };
        let mut count: u8 = 0;
        count = count + self.cells[self.get_index(up, left)].as_u8();
        count = count + self.cells[self.get_index(up, column)].as_u8();
        count = count + self.cells[self.get_index(up, right)].as_u8();
        count = count + self.cells[self.get_index(row, left)].as_u8();
        count = count + self.cells[self.get_index(row, right)].as_u8();
        count = count + self.cells[self.get_index(down, left)].as_u8();
        count = count + self.cells[self.get_index(down, column)].as_u8();
        count = count + self.cells[self.get_index(down, right)].as_u8();
        count
    }

    /// Advance the grid by exactly one generation.
    ///
    /// Every cell's next state is computed from the fully materialized
    /// prior generation (a separate buffer is filled and then swapped in),
    /// so no cell's update can corrupt the neighbor counts of cells
    /// evaluated later in the same step.
    pub fn tick(&mut self)
        requires
            old(self).well_formed(),
        ensures
            final(self).well_formed(),
            final(self).spec_width() == old(self).spec_width(),
            final(self).spec_height() == old(self).spec_height(),
            final(self).spec_cells() == next_gen(
                old(self).spec_cells(),
                old(self).spec_width() as nat,
                old(self).spec_height() as nat,
            ),
    {
        let width = self.width;
        let height = self.height;
        let ghost ng = next_gen(self.spec_cells(), width as nat, height as nat);
        let mut next: Vec<Cell> = Vec::new();
        let mut row: u32 = 0;
        while row < height
            invariant
                *self == *old(self),
                self.well_formed(),
                width == self.spec_width(),
                height == self.spec_height(),
                ng == next_gen(self.spec_cells(), width as nat, height as nat),
                row <= height,
                next@.len() == row * width,
                next@.len() <= ng.len(),
                forall|k: int| 0 <= k < next@.len() ==> next@[k] == ng[k],
            decreases height - row,
        {
            let mut col: u32 = 0;
            proof {
                assert(row * width + width <= height * width) by (nonlinear_arith)
                    requires
                        row < height,
                ;
                assert(height * width == width * height) by (nonlinear_arith);
            }
            while col < width
                invariant
                    *self == *old(self),
                    self.well_formed(),
                    width == self.spec_width(),
                    height == self.spec_height(),
                    ng == next_gen(self.spec_cells(), width as nat, height as nat),
                    row < height,
                    col <= width,
                    next@.len() == row * width + col,
                    row * width + width <= width * height,
                    forall|k: int| 0 <= k < next@.len() ==> next@[k] == ng[k],
                decreases width - col,
            {
                let idx = self.get_index(row, col);
                let cell = self.cells[idx];
                let neighbors = self.live_neighbor_count(row, col);
                let next_state = apply_rule(cell, neighbors);
                next.push(next_state);
                proof {
                    let i = row * width + col;
                    vstd::arithmetic::div_mod::lemma_fundamental_div_mod_converse(
                        i as int,
                        width as int,
                        row as int,
                        col as int,
                    );
                    assert(ng[i as int] == next_state);
                }
                col = col + 1;
            }
            proof {
                assert(row * width + width == (row + 1) * width) by (nonlinear_arith);
            }
            row = row + 1;
        }
        proof {
            assert(height * width == width * height) by (nonlinear_arith);
            assert(next@ =~= ng);
        }
        self.cells = next;
    }

    /// Validated neighbor-count query: out-of-range coordinates are
    /// rejected with `InvalidCoordinate` instead of wrapping silently.
    pub fn neighbor_count(&self, row: u32, column: u32) -> (r: Result<u8, GridError>)
        requires
            self.well_formed(),
        ensures
            r is Ok <==> (row < self.spec_height() && column < self.spec_width()),
            r is Ok ==> r->Ok_0 == neighbor_count_spec(
                self.spec_cells(),
                self.spec_width() as nat,
                self.spec_height() as nat,
                row as nat,
                column as nat,
            ) && r->Ok_0 <= 8,
            r is Err ==> r->Err_0 == GridError::InvalidCoordinate,
    {
        if row >= self.height || column >= self.width {
            return Err(GridError::InvalidCoordinate);
        }
        Ok(self.live_neighbor_count(row, column))
    }

    /// Human-readable snapshot of the whole grid: one line per row, one
    /// glyph per cell, rows top to bottom and cells left to right.
    pub fn render(&self) -> (r: String)
        requires
            self.well_formed(),
        ensures
            r@ == render_spec(
                self.spec_cells(),
                self.spec_width() as nat,
                self.spec_height() as nat,
            ),
    {
        let width = self.width;
        let height = self.height;
        let mut out = String::from_str("");
        proof {
            reveal_strlit("");
            assert(out@ =~= render_spec(self.spec_cells(), width as nat, 0));
        }
        let mut row: u32 = 0;
        while row < height
            invariant
                self.well_formed(),
                width == self.spec_width(),
                height == self.spec_height(),
                row <= height,
                out@ == render_spec(self.spec_cells(), width as nat, row as nat),
            decreases height - row,
        {
            let mut col: u32 = 0;
            while col < width
                invariant
                    self.well_formed(),
                    width == self.spec_width(),
                    height == self.spec_height(),
                    row < height,
                    col <= width,
                    out@ == render_spec(self.spec_cells(), width as nat, row as nat) + Seq::new(
                        col as nat,
                        |c: int| glyph(self.spec_cells()[row * width + c]),
                    ),
                decreases width - col,
            {
                let idx = self.get_index(row, col);
                let cell = self.cells[idx];
                match cell {
                    Cell::Alive => out.append("◼"),
                    Cell::Dead => out.append("◻"),
                }
                proof {
                    reveal_strlit("◼");
                    reveal_strlit("◻");
                    assert(out@ =~= render_spec(self.spec_cells(), width as nat, row as nat)
                        + Seq::new(
                        (col + 1) as nat,
                        |c: int| glyph(self.spec_cells()[row * width + c]),
                    ));
                }
                col = col + 1;
            }
            out.append("\n");
            proof {
                reveal_strlit("\n");
                assert(out@ =~= render_spec(self.spec_cells(), width as nat, (row + 1) as nat));
            }
            row = row + 1;
        }
        out
    }

    /// The grid's width, fixed for its lifetime.
    pub fn get_width(&self) -> (r: u32)
        ensures
            r == self.spec_width(),
    {
        self.width
    }

    /// The grid's height, fixed for its lifetime.
    pub fn get_height(&self) -> (r: u32)
        ensures
            r == self.spec_height(),
    {
        self.height
    }

    /// Read-only view of the cell buffer, one entry per cell in row-major
    /// order.
    pub fn get_cell(&self) -> (r: &Vec<Cell>)
        ensures
            r@ == self.spec_cells(),
    {
        &self.cells
    }
}

} // verus!
