//! The authoritative cell matrix: dimensions, wraparound neighbour counts,
//! cell access, erasing, and the generation advance.

use vstd::prelude::*;
use crate::rules::{grid_wf, cols, rows, live_neighbors, step, dead_grid, erased, lemma_wrap_near};

verus! {

/// Why a grid could not be constructed from the requested pixel dimensions
/// and cell size.  Construction fails rather than silently clamping.
#[derive(Debug, Clone, Copy, PartialEq, Eq, Structural)]
pub enum ConfigurationError {
    /// The cell size is too small to form a valid grid (at most one unit).
    CellSizeTooSmall,
    /// A pixel dimension is zero, so the grid would have no cells.
    EmptyGrid,
    /// A pixel dimension is not an exact multiple of the cell size.
    IndivisibleDimensions,
}

/// The cell matrix, indexed `[x][y]`, with toroidal wraparound topology.
/// The dimensions are fixed at construction and never change.
pub struct GridState {
    cells: Vec<Vec<bool>>,
    columns: usize,
    rows: usize,
}

impl View for GridState {
    type V = Seq<Seq<bool>>;

    closed spec fn view(&self) -> Seq<Seq<bool>> {
        self.cells@.map_values(|column: Vec<bool>| column@)
    }
}

impl GridState {
    /// The fields agree with each other: the matrix really is
    /// `columns × rows`, and both extents are at least 1.
    pub closed spec fn wf(&self) -> bool {
        &&& self.columns >= 1
        &&& self.rows >= 1
        &&& self.cells@.len() == self.columns
        &&& forall|x: int|
            0 <= x < self.columns ==> (#[trigger] self.cells@[x])@.len() == self.rows
    }

    /// Whether `(x, y)` is a valid cell coordinate.
    pub open spec fn in_bounds(&self, x: int, y: int) -> bool {
        0 <= x < cols(self@) && 0 <= y < rows(self@)
    }

    /// The state of cell `(x, y)`.
    pub open spec fn cell(&self, x: int, y: int) -> bool {
        self@[x][y]
    }

    /// A well-formed `GridState` is a well-formed grid model.
    pub proof fn lemma_wf_view(&self)
        requires
            self.wf(),
        ensures
            grid_wf(self@),
    {
        assert forall|x: int| 0 <= x < self@.len() implies (#[trigger] self@[x]).len()
            == self@[0].len() by {
            assert(self@[x] == self.cells@[x]@);
            assert(self@[0] == self.cells@[0]@);
        }
    }

    /// Builds an all-dead `columns × rows` matrix.
    fn dead_cells(columns: usize, row_count: usize) -> (v: Vec<Vec<bool>>)
        ensures
            v@.map_values(|column: Vec<bool>| column@) == dead_grid(
                columns as nat,
                row_count as nat,
            ),
            v@.len() == columns,
            forall|i: int| 0 <= i < columns ==> (#[trigger] v@[i])@.len() == row_count,
    {
        let mut v: Vec<Vec<bool>> = Vec::new();
        for x in 0..columns
            invariant
                v@.len() == x,
                forall|i: int|
                    0 <= i < x ==> (#[trigger] v@[i])@ == Seq::new(row_count as nat, |y: int| false),
        {
            let mut column: Vec<bool> = Vec::new();
            for y in 0..row_count
                invariant
                    column@ == Seq::new(y as nat, |j: int| false),
            {
                column.push(false);
                proof {
                    assert(column@ =~= Seq::new((y + 1) as nat, |j: int| false));
                }
            }
            v.push(column);
        }
        proof {
            assert(v@.map_values(|column: Vec<bool>| column@) =~~= dead_grid(
                columns as nat,
                row_count as nat,
            ));
        }
        v
    }

    /// Creates the grid for a `pixel_width × pixel_height` area divided into
    /// square cells of side `cell_size`, all cells dead.  Construction fails
    /// with a `ConfigurationError` when the requested pixel dimensions and
    /// cell size cannot form a grid of at least one column and one row.
    pub fn new(pixel_width: usize, pixel_height: usize, cell_size: usize) -> (r: Result<
        GridState,
        ConfigurationError,
    >)
        ensures
            r == Err::<GridState, _>(ConfigurationError::CellSizeTooSmall) <==> cell_size <= 1,
            r == Err::<GridState, _>(ConfigurationError::EmptyGrid) <==> (cell_size > 1 && (
            pixel_width == 0 || pixel_height == 0)),
            r == Err::<GridState, _>(ConfigurationError::IndivisibleDimensions) <==> (cell_size > 1
                && pixel_width > 0 && pixel_height > 0 && (pixel_width % cell_size != 0
                || pixel_height % cell_size != 0)),
            r matches Ok(g) <==> (cell_size > 1 && pixel_width > 0 && pixel_height > 0
                && pixel_width % cell_size == 0 && pixel_height % cell_size == 0),
            r matches Ok(g) ==> {
                &&& g.wf()
                &&& cols(g@) == pixel_width / cell_size
                &&& rows(g@) == pixel_height / cell_size
                &&& g@ == dead_grid((pixel_width / cell_size) as nat, (pixel_height / cell_size) as nat)
            },
    {
        if cell_size <= 1 {
            return Err(ConfigurationError::CellSizeTooSmall);
        }
        if pixel_width == 0 || pixel_height == 0 {
            return Err(ConfigurationError::EmptyGrid);
        }
        if pixel_width % cell_size != 0 || pixel_height % cell_size != 0 {
            return Err(ConfigurationError::IndivisibleDimensions);
        }
        let columns = pixel_width / cell_size;
        let row_count = pixel_height / cell_size;
        proof {
            if pixel_width < cell_size {
                vstd::arithmetic::div_mod::lemma_small_mod(pixel_width as nat, cell_size as nat);
            }
            if pixel_height < cell_size {
                vstd::arithmetic::div_mod::lemma_small_mod(pixel_height as nat, cell_size as nat);
            }
            vstd::arithmetic::div_mod::lemma_div_non_zero(pixel_width as int, cell_size as int);
            vstd::arithmetic::div_mod::lemma_div_non_zero(pixel_height as int, cell_size as int);
        }
        let cells = Self::dead_cells(columns, row_count);
        Ok(GridState { cells, columns, rows: row_count })
    }

    /// The grid's extents, `(columns, rows)`.
    pub fn dimensions(&self) -> (d: (usize, usize))
        requires
            self.wf(),
        ensures
            d.0 == cols(self@),
            d.1 == rows(self@),
    {
        proof {
            self.lemma_wf_view();
            assert(self@[0] == self.cells@[0]@);
        }
        (self.columns, self.rows)
    }

    /// Reads cell `(x, y)`.  Out-of-range access is a caller contract
    /// violation: callers validate coordinates first.
    pub fn get(&self, x: usize, y: usize) -> (alive: bool)
        requires
            self.wf(),
            self.in_bounds(x as int, y as int),
        ensures
            alive == self.cell(x as int, y as int),
    {
        proof {
            self.lemma_wf_view();
            assert(self@[x as int] == self.cells@[x as int]@);
        }
        self.cells[x][y]
    }

    /// Writes cell `(x, y)`; every other cell is untouched.  Same bounds
    /// precondition as `get`.
    pub fn set(&mut self, x: usize, y: usize, alive: bool)
        requires
            old(self).wf(),
            old(self).in_bounds(x as int, y as int),
        ensures
            final(self).wf(),
            final(self)@ == old(self)@.update(
                x as int,
                old(self)@[x as int].update(y as int, alive),
            ),
    {
        proof {
            self.lemma_wf_view();
            assert(self@[x as int] == self.cells@[x as int]@);
        }
        let ghost before = *self;
        self.cells[x][y] = alive;
        proof {
            assert(self@ =~~= before@.update(
                x as int,
                before@[x as int].update(y as int, alive),
            ));
        }
    }

    /// The number of live cells among the 8 toroidal neighbours of `(x, y)`.
    /// Each neighbour coordinate wraps modulo the extent, so the naive
    /// `-1` offset at coordinate 0 lands on the opposite edge.
    pub fn count_live_neighbors(&self, x: usize, y: usize) -> (n: u8)
        requires
            self.wf(),
            self.in_bounds(x as int, y as int),
        ensures
            n == live_neighbors(self@, x as int, y as int),
            n <= 8,
    {
        proof {
            self.lemma_wf_view();
            lemma_wrap_near(x as int, cols(self@));
            lemma_wrap_near(y as int, rows(self@));
        }
        let xm1 = if x == 0 {
            self.columns - 1
        } else {
            x - 1
        };
        let xp1 = if x + 1 == self.columns {
            0
        } else {
            x + 1
        };
        let ym1 = if y == 0 {
            self.rows - 1
        } else {
            y - 1
        };
        let yp1 = if y + 1 == self.rows {
            0
        } else {
            y + 1
        };
        let mut n: u8 = 0;
        if self.get(xm1, ym1) {
            n = n + 1;
        }
        if self.get(xm1, y) {
            n = n + 1;
        }
        if self.get(xm1, yp1) {
            n = n + 1;
        }
        if self.get(x, ym1) {
            n = n + 1;
        }
        if self.get(x, yp1) {
            n = n + 1;
        }
        if self.get(xp1, ym1) {
            n = n + 1;
        }
        if self.get(xp1, y) {
            n = n + 1;
        }
        if self.get(xp1, yp1) {
            n = n + 1;
        }
        n
    }

    /// Sets every cell to dead.  The extents are unchanged.
    pub fn erase_all(&mut self)
        requires
            old(self).wf(),
        ensures
            final(self).wf(),
            final(self)@ == erased(old(self)@),
    {
        proof {
            self.lemma_wf_view();
            assert(self@[0] == self.cells@[0]@);
        }
        self.cells = Self::dead_cells(self.columns, self.rows);
    }

    /// Advances the grid one generation.  Every cell of the new generation
    /// is computed from the rule applied to the old one: the sweep reads
    /// only the current snapshot and writes only a scratch matrix, which is
    /// committed whole at the end, so no partial generation is ever
    /// observable.
    pub fn advance_generation(&mut self)
        requires
            old(self).wf(),
        ensures
            final(self).wf(),
            final(self)@ == step(old(self)@),
    {
        proof {
            self.lemma_wf_view();
        }
        let ghost v0 = self@;
        let columns = self.columns;
        let row_count = self.rows;
        let mut scratch: Vec<Vec<bool>> = Vec::new();
        for x in 0..columns
            invariant
                self == old(self),
                self.wf(),
                self@ == v0,
                columns == cols(v0),
                row_count == rows(v0),
                scratch@.len() == x,
                forall|i: int| 0 <= i < x ==> (#[trigger] scratch@[i])@ == step(v0)[i],
        {
            let mut column: Vec<bool> = Vec::new();
            for y in 0..row_count
                invariant
                    self == old(self),
                    self.wf(),
                    self@ == v0,
                    columns == cols(v0),
                    row_count == rows(v0),
                    0 <= x < columns,
                    column@.len() == y,
                    forall|j: int| 0 <= j < y ==> column@[j] == step(v0)[x as int][j],
            {
                let alive = self.get(x, y);
                let count = self.count_live_neighbors(x, y);
                let next = if alive {
                    count == 2 || count == 3
                } else {
                    count == 3
                };
                column.push(next);
            }
            proof {
                assert(column@ =~= step(v0)[x as int]);
            }
            scratch.push(column);
        }
        self.cells = scratch;
        proof {
            assert(self@ =~~= step(v0));
        }
    }
}

} // verus!
