//! The mathematical model of the grid and of the Conway rule evaluator.
//!
//! A grid is modelled as a `Seq<Seq<bool>>`, indexed `[x][y]` (columns of
//! rows).  Neighbour lookups wrap modulo the extents, so the left edge is
//! adjacent to the right edge and the top edge to the bottom edge.  The
//! executable code in `grid` is specified against the functions here.

use vstd::prelude::*;
use vstd::arithmetic::div_mod::lemma_small_mod;
use vstd::arithmetic::div_mod::lemma_mod_sub_multiples_vanish;

verus! {

/// A well-formed grid model: at least one column, at least one row, and
/// every column has the same number of rows.
pub open spec fn grid_wf(v: Seq<Seq<bool>>) -> bool {
    &&& v.len() >= 1
    &&& v[0].len() >= 1
    &&& forall|x: int| 0 <= x < v.len() ==> (#[trigger] v[x]).len() == v[0].len()
}

/// Number of columns of a grid model.
pub open spec fn cols(v: Seq<Seq<bool>>) -> int {
    v.len() as int
}

/// Number of rows of a grid model.
pub open spec fn rows(v: Seq<Seq<bool>>) -> int {
    v[0].len() as int
}

/// Toroidal wraparound of a coordinate that may have stepped one place off
/// either end: `(c + extent) % extent`.  Adding the extent before taking the
/// modulus corrects the result for a negative `c`.
pub open spec fn wrap(c: int, extent: int) -> int {
    (c + extent) % extent
}

/// Whether the neighbour of `(x, y)` at offset `(dx, dy)` is alive, with
/// both coordinates wrapped toroidally.
pub open spec fn neighbor_alive(v: Seq<Seq<bool>>, x: int, y: int, dx: int, dy: int) -> bool {
    v[wrap(x + dx, cols(v))][wrap(y + dy, rows(v))]
}

/// The number of live cells among the 8 toroidal neighbours of `(x, y)`:
/// the offsets `{-1,0,1} × {-1,0,1}` without `(0,0)`.
pub open spec fn live_neighbors(v: Seq<Seq<bool>>, x: int, y: int) -> int {
    (if neighbor_alive(v, x, y, -1, -1) { 1int } else { 0int })
    + (if neighbor_alive(v, x, y, -1, 0) { 1int } else { 0int })
    + (if neighbor_alive(v, x, y, -1, 1) { 1int } else { 0int })
    + (if neighbor_alive(v, x, y, 0, -1) { 1int } else { 0int })
    + (if neighbor_alive(v, x, y, 0, 1) { 1int } else { 0int })
    + (if neighbor_alive(v, x, y, 1, -1) { 1int } else { 0int })
    + (if neighbor_alive(v, x, y, 1, 0) { 1int } else { 0int })
    + (if neighbor_alive(v, x, y, 1, 1) { 1int } else { 0int })
}

/// The unmodified Conway rule for one cell: a live cell survives on 2 or 3
/// live neighbours, a dead cell is born on exactly 3, anything else is dead.
pub open spec fn next_cell(alive: bool, n: int) -> bool {
    if alive {
        n == 2 || n == 3
    } else {
        n == 3
    }
}

/// One generation advance of the whole grid: every cell is rewritten from
/// the rule applied to the *current* snapshot.
pub open spec fn step(v: Seq<Seq<bool>>) -> Seq<Seq<bool>> {
    Seq::new(
        v.len(),
        |x: int| Seq::new(v[0].len(), |y: int| next_cell(v[x][y], live_neighbors(v, x, y))),
    )
}

/// `n` generation advances in a row.
pub open spec fn steps(v: Seq<Seq<bool>>, n: nat) -> Seq<Seq<bool>>
    decreases n,
{
    if n == 0 {
        v
    } else {
        step(steps(v, (n - 1) as nat))
    }
}

/// An all-dead grid of the given extents.
pub open spec fn dead_grid(columns: nat, row_count: nat) -> Seq<Seq<bool>> {
    Seq::new(columns, |x: int| Seq::new(row_count, |y: int| false))
}

/// The grid after erasing every cell: all dead, same extents.
pub open spec fn erased(v: Seq<Seq<bool>>) -> Seq<Seq<bool>> {
    dead_grid(v.len(), v[0].len())
}

/// For an in-range coordinate, the wraparound of each of its three relevant
/// offsets written without a modulus: the modulus only matters one step off
/// either end.
pub proof fn lemma_wrap_near(c: int, extent: int)
    requires
        0 <= c < extent,
    ensures
        wrap(c, extent) == c,
        wrap(c - 1, extent) == (if c == 0 { extent - 1 } else { c - 1 }),
        wrap(c + 1, extent) == (if c + 1 == extent { 0 } else { c + 1 }),
{
    lemma_mod_sub_multiples_vanish(c + extent, extent);
    lemma_small_mod(c as nat, extent as nat);
    lemma_mod_sub_multiples_vanish(c - 1 + extent, extent);
    if c == 0 {
        lemma_small_mod((extent - 1) as nat, extent as nat);
    } else {
        lemma_small_mod((c - 1) as nat, extent as nat);
    }
    lemma_mod_sub_multiples_vanish(c + 1 + extent, extent);
    if c + 1 == extent {
        lemma_mod_sub_multiples_vanish(c + 1, extent);
        lemma_small_mod(0nat, extent as nat);
    } else {
        lemma_small_mod((c + 1) as nat, extent as nat);
    }
}

/// A generation advance keeps the extents and well-formedness of the grid.
pub proof fn lemma_step_preserves_wf(v: Seq<Seq<bool>>)
    requires
        grid_wf(v),
    ensures
        grid_wf(step(v)),
        cols(step(v)) == cols(v),
        rows(step(v)) == rows(v),
{
}

} // verus!
