//! Laws of the rule evaluator, proved once and for all grids: the survival
//! and birth rules cell by cell, the stability of the 2×2 block still life,
//! the period-2 blinker oscillator, and the idempotence of erasing.

use vstd::prelude::*;
use crate::rules::{
    grid_wf, cols, rows, live_neighbors, step, steps, erased, lemma_wrap_near,
    lemma_step_preserves_wf,
};

verus! {

/// Survival rule: a live cell remains alive after one advance exactly when
/// it has 2 or 3 live neighbours; with 0, 1, or 4 and more it dies.
pub proof fn lemma_survival_rule(v: Seq<Seq<bool>>, x: int, y: int)
    requires
        grid_wf(v),
        0 <= x < cols(v),
        0 <= y < rows(v),
        v[x][y],
    ensures
        step(v)[x][y] <==> (live_neighbors(v, x, y) == 2 || live_neighbors(v, x, y) == 3),
{
}

/// Birth rule: a dead cell becomes alive after one advance exactly when it
/// has 3 live neighbours.
pub proof fn lemma_birth_rule(v: Seq<Seq<bool>>, x: int, y: int)
    requires
        grid_wf(v),
        0 <= x < cols(v),
        0 <= y < rows(v),
        !v[x][y],
    ensures
        step(v)[x][y] <==> live_neighbors(v, x, y) == 3,
{
}

/// The grid whose only live cells are the 2×2 block with lower corner
/// `(bx, by)`.
pub open spec fn only_block_alive(v: Seq<Seq<bool>>, bx: int, by: int) -> bool {
    forall|x: int, y: int|
        0 <= x < cols(v) && 0 <= y < rows(v) ==> ((#[trigger] v[x][y]) <==> (bx <= x <= bx + 1
            && by <= y <= by + 1))
}

/// Still life: a 2×2 block in the interior of a sufficiently large grid is
/// unchanged by one generation advance.
pub proof fn lemma_block_still_life(v: Seq<Seq<bool>>, bx: int, by: int)
    requires
        grid_wf(v),
        1 <= bx && bx + 3 <= cols(v),
        1 <= by && by + 3 <= rows(v),
        only_block_alive(v, bx, by),
    ensures
        step(v) == v,
{
    let c = cols(v);
    let r = rows(v);
    assert forall|x: int| 0 <= x < c implies #[trigger] step(v)[x] =~= v[x] by {
        assert forall|y: int| 0 <= y < r implies #[trigger] step(v)[x][y] == v[x][y] by {
            lemma_wrap_near(x, c);
            lemma_wrap_near(y, r);
        }
    }
    assert(step(v) =~= v);
}

/// Still life, iterated: the 2×2 block is unchanged after any number of
/// generation advances.
pub proof fn lemma_block_still_life_forever(v: Seq<Seq<bool>>, bx: int, by: int, n: nat)
    requires
        grid_wf(v),
        1 <= bx && bx + 3 <= cols(v),
        1 <= by && by + 3 <= rows(v),
        only_block_alive(v, bx, by),
    ensures
        steps(v, n) == v,
    decreases n,
{
    if n > 0 {
        lemma_block_still_life_forever(v, bx, by, (n - 1) as nat);
        lemma_block_still_life(v, bx, by);
    }
}

/// The grid whose only live cells are the horizontal 3-cell line centred
/// on `(cx, cy)`.
pub open spec fn only_blinker_h(v: Seq<Seq<bool>>, cx: int, cy: int) -> bool {
    forall|x: int, y: int|
        0 <= x < cols(v) && 0 <= y < rows(v) ==> ((#[trigger] v[x][y]) <==> (cx - 1 <= x <= cx + 1
            && y == cy))
}

/// The grid whose only live cells are the vertical 3-cell line centred on
/// `(cx, cy)`.
pub open spec fn only_blinker_v(v: Seq<Seq<bool>>, cx: int, cy: int) -> bool {
    forall|x: int, y: int|
        0 <= x < cols(v) && 0 <= y < rows(v) ==> ((#[trigger] v[x][y]) <==> (x == cx && cy - 1 <= y
            <= cy + 1))
}

/// One advance turns an interior horizontal blinker into the vertical
/// blinker with the same centre.
pub proof fn lemma_blinker_h_step(v: Seq<Seq<bool>>, cx: int, cy: int)
    requires
        grid_wf(v),
        2 <= cx && cx + 3 <= cols(v),
        2 <= cy && cy + 3 <= rows(v),
        only_blinker_h(v, cx, cy),
    ensures
        grid_wf(step(v)),
        cols(step(v)) == cols(v),
        rows(step(v)) == rows(v),
        only_blinker_v(step(v), cx, cy),
{
    lemma_step_preserves_wf(v);
    let c = cols(v);
    let r = rows(v);
    assert forall|x: int, y: int| 0 <= x < c && 0 <= y < r implies ((#[trigger] step(v)[x][y])
        <==> (x == cx && cy - 1 <= y <= cy + 1)) by {
        lemma_wrap_near(x, c);
        lemma_wrap_near(y, r);
    }
}

/// One advance turns an interior vertical blinker into the horizontal
/// blinker with the same centre.
pub proof fn lemma_blinker_v_step(v: Seq<Seq<bool>>, cx: int, cy: int)
    requires
        grid_wf(v),
        2 <= cx && cx + 3 <= cols(v),
        2 <= cy && cy + 3 <= rows(v),
        only_blinker_v(v, cx, cy),
    ensures
        grid_wf(step(v)),
        cols(step(v)) == cols(v),
        rows(step(v)) == rows(v),
        only_blinker_h(step(v), cx, cy),
{
    lemma_step_preserves_wf(v);
    let c = cols(v);
    let r = rows(v);
    assert forall|x: int, y: int| 0 <= x < c && 0 <= y < r implies ((#[trigger] step(v)[x][y])
        <==> (cx - 1 <= x <= cx + 1 && y == cy)) by {
        lemma_wrap_near(x, c);
        lemma_wrap_near(y, r);
    }
}

/// Oscillator, period-2 round trip: an interior horizontal blinker is
/// vertical after one advance and back to exactly the original grid after
/// two.
pub proof fn lemma_blinker_period_two(v: Seq<Seq<bool>>, cx: int, cy: int)
    requires
        grid_wf(v),
        2 <= cx && cx + 3 <= cols(v),
        2 <= cy && cy + 3 <= rows(v),
        only_blinker_h(v, cx, cy),
    ensures
        only_blinker_v(step(v), cx, cy),
        step(step(v)) == v,
        steps(v, 2) == v,
{
    lemma_blinker_h_step(v, cx, cy);
    lemma_blinker_v_step(step(v), cx, cy);
    let w = step(step(v));
    assert forall|x: int| 0 <= x < cols(v) implies #[trigger] w[x] =~= v[x] by {
        assert forall|y: int| 0 <= y < rows(v) implies #[trigger] w[x][y] == v[x][y] by {
            assert(w[x][y] <==> (cx - 1 <= x <= cx + 1 && y == cy));
            assert(v[x][y] <==> (cx - 1 <= x <= cx + 1 && y == cy));
        }
    }
    assert(w =~= v);
    assert(steps(v, 2) == step(steps(v, 1)));
    assert(steps(v, 1) == step(steps(v, 0)));
}

/// Erase idempotence: erasing an already erased grid changes nothing — both
/// leave the same all-dead grid of the same extents.
pub proof fn lemma_erase_idempotent(v: Seq<Seq<bool>>)
    requires
        grid_wf(v),
    ensures
        erased(erased(v)) == erased(v),
{
    assert(erased(erased(v)) =~~= erased(v));
}

} // verus!
