use life_core::controller::SimulationController;
use life_core::grid::{ConfigurationError, GridState};

/// Collects the whole cell matrix, indexed `[x][y]`.
fn snapshot(g: &GridState) -> Vec<Vec<bool>> {
    let (columns, rows) = g.dimensions();
    let mut out: Vec<Vec<bool>> = Vec::new();
    for x in 0..columns {
        let mut column: Vec<bool> = Vec::new();
        for y in 0..rows {
            column.push(g.get(x, y));
        }
        out.push(column);
    }
    out
}

fn live_cells(g: &GridState) -> Vec<(usize, usize)> {
    let (columns, rows) = g.dimensions();
    let mut out: Vec<(usize, usize)> = Vec::new();
    for x in 0..columns {
        for y in 0..rows {
            if g.get(x, y) {
                out.push((x, y));
            }
        }
    }
    out
}

#[test]
fn construction_rejects_small_cell_size() {
    assert_eq!(
        GridState::new(6, 6, 1).err(),
        Some(ConfigurationError::CellSizeTooSmall)
    );
    assert_eq!(
        GridState::new(6, 6, 0).err(),
        Some(ConfigurationError::CellSizeTooSmall)
    );
}

#[test]
fn construction_rejects_zero_dimension() {
    assert_eq!(
        GridState::new(0, 6, 2).err(),
        Some(ConfigurationError::EmptyGrid)
    );
    assert_eq!(
        GridState::new(6, 0, 2).err(),
        Some(ConfigurationError::EmptyGrid)
    );
}

#[test]
fn construction_rejects_indivisible_dimensions() {
    assert_eq!(
        GridState::new(7, 6, 2).err(),
        Some(ConfigurationError::IndivisibleDimensions)
    );
    assert_eq!(
        GridState::new(6, 7, 2).err(),
        Some(ConfigurationError::IndivisibleDimensions)
    );
}

#[test]
fn construction_starts_all_dead() {
    let g = GridState::new(1440, 810, 18).unwrap();
    assert_eq!(g.dimensions(), (80, 45));
    assert!(live_cells(&g).is_empty());
}

#[test]
fn wraparound_neighbor_count() {
    // A 3×3 all-dead grid with the single cell (0,0) alive: cell (2,2) is
    // its toroidal neighbour and must count exactly 1.
    let mut g = GridState::new(6, 6, 2).unwrap();
    assert_eq!(g.dimensions(), (3, 3));
    g.set(0, 0, true);
    assert_eq!(g.count_live_neighbors(2, 2), 1);
    assert_eq!(g.count_live_neighbors(1, 1), 1);
    assert_eq!(g.count_live_neighbors(0, 0), 0);
}

#[test]
fn single_cell_grid_is_its_own_neighbor() {
    // On a 1×1 torus all 8 neighbour offsets wrap back to the cell itself.
    let mut g = GridState::new(2, 2, 2).unwrap();
    assert_eq!(g.dimensions(), (1, 1));
    assert_eq!(g.count_live_neighbors(0, 0), 0);
    g.set(0, 0, true);
    assert_eq!(g.count_live_neighbors(0, 0), 8);
}

#[test]
fn birth_rule() {
    // Exactly 3 live cells surround the dead cell (1,1); a far-away isolated
    // cell has no 3 live neighbours anywhere near it.
    let mut g = GridState::new(14, 14, 2).unwrap();
    g.set(0, 0, true);
    g.set(2, 0, true);
    g.set(1, 2, true);
    g.set(5, 5, true);
    g.advance_generation();
    assert!(g.get(1, 1));
    assert!(!g.get(5, 5));
    assert!(!g.get(5, 4));
    assert!(!g.get(4, 5));
}

#[test]
fn survival_rule_two_or_three_neighbors() {
    // (1,1) is alive with exactly 2 live neighbours: it survives.
    let mut g = GridState::new(14, 14, 2).unwrap();
    g.set(1, 1, true);
    g.set(0, 0, true);
    g.set(2, 2, true);
    g.advance_generation();
    assert!(g.get(1, 1));

    // Alive with exactly 3 live neighbours: survives too.
    let mut g3 = GridState::new(14, 14, 2).unwrap();
    g3.set(1, 1, true);
    g3.set(0, 0, true);
    g3.set(2, 2, true);
    g3.set(2, 0, true);
    g3.advance_generation();
    assert!(g3.get(1, 1));
}

#[test]
fn death_rule_under_and_overpopulation() {
    // Alive with 0 neighbours: dies.
    let mut g0 = GridState::new(14, 14, 2).unwrap();
    g0.set(3, 3, true);
    g0.advance_generation();
    assert!(!g0.get(3, 3));

    // Alive with 1 neighbour: dies.
    let mut g1 = GridState::new(14, 14, 2).unwrap();
    g1.set(3, 3, true);
    g1.set(2, 2, true);
    g1.advance_generation();
    assert!(!g1.get(3, 3));

    // Alive with 4 neighbours: dies.
    let mut g4 = GridState::new(14, 14, 2).unwrap();
    g4.set(3, 3, true);
    g4.set(2, 2, true);
    g4.set(4, 4, true);
    g4.set(2, 4, true);
    g4.set(4, 2, true);
    g4.advance_generation();
    assert!(!g4.get(3, 3));
}

#[test]
fn block_still_life_is_stable() {
    // A 2×2 block in the interior of an 8×8 grid is unchanged by any
    // number of advances.
    let mut g = GridState::new(16, 16, 2).unwrap();
    g.set(3, 3, true);
    g.set(4, 3, true);
    g.set(3, 4, true);
    g.set(4, 4, true);
    let before = snapshot(&g);
    for _ in 0..5 {
        g.advance_generation();
        assert_eq!(snapshot(&g), before);
    }
}

#[test]
fn blinker_oscillates_with_period_two() {
    // Horizontal blinker centred on (3,3) in a 7×7 grid.
    let mut g = GridState::new(14, 14, 2).unwrap();
    g.set(2, 3, true);
    g.set(3, 3, true);
    g.set(4, 3, true);
    let horizontal = snapshot(&g);
    g.advance_generation();
    assert_eq!(live_cells(&g), vec![(3, 2), (3, 3), (3, 4)]);
    g.advance_generation();
    assert_eq!(snapshot(&g), horizontal);
}

#[test]
fn controller_construction_matches_grid_rules() {
    assert_eq!(
        SimulationController::new(6, 6, 1, 50).err(),
        Some(ConfigurationError::CellSizeTooSmall)
    );
    assert_eq!(
        SimulationController::new(0, 6, 2, 50).err(),
        Some(ConfigurationError::EmptyGrid)
    );
    assert_eq!(
        SimulationController::new(9, 6, 2, 50).err(),
        Some(ConfigurationError::IndivisibleDimensions)
    );
    let c = SimulationController::new(6, 6, 2, 50).unwrap();
    assert!(c.is_paused());
    assert_eq!(c.grid().dimensions(), (3, 3));
    assert!(live_cells(c.grid()).is_empty());
}

#[test]
fn pause_gating() {
    // While paused, advances never mutate the grid however much time
    // accumulates; after resuming, one delta at the interval advances
    // exactly one generation and resets the accumulator.
    let mut c = SimulationController::new(14, 14, 2, 50).unwrap();
    c.paint(2, 3, true);
    c.paint(3, 3, true);
    c.paint(4, 3, true);
    let horizontal = snapshot(c.grid());
    assert!(c.is_paused());
    for _ in 0..10 {
        c.advance(1_000);
        assert_eq!(snapshot(c.grid()), horizontal);
    }
    c.toggle_pause();
    assert!(!c.is_paused());
    c.advance(50);
    // Exactly one generation: the blinker is now vertical.
    assert_eq!(live_cells(c.grid()), vec![(3, 2), (3, 3), (3, 4)]);
    // The accumulator was reset on the completed tick: a sub-interval delta
    // does not advance again, even after the huge paused accumulation.
    c.advance(49);
    assert_eq!(live_cells(c.grid()), vec![(3, 2), (3, 3), (3, 4)]);
    // One more millisecond completes the next tick and flips it back.
    c.advance(1);
    assert_eq!(snapshot(c.grid()), horizontal);
}

#[test]
fn sub_interval_deltas_are_buffered() {
    let mut c = SimulationController::new(14, 14, 2, 50).unwrap();
    c.paint(2, 3, true);
    c.paint(3, 3, true);
    c.paint(4, 3, true);
    c.toggle_pause();
    c.advance(20);
    c.advance(20);
    assert_eq!(live_cells(c.grid()), vec![(2, 3), (3, 3), (4, 3)]);
    c.advance(10);
    assert_eq!(live_cells(c.grid()), vec![(3, 2), (3, 3), (3, 4)]);
}

#[test]
fn pause_is_toggled_unconditionally() {
    let mut c = SimulationController::new(6, 6, 2, 50).unwrap();
    assert!(c.is_paused());
    c.toggle_pause();
    assert!(!c.is_paused());
    c.toggle_pause();
    assert!(c.is_paused());
    c.toggle_pause();
    assert!(!c.is_paused());
}

#[test]
fn erase_all_is_idempotent() {
    let mut c = SimulationController::new(14, 14, 2, 50).unwrap();
    c.paint(1, 1, true);
    c.paint(5, 2, true);
    c.paint(6, 6, true);
    c.erase_all();
    let once = snapshot(c.grid());
    assert!(live_cells(c.grid()).is_empty());
    c.erase_all();
    assert_eq!(snapshot(c.grid()), once);
}

#[test]
fn erase_all_keeps_run_state() {
    let mut c = SimulationController::new(6, 6, 2, 50).unwrap();
    c.toggle_pause();
    c.erase_all();
    assert!(!c.is_paused());
}

#[test]
fn paint_out_of_bounds_is_ignored() {
    let mut c = SimulationController::new(14, 14, 2, 50).unwrap();
    c.paint(1, 1, true);
    let before = snapshot(c.grid());
    c.paint(7, 0, true);
    c.paint(0, 7, true);
    c.paint(usize::MAX, 3, true);
    c.paint(3, usize::MAX, true);
    assert_eq!(snapshot(c.grid()), before);
}

#[test]
fn paint_works_in_both_states() {
    let mut c = SimulationController::new(14, 14, 2, 50).unwrap();
    c.paint(2, 2, true);
    assert!(c.grid().get(2, 2));
    c.toggle_pause();
    c.paint(2, 2, false);
    assert!(!c.grid().get(2, 2));
    c.paint(4, 5, true);
    assert!(c.grid().get(4, 5));
}
