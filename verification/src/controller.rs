//! Run/paused state, the fixed-interval step timer, and the interactive
//! edit protocol.  The controller owns the grid; everything else reads the
//! grid back through [`SimulationController::grid`] and never mutates it.

use vstd::prelude::*;
use crate::grid::{ConfigurationError, GridState};
use crate::rules::{dead_grid, erased, step};

verus! {

/// Saturating addition of a time delta to the accumulator: the accumulator
/// sticks at `u64::MAX` rather than wrapping.  Once the accumulator has
/// reached the step interval the exact surplus no longer matters, since a
/// completed tick resets it to zero.
pub open spec fn sat_add(a: int, b: int) -> int {
    if a + b > u64::MAX as int {
        u64::MAX as int
    } else {
        a + b
    }
}

/// Drives the simulation: it alone writes the grid.  It starts paused, and
/// a generation advance is attempted only while running, once the
/// accumulated wall-clock time has reached the fixed step interval.
pub struct SimulationController {
    grid: GridState,
    frozen: bool,
    accumulated_ms: u64,
    step_interval_ms: u64,
}

impl SimulationController {
    /// The controller's grid.
    pub closed spec fn spec_grid(&self) -> GridState {
        self.grid
    }

    /// The current cell matrix.
    pub open spec fn grid_view(&self) -> Seq<Seq<bool>> {
        self.spec_grid()@
    }

    /// Whether the simulation is paused.
    pub closed spec fn is_frozen(&self) -> bool {
        self.frozen
    }

    /// Wall-clock time accumulated since the last completed tick, in
    /// milliseconds.
    pub closed spec fn accumulated(&self) -> int {
        self.accumulated_ms as int
    }

    /// The fixed step interval, in milliseconds.
    pub closed spec fn interval(&self) -> int {
        self.step_interval_ms as int
    }

    /// A well-formed controller holds a well-formed grid.
    pub open spec fn wf(&self) -> bool {
        self.spec_grid().wf()
    }

    /// Whether a time delta completes a tick: the simulation is running and
    /// the accumulator reaches the step interval.
    pub open spec fn will_step(&self, delta_ms: u64) -> bool {
        !self.is_frozen() && sat_add(self.accumulated(), delta_ms as int) >= self.interval()
    }

    /// Creates the controller and its grid.  The grid starts all dead, the
    /// simulation starts paused, and the accumulator starts at zero.  The
    /// grid construction errors pass through unchanged.
    pub fn new(
        pixel_width: usize,
        pixel_height: usize,
        cell_size: usize,
        step_interval_ms: u64,
    ) -> (r: Result<SimulationController, ConfigurationError>)
        ensures
            r matches Ok(c) <==> (cell_size > 1 && pixel_width > 0 && pixel_height > 0
                && pixel_width % cell_size == 0 && pixel_height % cell_size == 0),
            r == Err::<SimulationController, _>(ConfigurationError::CellSizeTooSmall) <==> cell_size
                <= 1,
            r == Err::<SimulationController, _>(ConfigurationError::EmptyGrid) <==> (cell_size > 1
                && (pixel_width == 0 || pixel_height == 0)),
            r == Err::<SimulationController, _>(ConfigurationError::IndivisibleDimensions) <==> (
            cell_size > 1 && pixel_width > 0 && pixel_height > 0 && (pixel_width % cell_size != 0
                || pixel_height % cell_size != 0)),
            r matches Ok(c) ==> {
                &&& c.wf()
                &&& c.is_frozen()
                &&& c.accumulated() == 0
                &&& c.interval() == step_interval_ms
                &&& c.grid_view() == dead_grid(
                    (pixel_width / cell_size) as nat,
                    (pixel_height / cell_size) as nat,
                )
            },
    {
        match GridState::new(pixel_width, pixel_height, cell_size) {
            Ok(grid) => Ok(
                SimulationController { grid, frozen: true, accumulated_ms: 0, step_interval_ms },
            ),
            Err(e) => Err(e),
        }
    }

    /// Read-only access to the grid for the presentation layer.
    pub fn grid(&self) -> (g: &GridState)
        ensures
            *g == self.spec_grid(),
    {
        &self.grid
    }

    /// Whether the simulation is currently paused.
    pub fn is_paused(&self) -> (frozen: bool)
        ensures
            frozen == self.is_frozen(),
    {
        self.frozen
    }

    /// Flips Paused ↔ Running, unconditionally.  The grid and the
    /// accumulator are untouched: accumulated sub-interval time survives a
    /// pause/resume cycle and is only reset by a completed tick.
    pub fn toggle_pause(&mut self)
        ensures
            final(self).is_frozen() == !old(self).is_frozen(),
            final(self).grid_view() == old(self).grid_view(),
            final(self).spec_grid() == old(self).spec_grid(),
            final(self).accumulated() == old(self).accumulated(),
            final(self).interval() == old(self).interval(),
    {
        self.frozen = !self.frozen;
    }

    /// Paints cell `(x, y)` alive or dead.  Effective while paused and
    /// while running.  Coordinates outside the grid come from unclamped
    /// pointer input and are silently ignored: the grid is left entirely
    /// unchanged, with no panic and no partial write.
    pub fn paint(&mut self, x: usize, y: usize, alive: bool)
        requires
            old(self).wf(),
        ensures
            final(self).wf(),
            final(self).is_frozen() == old(self).is_frozen(),
            final(self).accumulated() == old(self).accumulated(),
            final(self).interval() == old(self).interval(),
            old(self).spec_grid().in_bounds(x as int, y as int) ==> final(self).grid_view() == old(
                self,
            ).grid_view().update(
                x as int,
                old(self).grid_view()[x as int].update(y as int, alive),
            ),
            !old(self).spec_grid().in_bounds(x as int, y as int) ==> final(self).grid_view() == old(
                self,
            ).grid_view(),
    {
        let (columns, row_count) = self.grid.dimensions();
        if x < columns && y < row_count {
            self.grid.set(x, y, alive);
        }
    }

    /// Sets every cell to dead.  May be invoked in either state and has no
    /// effect on the run/paused state, the accumulator, or the interval.
    pub fn erase_all(&mut self)
        requires
            old(self).wf(),
        ensures
            final(self).wf(),
            final(self).is_frozen() == old(self).is_frozen(),
            final(self).accumulated() == old(self).accumulated(),
            final(self).interval() == old(self).interval(),
            final(self).grid_view() == erased(old(self).grid_view()),
    {
        self.grid.erase_all();
    }

    /// Feeds one wall-clock time delta to the tick gate.
    ///
    /// The delta is always added (saturating) to the accumulator.  While
    /// paused the grid is never mutated, however much time accumulates.
    /// While running, once the accumulator reaches the step interval, the
    /// grid advances exactly one generation and the accumulator resets to
    /// zero — surplus time is discarded, so a long pause never fast-forwards
    /// several generations.  Sub-interval deltas are buffered, not
    /// discarded.
    pub fn advance(&mut self, delta_ms: u64)
        requires
            old(self).wf(),
        ensures
            final(self).wf(),
            final(self).is_frozen() == old(self).is_frozen(),
            final(self).interval() == old(self).interval(),
            old(self).is_frozen() ==> final(self).grid_view() == old(self).grid_view(),
            old(self).will_step(delta_ms) ==> {
                &&& final(self).grid_view() == step(old(self).grid_view())
                &&& final(self).accumulated() == 0
            },
            !old(self).will_step(delta_ms) ==> {
                &&& final(self).grid_view() == old(self).grid_view()
                &&& final(self).accumulated() == sat_add(old(self).accumulated(), delta_ms as int)
            },
    {
        self.accumulated_ms = if delta_ms > u64::MAX - self.accumulated_ms {
            u64::MAX
        } else {
            self.accumulated_ms + delta_ms
        };
        if !self.frozen && self.accumulated_ms >= self.step_interval_ms {
            self.grid.advance_generation();
            self.accumulated_ms = 0;
        }
    }
}

} // verus!
