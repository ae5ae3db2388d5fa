//! The timed stepping loop: gates how often the grid advances a
//! generation against wall-clock timestamps, and hands the grid to
//! the renderer on request.

use vstd::prelude::*;

use crate::grid_state::GridState;
use crate::rules::is_step;

verus! {

/// The default stepping interval, in milliseconds.
pub const DEFAULT_INTERVAL_MS: u64 = 500;

/// Drives a `GridState` from an external stream of update and render
/// ticks: an update tick advances one generation when at least
/// `interval_ms` of wall-clock time has passed since the last applied
/// step, and a render tick only reads.
pub struct SimulationLoop {
    grid: GridState,
    interval_ms: u64,
    last_step_ms: u64,
}

impl SimulationLoop {
    /// The grid the loop drives.
    pub closed spec fn spec_grid(&self) -> GridState {
        self.grid
    }

    /// The stepping interval, in milliseconds.
    pub closed spec fn spec_interval_ms(&self) -> int {
        self.interval_ms as int
    }

    /// The timestamp of the last applied step, in milliseconds.
    pub closed spec fn spec_last_step_ms(&self) -> int {
        self.last_step_ms as int
    }

    /// The loop is as well-formed as its grid.
    pub open spec fn wf(&self) -> bool {
        self.spec_grid().wf()
    }

    /// A tick at `now_ms` is due to step: at least the interval has
    /// elapsed since the last applied step.
    pub open spec fn step_due(&self, now_ms: int) -> bool {
        now_ms - self.spec_last_step_ms() >= self.spec_interval_ms()
    }

    /// Starts the loop over a seeded grid. `start_ms` is the
    /// timestamp the first interval is measured from.
    pub fn new(grid: GridState, interval_ms: u64, start_ms: u64) -> (s: SimulationLoop)
        requires
            grid.wf(),
        ensures
            s.wf(),
            s.spec_grid() == grid,
            s.spec_interval_ms() == interval_ms as int,
            s.spec_last_step_ms() == start_ms as int,
    {
        SimulationLoop { grid, interval_ms, last_step_ms: start_ms }
    }

    /// Handles one update tick carrying the current timestamp. When
    /// the interval has elapsed since the last applied step, exactly
    /// one generation step fires and the tick's timestamp is
    /// recorded, however far past the interval the tick is; earlier
    /// ticks change nothing, so ticks arriving faster than the
    /// interval are coalesced and no step backlog builds up.
    pub fn on_update_tick(&mut self, now_ms: u64) -> (stepped: bool)
        requires
            old(self).wf(),
        ensures
            final(self).wf(),
            stepped == old(self).step_due(now_ms as int),
            final(self).spec_interval_ms() == old(self).spec_interval_ms(),
            final(self).spec_grid().spec_rows() == old(self).spec_grid().spec_rows(),
            final(self).spec_grid().spec_cols() == old(self).spec_grid().spec_cols(),
            stepped ==> final(self).spec_last_step_ms() == now_ms as int && is_step(
                old(self).spec_grid()@,
                final(self).spec_grid()@,
                old(self).spec_grid().spec_rows(),
                old(self).spec_grid().spec_cols(),
            ),
            !stepped ==> *final(self) == *old(self),
    {
        if now_ms >= self.last_step_ms && now_ms - self.last_step_ms >= self.interval_ms {
            self.grid.step();
            self.last_step_ms = now_ms;
            true
        } else {
            false
        }
    }

    /// Handles one render tick: hands the renderer read access to the
    /// current grid. Takes `&self`, so simulation state cannot change.
    pub fn on_render_tick(&self) -> (g: &GridState)
        ensures
            *g == self.spec_grid(),
    {
        &self.grid
    }
}

} // verus!
