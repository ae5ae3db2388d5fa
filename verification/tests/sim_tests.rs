use life_grid::grid_state::GridState;
use life_grid::sim::{SimulationLoop, DEFAULT_INTERVAL_MS};

/// A 10x10 grid holding a blinker in row orientation.
fn blinker_grid() -> GridState {
    let mut g = GridState::new(10, 10);
    assert!(g.seed(&vec![(5, 4), (5, 5), (5, 6)]));
    g
}

fn orientation_is_row(g: &GridState) -> bool {
    g.read(5, 4) && g.read(5, 6) && !g.read(4, 5)
}

fn orientation_is_column(g: &GridState) -> bool {
    g.read(4, 5) && g.read(6, 5) && !g.read(5, 4)
}

#[test]
fn ticks_within_interval_perform_no_step() {
    let mut sim = SimulationLoop::new(blinker_grid(), DEFAULT_INTERVAL_MS, 0);
    assert!(!sim.on_update_tick(100));
    assert!(!sim.on_update_tick(200));
    assert!(!sim.on_update_tick(499));
    assert!(orientation_is_row(sim.on_render_tick()));
}

#[test]
fn first_tick_past_interval_performs_exactly_one_step() {
    let mut sim = SimulationLoop::new(blinker_grid(), DEFAULT_INTERVAL_MS, 0);
    assert!(!sim.on_update_tick(499));
    assert!(sim.on_update_tick(500));
    assert!(orientation_is_column(sim.on_render_tick()));
}

#[test]
fn late_tick_fires_one_step_without_catch_up() {
    let mut sim = SimulationLoop::new(blinker_grid(), DEFAULT_INTERVAL_MS, 0);
    // 2300 ms is several intervals past due; still exactly one step
    // fires, and the next interval is measured from this tick.
    assert!(sim.on_update_tick(2300));
    assert!(orientation_is_column(sim.on_render_tick()));
    assert!(!sim.on_update_tick(2700));
    assert!(orientation_is_column(sim.on_render_tick()));
    assert!(sim.on_update_tick(2800));
    assert!(orientation_is_row(sim.on_render_tick()));
}

#[test]
fn interval_is_measured_from_the_last_applied_step() {
    let mut sim = SimulationLoop::new(blinker_grid(), 250, 0);
    assert!(sim.on_update_tick(250));
    assert!(!sim.on_update_tick(499));
    assert!(sim.on_update_tick(500));
    assert!(orientation_is_row(sim.on_render_tick()));
}

#[test]
fn zero_interval_steps_on_every_tick() {
    let mut sim = SimulationLoop::new(blinker_grid(), 0, 0);
    assert!(sim.on_update_tick(0));
    assert!(sim.on_update_tick(1));
    assert!(orientation_is_row(sim.on_render_tick()));
}

#[test]
fn render_tick_does_not_mutate() {
    let sim = SimulationLoop::new(blinker_grid(), DEFAULT_INTERVAL_MS, 0);
    assert!(orientation_is_row(sim.on_render_tick()));
    assert!(orientation_is_row(sim.on_render_tick()));
    let g = sim.on_render_tick();
    assert_eq!(g.rows(), 10);
    assert_eq!(g.cols(), 10);
}
