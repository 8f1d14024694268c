use meaningless::gol::{CellAnim, TickState, HISTORY_CAP};
use meaningless::grid::{CellSet, GridPos};

fn positions(cells: &[(i32, i32)]) -> Vec<GridPos> {
    cells.iter().map(|&(x, y)| GridPos::new(x, y)).collect()
}

fn sorted(s: &CellSet) -> Vec<(i32, i32)> {
    let mut v: Vec<(i32, i32)> = s.positions().iter().map(|p| (p.x, p.y)).collect();
    v.sort();
    v
}

fn blinker_state() -> TickState {
    let mut t = TickState::new();
    t.load_level(&positions(&[]), &positions(&[]), &positions(&[(0, 0), (1, 0), (2, 0)]));
    t
}

#[test]
fn nothing_happens_before_loading() {
    let mut t = TickState::new();
    assert!(!t.is_initialized());
    let appeared = t.process_tick_input(true, false);
    assert!(appeared.is_empty());
    assert!(t.current().is_empty());
}

#[test]
fn loading_computes_the_next_generation() {
    let t = blinker_state();
    assert!(t.is_initialized());
    assert_eq!(sorted(t.current()), vec![(0, 0), (1, 0), (2, 0)]);
    assert_eq!(sorted(t.next()), vec![(1, -1), (1, 0), (1, 1)]);
    assert_eq!(t.history_len(), 0);
}

#[test]
fn forward_then_backward_restores() {
    let mut t = blinker_state();
    let appeared = t.process_tick_input(true, false);
    assert_eq!(sorted(&appeared), vec![(1, -1), (1, 1)]);
    assert_eq!(sorted(t.current()), vec![(1, -1), (1, 0), (1, 1)]);
    assert_eq!(t.history_len(), 1);
    let appeared = t.process_tick_input(false, true);
    assert_eq!(sorted(&appeared), vec![(0, 0), (2, 0)]);
    assert_eq!(sorted(t.current()), vec![(0, 0), (1, 0), (2, 0)]);
    assert_eq!(sorted(t.next()), vec![(1, -1), (1, 0), (1, 1)]);
    assert_eq!(t.history_len(), 0);
}

#[test]
fn backward_without_history_does_nothing() {
    let mut t = blinker_state();
    let appeared = t.process_tick_input(false, true);
    assert!(appeared.is_empty());
    assert_eq!(sorted(t.current()), vec![(0, 0), (1, 0), (2, 0)]);
}

#[test]
fn forward_wins_over_backward() {
    let mut t = blinker_state();
    t.process_tick_input(true, true);
    assert_eq!(t.history_len(), 1);
}

#[test]
fn history_is_capped() {
    let mut t = blinker_state();
    for _ in 0..(HISTORY_CAP + 10) {
        t.process_tick_input(true, false);
    }
    assert_eq!(t.history_len(), HISTORY_CAP);
}

#[test]
fn cell_states() {
    let mut t = blinker_state();
    assert_eq!(t.cell_state(GridPos::new(1, 0)), Some(CellAnim::Stable));
    assert_eq!(t.cell_state(GridPos::new(0, 0)), Some(CellAnim::Scared));
    assert_eq!(t.cell_state(GridPos::new(1, 1)), Some(CellAnim::Pending));
    assert_eq!(t.cell_state(GridPos::new(5, 5)), None);
    t.process_tick_input(true, false);
    // (0, 0) was alive before, is dead now, and is born again next.
    assert_eq!(t.cell_state(GridPos::new(0, 0)), Some(CellAnim::Pending));
    let relevant = t.relevant_positions();
    assert_eq!(sorted(&relevant), vec![(0, 0), (1, -1), (1, 0), (1, 1), (2, 0)]);
}

#[test]
fn slain_cells_show_after_dying() {
    let mut t = TickState::new();
    t.load_level(&positions(&[]), &positions(&[]), &positions(&[(0, 0)]));
    t.process_tick_input(true, false);
    assert_eq!(t.cell_state(GridPos::new(0, 0)), Some(CellAnim::Slain));
    assert_eq!(sorted(&t.relevant_positions()), vec![(0, 0)]);
}

#[test]
fn reloading_drops_the_old_level() {
    let mut t = blinker_state();
    t.process_tick_input(true, false);
    t.load_level(&positions(&[(9, 9)]), &positions(&[(3, 3)]), &positions(&[(0, 0)]));
    assert_eq!(t.history_len(), 0);
    assert_eq!(sorted(t.current()), vec![(0, 0)]);
    assert_eq!(sorted(t.permanent()), vec![(9, 9)]);
    assert_eq!(sorted(t.never()), vec![(3, 3)]);
    assert!(t.is_alive(GridPos::new(9, 9)));
    assert_eq!(t.count_neighbors(GridPos::new(1, 1)), 1);
    assert!(t.next_fits());
}
