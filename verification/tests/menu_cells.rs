use meaningless::grid::{CellSet, GridPos};
use meaningless::menu_cells::MenuCellState;

fn sorted(s: &CellSet) -> Vec<(i32, i32)> {
    let mut v: Vec<(i32, i32)> = s.positions().iter().map(|p| (p.x, p.y)).collect();
    v.sort();
    v
}

#[test]
fn menu_starts_once_permanent_cells_are_known() {
    let mut m = MenuCellState::new();
    m.add_dynamic(GridPos::new(0, 0));
    assert!(!m.try_initialize());
    m.add_permanent(GridPos::new(10, 10));
    assert!(m.try_initialize());
    assert!(!m.try_initialize());
    assert!(m.initialized());
}

#[test]
fn menu_tick_reports_births_and_deaths() {
    let mut m = MenuCellState::new();
    m.add_permanent(GridPos::new(20, 20));
    for &(x, y) in &[(0, 0), (1, 0), (2, 0)] {
        m.add_dynamic(GridPos::new(x, y));
    }
    let step = m.tick(true);
    assert!(step.to_remove.is_empty() && step.to_spawn.is_empty());
    m.try_initialize();
    assert!(m.fits());
    let step = m.tick(true);
    assert_eq!(sorted(&step.to_remove), vec![(0, 0), (2, 0)]);
    assert_eq!(sorted(&step.to_spawn), vec![(1, -1), (1, 1)]);
    assert_eq!(sorted(m.current()), vec![(1, -1), (1, 0), (1, 1)]);
    let step = m.tick(false);
    assert_eq!(sorted(&step.to_spawn), vec![(0, 0), (2, 0)]);
    assert_eq!(sorted(m.current()), vec![(1, -1), (1, 0), (1, 1)]);
    assert!(m.is_alive(GridPos::new(20, 20)));
    assert_eq!(m.count_neighbors(GridPos::new(0, 0)), 3);
    m.clear();
    assert!(!m.initialized());
    assert!(m.current().is_empty() && m.permanent().is_empty());
}
