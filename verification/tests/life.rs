use meaningless::grid::{CellSet, GridPos};
use meaningless::life::{count_neighbors, is_alive, next_generation};

fn set(cells: &[(i32, i32)]) -> CellSet {
    let v: Vec<GridPos> = cells.iter().map(|&(x, y)| GridPos::new(x, y)).collect();
    CellSet::from_positions(&v)
}

fn sorted(s: &CellSet) -> Vec<(i32, i32)> {
    let mut v: Vec<(i32, i32)> = s.positions().iter().map(|p| (p.x, p.y)).collect();
    v.sort();
    v
}

#[test]
fn blinker_oscillates() {
    let none = CellSet::new();
    let horizontal = set(&[(0, 0), (1, 0), (2, 0)]);
    let next = next_generation(&horizontal, &none, &none);
    assert_eq!(sorted(&next), vec![(1, -1), (1, 0), (1, 1)]);
    let back = next_generation(&next, &none, &none);
    assert_eq!(sorted(&back), vec![(0, 0), (1, 0), (2, 0)]);
}

#[test]
fn block_is_still() {
    let none = CellSet::new();
    let block = set(&[(0, 0), (1, 0), (0, 1), (1, 1)]);
    let next = next_generation(&block, &none, &none);
    assert_eq!(sorted(&next), vec![(0, 0), (0, 1), (1, 0), (1, 1)]);
}

#[test]
fn glider_moves_diagonally() {
    let none = CellSet::new();
    let mut g = set(&[(1, 0), (2, 1), (0, 2), (1, 2), (2, 2)]);
    for _ in 0..4 {
        g = next_generation(&g, &none, &none);
    }
    assert_eq!(sorted(&g), vec![(1, 3), (2, 1), (2, 3), (3, 2), (3, 3)]);
}

#[test]
fn lonely_cell_dies() {
    let none = CellSet::new();
    let one = set(&[(5, 5)]);
    assert!(next_generation(&one, &none, &none).is_empty());
}

#[test]
fn permanent_cells_count_but_never_change() {
    let none = CellSet::new();
    let permanent = set(&[(0, 0), (1, 0)]);
    let current = set(&[(2, 0)]);
    let next = next_generation(&current, &permanent, &none);
    assert_eq!(sorted(&next), vec![(1, -1), (1, 1)]);
    assert!(!next.contains(GridPos::new(0, 0)));
    assert!(is_alive(&current, &permanent, GridPos::new(0, 0)));
    assert_eq!(count_neighbors(&current, &permanent, GridPos::new(1, 1)), 3);
}

#[test]
fn never_cells_block_births() {
    let horizontal = set(&[(0, 0), (1, 0), (2, 0)]);
    let never = set(&[(1, 1)]);
    let none = CellSet::new();
    let next = next_generation(&horizontal, &none, &never);
    assert_eq!(sorted(&next), vec![(1, -1), (1, 0)]);
}

#[test]
fn cell_set_operations() {
    let a = set(&[(0, 0), (1, 1), (1, 1)]);
    assert_eq!(a.len(), 2);
    let b = set(&[(1, 1), (2, 2)]);
    assert_eq!(sorted(&a.union(&b)), vec![(0, 0), (1, 1), (2, 2)]);
    assert_eq!(sorted(&a.difference(&b)), vec![(0, 0)]);
    let mut c = a.snapshot();
    c.insert(GridPos::new(7, 7));
    c.insert(GridPos::new(7, 7));
    assert_eq!(c.len(), 3);
    c.clear();
    assert!(c.is_empty());
}
