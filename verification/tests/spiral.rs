use meaningless::grid::GridPos;
use meaningless::spiral::{level_to_pos, pos_to_level};

#[test]
fn test_spiral() {
    assert_eq!(level_to_pos(0), GridPos::new(0, 0));
    assert_eq!(level_to_pos(1), GridPos::new(1, 0));
    assert_eq!(level_to_pos(2), GridPos::new(0, -1));
    assert_eq!(level_to_pos(3), GridPos::new(-1, 0));
    assert_eq!(level_to_pos(4), GridPos::new(0, 1));
    assert_eq!(level_to_pos(5), GridPos::new(2, 0));
    assert_eq!(level_to_pos(6), GridPos::new(1, -1));
    assert_eq!(level_to_pos(7), GridPos::new(0, -2));
    assert_eq!(level_to_pos(8), GridPos::new(-1, -1));
}

#[test]
fn spiral_second_ring_continues_clockwise() {
    assert_eq!(level_to_pos(9), GridPos::new(-2, 0));
    assert_eq!(level_to_pos(10), GridPos::new(-1, 1));
    assert_eq!(level_to_pos(11), GridPos::new(0, 2));
    assert_eq!(level_to_pos(12), GridPos::new(1, 1));
    assert_eq!(level_to_pos(13), GridPos::new(3, 0));
}

#[test]
fn spiral_level_pos_roundtrip() {
    for level in 0..5000usize {
        let pos = level_to_pos(level);
        assert_eq!(pos_to_level(pos), Some(level));
    }
}

#[test]
fn spiral_pos_level_roundtrip() {
    for x in -30..=30 {
        for y in -30..=30 {
            let pos = GridPos::new(x, y);
            let level = pos_to_level(pos).unwrap();
            assert_eq!(level_to_pos(level), pos);
        }
    }
}

#[test]
fn spiral_origin_is_level_zero() {
    assert_eq!(pos_to_level(GridPos::new(0, 0)), Some(0));
    assert_eq!(pos_to_level(GridPos::new(1, 1)), Some(12));
    assert_eq!(pos_to_level(GridPos::new(-3, 0)), Some(19));
}
