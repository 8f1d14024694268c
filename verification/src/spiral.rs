//! Levels laid out on a square spiral around the origin.
//!
//! Level 0 sits at the origin. Ring `r >= 1` holds the `4 * r` cells whose
//! taxicab distance from the origin is `r`; it starts on the positive x axis
//! and walks clockwise (towards negative y first).
use vstd::prelude::*;
use vstd::arithmetic::div_mod::lemma_fundamental_div_mod_converse;

use crate::grid::GridPos;

verus! {

/// `|a|`
pub open spec fn abs_int(a: int) -> int {
    if a < 0 { -a } else { a }
}

/// The first level of ring `r` (for `r >= 1`): `1 + 2 r (r - 1)`.
pub open spec fn ring_start(r: int) -> int {
    1 + 2 * r * (r - 1)
}

/// `level` belongs to ring `r`.
pub open spec fn in_ring(level: int, r: int) -> bool {
    r >= 1 && ring_start(r) <= level && level < ring_start(r + 1)
}

/// The ring that a level `>= 1` belongs to.
pub open spec fn spiral_ring(level: int) -> int {
    choose|r: int| in_ring(level, r)
}

/// Where the spiral places `level`.
pub open spec fn spiral_coords(level: int) -> (int, int) {
    if level <= 0 {
        (0, 0)
    } else {
        let r = spiral_ring(level);
        let k = level - ring_start(r);
        let q = k / r;
        let o = k % r;
        if q == 0 {
            (r - o, -o)
        } else if q == 1 {
            (-o, -r + o)
        } else if q == 2 {
            (-r + o, o)
        } else {
            (o, r - o)
        }
    }
}

/// The level that the spiral places at `(x, y)`.
pub open spec fn spiral_level(x: int, y: int) -> int {
    let r = abs_int(x) + abs_int(y);
    if r == 0 {
        0
    } else if x > 0 && y <= 0 {
        ring_start(r) + (r - x)
    } else if x <= 0 && y < 0 {
        ring_start(r) + r + (-x)
    } else if x < 0 && y >= 0 {
        ring_start(r) + 2 * r + y
    } else {
        ring_start(r) + 3 * r + x
    }
}

/// The arithmetic of `level_to_pos` fits the machine: the level's ring ends
/// below `usize::MAX` and its radius is an `i32`.
pub open spec fn level_fits(level: int) -> bool {
    level == 0 || (ring_start(spiral_ring(level) + 1) <= usize::MAX && spiral_ring(level)
        <= i32::MAX)
}

/// The arithmetic of `pos_to_level` fits the machine: `|x| + |y|` is an `i32`
/// and the ring at that distance ends below `usize::MAX`.
pub open spec fn pos_fits(x: int, y: int) -> bool {
    abs_int(x) + abs_int(y) <= i32::MAX && ring_start(abs_int(x) + abs_int(y) + 1) <= usize::MAX
}

proof fn lemma_ring_start_step(r: int)
    ensures
        ring_start(r + 1) == ring_start(r) + 4 * r,
{
    assert(2 * (r + 1) * r == 2 * r * (r - 1) + 4 * r) by (nonlinear_arith);
}

proof fn lemma_ring_start_mono(r1: int, r2: int)
    requires
        1 <= r1 <= r2,
    ensures
        ring_start(r1) <= ring_start(r2),
    decreases r2 - r1,
{
    if r1 < r2 {
        lemma_ring_start_mono(r1, r2 - 1);
        lemma_ring_start_step(r2 - 1);
    }
}

proof fn lemma_ring_unique(level: int, r1: int, r2: int)
    requires
        in_ring(level, r1),
        in_ring(level, r2),
    ensures
        r1 == r2,
{
    if r1 < r2 {
        lemma_ring_start_mono(r1 + 1, r2);
    } else if r2 < r1 {
        lemma_ring_start_mono(r2 + 1, r1);
    }
}

/// Searching upwards from a ring that starts at or below `level` finds its ring.
proof fn lemma_ring_found_from(level: int, r: int)
    requires
        r >= 1,
        ring_start(r) <= level,
    ensures
        in_ring(level, spiral_ring(level)),
    decreases level - ring_start(r),
{
    lemma_ring_start_step(r);
    if level < ring_start(r + 1) {
        assert(in_ring(level, r));
    } else {
        lemma_ring_found_from(level, r + 1);
    }
}

proof fn lemma_spiral_ring_is(level: int, r: int)
    requires
        in_ring(level, r),
    ensures
        spiral_ring(level) == r,
{
    assert(in_ring(level, spiral_ring(level)));
    lemma_ring_unique(level, r, spiral_ring(level));
}

/// The position of a level lies on its ring, and the level is recovered from it.
proof fn lemma_coords_then_level(level: int)
    requires
        level >= 1,
    ensures
        abs_int(spiral_coords(level).0) + abs_int(spiral_coords(level).1) == spiral_ring(level),
        spiral_level(spiral_coords(level).0, spiral_coords(level).1) == level,
{
    lemma_ring_found_from(level, 1);
    let r = spiral_ring(level);
    lemma_ring_start_step(r);
    let k = level - ring_start(r);
    let q = k / r;
    let o = k % r;
    vstd::arithmetic::div_mod::lemma_fundamental_div_mod(k, r);
    vstd::arithmetic::div_mod::lemma_mod_bound(k, r);
    assert(k == r * q + o);
    assert(0 <= q < 4) by (nonlinear_arith)
        requires
            k == r * q + o,
            0 <= o < r,
            0 <= k < 4 * r,
    ;
    if q == 0 {
        assert(r * q == 0) by (nonlinear_arith) requires q == 0;
    } else if q == 1 {
        assert(r * q == r) by (nonlinear_arith) requires q == 1;
    } else if q == 2 {
        assert(r * q == 2 * r) by (nonlinear_arith) requires q == 2;
    } else {
        assert(r * q == 3 * r) by (nonlinear_arith) requires q == 3;
    }
}

/// The level placed at a position other than the origin is on that
/// position's ring, and the spiral places it back at that position.
proof fn lemma_level_then_coords(x: int, y: int)
    requires
        abs_int(x) + abs_int(y) >= 1,
    ensures
        in_ring(spiral_level(x, y), abs_int(x) + abs_int(y)),
        spiral_coords(spiral_level(x, y)) == (x, y),
{
    let r = abs_int(x) + abs_int(y);
    let level = spiral_level(x, y);
    lemma_ring_start_step(r);
    let (q, o) = if x > 0 && y <= 0 {
        (0int, r - x)
    } else if x <= 0 && y < 0 {
        (1int, -x)
    } else if x < 0 && y >= 0 {
        (2int, y)
    } else {
        (3int, x)
    };
    assert(level == ring_start(r) + q * r + o);
    assert(0 <= o < r);
    assert(in_ring(level, r));
    lemma_spiral_ring_is(level, r);
    lemma_fundamental_div_mod_converse(level - ring_start(r), r, q, o);
}

/// The spiral is a bijection between levels and grid positions: the
/// position of a level gives that level back.
pub proof fn law_level_pos_roundtrip(level: int)
    requires
        level >= 0,
    ensures
        spiral_level(spiral_coords(level).0, spiral_coords(level).1) == level,
{
    if level >= 1 {
        lemma_coords_then_level(level);
    }
}

/// The spiral is a bijection between levels and grid positions: the level
/// at a position is placed back at that position.
pub proof fn law_pos_level_roundtrip(x: int, y: int)
    ensures
        spiral_level(x, y) >= 0,
        spiral_coords(spiral_level(x, y)) == (x, y),
{
    if abs_int(x) + abs_int(y) >= 1 {
        lemma_level_then_coords(x, y);
        lemma_ring_start_mono(1, abs_int(x) + abs_int(y));
    }
}

/// `|a|` of an `i32` other than `i32::MIN`.
fn abs_i32(a: i32) -> (r: i32)
    requires
        a != i32::MIN,
    ensures
        r as int == abs_int(a as int),
{
    if a < 0 { -a } else { a }
}

/// Positions of levels: level 0 at the origin, then ring after ring outwards.
pub fn level_to_pos(level: usize) -> (p: GridPos)
    requires
        level_fits(level as int),
    ensures
        p.coords() == spiral_coords(level as int),
{
    if level == 0 {
        return GridPos { x: 0, y: 0 };
    }
    proof {
        lemma_ring_found_from(level as int, 1);
        lemma_ring_start_step(spiral_ring(level as int));
    }
    let ghost target = spiral_ring(level as int);
    let mut ring = 1usize;
    let mut start_of_ring = 1usize;

    while level >= start_of_ring + 4 * ring
        invariant
            1 <= ring <= target,
            start_of_ring as int == ring_start(ring as int),
            start_of_ring <= level,
            in_ring(level as int, target),
            ring_start(target + 1) <= usize::MAX,
            start_of_ring + 4 * ring <= ring_start(target + 1),
        decreases target - ring,
    {
        proof {
            lemma_ring_start_step(ring as int);
            if ring as int == target {
                assert(false);
            }
            lemma_ring_start_step(ring as int + 1);
            lemma_ring_start_mono(ring as int + 2, target + 1);
        }
        start_of_ring += 4 * ring;
        ring += 1;
    }
    proof {
        lemma_ring_start_step(ring as int);
        lemma_ring_unique(level as int, ring as int, target);
    }

    let pos_in_ring = level - start_of_ring;
    let r = ring as i32;
    let quadrant = pos_in_ring / ring;
    let offset = (pos_in_ring % ring) as i32;
    proof {
        vstd::arithmetic::div_mod::lemma_fundamental_div_mod(pos_in_ring as int, ring as int);
        assert(quadrant < 4) by (nonlinear_arith)
            requires
                pos_in_ring as int == ring as int * quadrant as int + (pos_in_ring % ring) as int,
                pos_in_ring < 4 * ring,
                0 <= (pos_in_ring % ring) < ring,
        ;
    }

    match quadrant {
        0 => GridPos { x: r - offset, y: -offset },
        1 => GridPos { x: -offset, y: -r + offset },
        2 => GridPos { x: -r + offset, y: offset },
        _ => GridPos { x: offset, y: r - offset },
    }
}

/// The level at a grid position: `Some` of it for every position.
pub fn pos_to_level(pos: GridPos) -> (r: Option<usize>)
    requires
        pos_fits(pos.x as int, pos.y as int),
    ensures
        r == Some(spiral_level(pos.x as int, pos.y as int) as usize),
        spiral_level(pos.x as int, pos.y as int) <= usize::MAX,
{
    if pos.x == 0 && pos.y == 0 {
        return Some(0);
    }

    let ring = (abs_i32(pos.x) + abs_i32(pos.y)) as usize;
    if ring == 0 {
        return Some(0);
    }
    proof {
        lemma_ring_start_step(ring as int);
        lemma_ring_start_mono(ring as int, ring as int + 1);
        lemma_level_then_coords(pos.x as int, pos.y as int);
        assert(2 * (ring - 1) * ring == ring_start(ring as int) - 1) by (nonlinear_arith)
            requires ring >= 1;
    }

    let start_of_ring = if ring == 1 { 1 } else { 1 + 2 * (ring - 1) * ring };
    let r = ring as i32;

    let (quadrant, offset): (usize, usize) = if pos.x > 0 && pos.y <= 0 {
        (0, (r - pos.x) as usize)
    } else if pos.x <= 0 && pos.y < 0 {
        (1, (-pos.x) as usize)
    } else if pos.x < 0 && pos.y >= 0 {
        (2, pos.y as usize)
    } else if pos.x >= 0 && pos.y > 0 {
        (3, pos.x as usize)
    } else {
        return None;
    };

    proof {
        assert(quadrant * ring <= 3 * ring) by (nonlinear_arith)
            requires quadrant <= 3;
        assert(offset < ring);
    }
    let level = start_of_ring + quadrant * ring + offset;
    proof {
        lemma_spiral_ring_is(level as int, ring as int);
        lemma_ring_start_step(ring as int);
    }
    let back = level_to_pos(level);
    if back == pos {
        Some(level)
    } else {
        None
    }
}

} // verus!
