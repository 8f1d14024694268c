//! Conway's Game of Life (B3/S23) on the grid, with two kinds of fixed
//! cells: permanent cells, which are always alive and count as neighbours
//! but never change, and "never" cells, where nothing is ever born.
use vstd::prelude::*;

use crate::grid::{fits_margin, CellSet, GridPos};

verus! {

/// A cell counts as alive when it is permanent or currently alive.
pub open spec fn alive(cur: Set<(int, int)>, perm: Set<(int, int)>, c: (int, int)) -> bool {
    perm.contains(c) || cur.contains(c)
}

/// 1 when the cell `(x, y)` is alive, else 0.
pub open spec fn live(cur: Set<(int, int)>, perm: Set<(int, int)>, x: int, y: int) -> int {
    if alive(cur, perm, (x, y)) {
        1
    } else {
        0
    }
}

/// The number of alive cells among the eight cells around `c`.
pub open spec fn neighbor_count(cur: Set<(int, int)>, perm: Set<(int, int)>, c: (int, int)) -> int {
    live(cur, perm, c.0 - 1, c.1 - 1) + live(cur, perm, c.0, c.1 - 1) + live(cur, perm, c.0 + 1, c.1 - 1)
        + live(cur, perm, c.0 - 1, c.1) + live(cur, perm, c.0 + 1, c.1) + live(cur, perm, c.0 - 1, c.1 + 1)
        + live(cur, perm, c.0, c.1 + 1) + live(cur, perm, c.0 + 1, c.1 + 1)
}

/// Whether `c` is a dynamic cell alive in the next generation: it is neither
/// permanent nor a "never" cell, and either it is alive with two or three
/// alive neighbours, or it is dead with exactly three.
#[verifier::opaque]
pub open spec fn lives_next(
    cur: Set<(int, int)>,
    perm: Set<(int, int)>,
    never: Set<(int, int)>,
    c: (int, int),
) -> bool {
    &&& !perm.contains(c)
    &&& !never.contains(c)
    &&& if cur.contains(c) {
        neighbor_count(cur, perm, c) == 2 || neighbor_count(cur, perm, c) == 3
    } else {
        neighbor_count(cur, perm, c) == 3
    }
}

/// The dynamic cells of the next generation.
pub open spec fn life_step(
    cur: Set<(int, int)>,
    perm: Set<(int, int)>,
    never: Set<(int, int)>,
) -> Set<(int, int)> {
    Set::new(|c: (int, int)| lives_next(cur, perm, never, c))
}

/// `a` is `c` or one of its eight neighbours.
pub open spec fn near(a: (int, int), c: (int, int)) -> bool {
    -1 <= a.0 - c.0 <= 1 && -1 <= a.1 - c.1 <= 1
}

/// A cell with an alive neighbour has one of them here.
proof fn live_neighbor(cur: Set<(int, int)>, perm: Set<(int, int)>, c: (int, int)) -> (a: (int, int))
    requires
        neighbor_count(cur, perm, c) > 0,
    ensures
        alive(cur, perm, a),
        near(a, c),
{
    if live(cur, perm, c.0 - 1, c.1 - 1) == 1 {
        (c.0 - 1, c.1 - 1)
    } else if live(cur, perm, c.0, c.1 - 1) == 1 {
        (c.0, c.1 - 1)
    } else if live(cur, perm, c.0 + 1, c.1 - 1) == 1 {
        (c.0 + 1, c.1 - 1)
    } else if live(cur, perm, c.0 - 1, c.1) == 1 {
        (c.0 - 1, c.1)
    } else if live(cur, perm, c.0 + 1, c.1) == 1 {
        (c.0 + 1, c.1)
    } else if live(cur, perm, c.0 - 1, c.1 + 1) == 1 {
        (c.0 - 1, c.1 + 1)
    } else if live(cur, perm, c.0, c.1 + 1) == 1 {
        (c.0, c.1 + 1)
    } else {
        (c.0 + 1, c.1 + 1)
    }
}

/// Whether `pos` is alive: permanent or currently alive.
pub fn is_alive(current: &CellSet, permanent: &CellSet, pos: GridPos) -> (b: bool)
    ensures
        b == alive(current@, permanent@, pos.coords()),
{
    permanent.contains(pos) || current.contains(pos)
}

fn live_at(current: &CellSet, permanent: &CellSet, x: i32, y: i32) -> (n: u8)
    ensures
        n as int == live(current@, permanent@, x as int, y as int),
{
    if is_alive(current, permanent, GridPos { x, y }) {
        1
    } else {
        0
    }
}

/// The number of alive cells around `pos`.
pub fn count_neighbors(current: &CellSet, permanent: &CellSet, pos: GridPos) -> (n: u8)
    requires
        i32::MIN < pos.x < i32::MAX,
        i32::MIN < pos.y < i32::MAX,
    ensures
        n as int == neighbor_count(current@, permanent@, pos.coords()),
        n <= 8,
{
    let (x, y) = (pos.x, pos.y);
    live_at(current, permanent, x - 1, y - 1) + live_at(current, permanent, x, y - 1) + live_at(
        current,
        permanent,
        x + 1,
        y - 1,
    ) + live_at(current, permanent, x - 1, y) + live_at(current, permanent, x + 1, y) + live_at(
        current,
        permanent,
        x - 1,
        y + 1,
    ) + live_at(current, permanent, x, y + 1) + live_at(current, permanent, x + 1, y + 1)
}

/// Adds `pos` to `next` when it lives in the next generation.
fn consider(next: &mut CellSet, current: &CellSet, permanent: &CellSet, never: &CellSet, pos: GridPos)
    requires
        i32::MIN < pos.x < i32::MAX,
        i32::MIN < pos.y < i32::MAX,
    ensures
        final(next)@ == if lives_next(current@, permanent@, never@, pos.coords()) {
            old(next)@.insert(pos.coords())
        } else {
            old(next)@
        },
{
    reveal(lives_next);
    if permanent.contains(pos) || never.contains(pos) {
        return;
    }
    let neighbors = count_neighbors(current, permanent, pos);
    let currently_alive = current.contains(pos);
    let will_live = if currently_alive {
        neighbors == 2 || neighbors == 3
    } else {
        neighbors == 3
    };
    if will_live {
        next.insert(pos);
    }
}

/// Adds to `next` each cell around `center`, or `center` itself, that lives
/// in the next generation.
fn consider_around(
    next: &mut CellSet,
    current: &CellSet,
    permanent: &CellSet,
    never: &CellSet,
    center: GridPos,
)
    requires
        i32::MIN + 2 <= center.x <= i32::MAX - 2,
        i32::MIN + 2 <= center.y <= i32::MAX - 2,
    ensures
        final(next)@ == old(next)@.union(
            Set::new(
                |c: (int, int)|
                    near(c, center.coords()) && lives_next(current@, permanent@, never@, c),
            ),
        ),
{
    let ghost before = next@;
    let (x, y) = (center.x, center.y);
    consider(next, current, permanent, never, GridPos { x: x - 1, y: y - 1 });
    consider(next, current, permanent, never, GridPos { x: x, y: y - 1 });
    consider(next, current, permanent, never, GridPos { x: x + 1, y: y - 1 });
    consider(next, current, permanent, never, GridPos { x: x - 1, y: y });
    consider(next, current, permanent, never, GridPos { x: x, y: y });
    consider(next, current, permanent, never, GridPos { x: x + 1, y: y });
    consider(next, current, permanent, never, GridPos { x: x - 1, y: y + 1 });
    consider(next, current, permanent, never, GridPos { x: x, y: y + 1 });
    consider(next, current, permanent, never, GridPos { x: x + 1, y: y + 1 });
    assert(next@ =~= before.union(
        Set::new(
            |c: (int, int)| near(c, center.coords()) && lives_next(current@, permanent@, never@, c),
        ),
    ));
}

/// Adds to `next` every cell near a cell of `centers` that lives in the next
/// generation.
fn consider_near_all(
    next: &mut CellSet,
    current: &CellSet,
    permanent: &CellSet,
    never: &CellSet,
    centers: &CellSet,
)
    requires
        fits_margin(centers@, 2),
        old(next)@.subset_of(life_step(current@, permanent@, never@)),
    ensures
        final(next)@.subset_of(life_step(current@, permanent@, never@)),
        forall|a: (int, int), c: (int, int)|
            #![trigger centers@.contains(a), final(next)@.contains(c)]
            centers@.contains(a) && near(c, a) && lives_next(current@, permanent@, never@, c)
                ==> final(next)@.contains(c),
        forall|c: (int, int)| old(next)@.contains(c) ==> final(next)@.contains(c),
{
    let ghost start = next@;
    let v = centers.positions();
    let mut i: usize = 0;
    while i < v.len()
        invariant
            i <= v@.len(),
            next@.subset_of(life_step(current@, permanent@, never@)),
            forall|c: (int, int)| start.contains(c) ==> next@.contains(c),
            forall|j: int, c: (int, int)|
                #![trigger v@[j], next@.contains(c)]
                0 <= j < i && near(c, v@[j].coords()) && lives_next(current@, permanent@, never@, c)
                    ==> next@.contains(c),
            forall|j: int| 0 <= j < v@.len() ==> centers@.contains((#[trigger] v@[j]).coords()),
            forall|c: (int, int)|
                centers@.contains(c) ==> exists|j: int|
                    0 <= j < v@.len() && (#[trigger] v@[j]).coords() == c,
            fits_margin(centers@, 2),
        decreases v@.len() - i,
    {
        let center = v[i];
        assert(centers@.contains(v@[i as int].coords()));
        consider_around(next, current, permanent, never, center);
        i += 1;
    }
    assert forall|a: (int, int), c: (int, int)|
        #![trigger centers@.contains(a), next@.contains(c)]
        centers@.contains(a) && near(c, a) && lives_next(current@, permanent@, never@, c)
            implies next@.contains(c) by {
        let j = choose|j: int| 0 <= j < v@.len() && (#[trigger] v@[j]).coords() == a;
        assert(near(c, v@[j].coords()));
    }
}

/// The dynamic cells of the next generation: exactly the cells that
/// `lives_next` holds of.
pub fn next_generation(current: &CellSet, permanent: &CellSet, never: &CellSet) -> (next: CellSet)
    requires
        fits_margin(current@, 2),
        fits_margin(permanent@, 2),
    ensures
        next@ == life_step(current@, permanent@, never@),
{
    let mut next = CellSet::new();
    consider_near_all(&mut next, current, permanent, never, current);
    consider_near_all(&mut next, current, permanent, never, permanent);
    assert forall|c: (int, int)| lives_next(current@, permanent@, never@, c) implies next@.contains(c) by {
        reveal(lives_next);
        let a = live_neighbor(current@, permanent@, c);
        assert(near(c, a));
        if current@.contains(a) {
            assert(current@.contains(a) && near(c, a));
        } else {
            assert(permanent@.contains(a) && near(c, a));
        }
    }
    assert(next@ =~= life_step(current@, permanent@, never@));
    next
}

/// Permanent cells never change and nothing is ever born on a "never"
/// cell: neither kind is ever among the dynamic cells of the next generation.
pub proof fn law_fixed_cells_never_live(
    cur: Set<(int, int)>,
    perm: Set<(int, int)>,
    never: Set<(int, int)>,
    c: (int, int),
)
    requires
        perm.contains(c) || never.contains(c),
    ensures
        !life_step(cur, perm, never).contains(c),
{
    reveal(lives_next);
}

/// A dead cell with no alive neighbour stays dead, and a cell with fewer
/// than two or more than three alive neighbours is dead in the next
/// generation.
pub proof fn law_lonely_or_crowded_cells_die(
    cur: Set<(int, int)>,
    perm: Set<(int, int)>,
    never: Set<(int, int)>,
    c: (int, int),
)
    requires
        neighbor_count(cur, perm, c) < 2 || neighbor_count(cur, perm, c) > 3,
    ensures
        !life_step(cur, perm, never).contains(c),
{
    reveal(lives_next);
}

/// A dead cell with exactly three alive neighbours is born, unless it is a
/// permanent or "never" cell; an alive one with two or three survives.
pub proof fn law_birth_and_survival(
    cur: Set<(int, int)>,
    perm: Set<(int, int)>,
    never: Set<(int, int)>,
    c: (int, int),
)
    requires
        !perm.contains(c),
        !never.contains(c),
    ensures
        neighbor_count(cur, perm, c) == 3 ==> life_step(cur, perm, never).contains(c),
        cur.contains(c) && neighbor_count(cur, perm, c) == 2 ==> life_step(cur, perm, never).contains(c),
        !cur.contains(c) && neighbor_count(cur, perm, c) == 2 ==> !life_step(cur, perm, never).contains(c),
{
    reveal(lives_next);
}

} // verus!
