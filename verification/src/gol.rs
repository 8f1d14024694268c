//! The Game of Life state of a level being played: the generation shown,
//! the one that follows, the one before, and a bounded history that lets
//! the player step backwards.
use vstd::prelude::*;

use crate::anim::Anim;
use crate::grid::{fits_margin, positions_set, CellSet, GridPos};
use crate::life::{life_step, next_generation};

verus! {

/// The number of past generations that are kept for stepping backwards.
pub const HISTORY_CAP: usize = 256;

/// How a dynamic cell is drawn, from where it stands between the previous,
/// current and next generations.
#[derive(Clone, Copy, Debug, PartialEq, Eq, Structural)]
pub enum CellAnim {
    /// Alive now and in the next generation.
    Stable,
    /// Alive now, dead in the next generation.
    Scared,
    /// Dead now, alive in the next generation.
    Pending,
    /// Alive in the previous generation, dead now and next.
    Slain,
}

impl Anim for CellAnim {
    open spec fn spec_index(self) -> usize {
        match self {
            CellAnim::Stable => 0,
            CellAnim::Scared => 1,
            CellAnim::Pending => 2,
            CellAnim::Slain => 3,
        }
    }

    open spec fn spec_from_index(index: usize) -> CellAnim {
        if index == 1 {
            CellAnim::Scared
        } else if index == 2 {
            CellAnim::Pending
        } else if index == 3 {
            CellAnim::Slain
        } else {
            CellAnim::Stable
        }
    }

    proof fn lemma_index_roundtrip(a: CellAnim) {
    }

    fn index(&self) -> (i: usize) {
        match self {
            CellAnim::Stable => 0,
            CellAnim::Scared => 1,
            CellAnim::Pending => 2,
            CellAnim::Slain => 3,
        }
    }

    fn from_index(index: usize) -> (a: CellAnim) {
        match index {
            1 => CellAnim::Scared,
            2 => CellAnim::Pending,
            3 => CellAnim::Slain,
            _ => CellAnim::Stable,
        }
    }
}

/// The mathematical content of a `TickState`.
#[verifier::ext_equal]
pub struct TickModel {
    pub previous: Option<Set<(int, int)>>,
    pub current: Set<(int, int)>,
    pub next: Set<(int, int)>,
    pub permanent: Set<(int, int)>,
    pub never: Set<(int, int)>,
    pub history: Seq<Set<(int, int)>>,
    pub initialized: bool,
}

impl TickModel {
    /// Once initialized, `next` is the generation after `current`, and
    /// `previous` is always the latest generation in the history.
    pub open spec fn consistent(self) -> bool {
        &&& self.initialized ==> self.next == life_step(self.current, self.permanent, self.never)
        &&& self.previous == (if self.history.len() == 0 {
            None::<Set<(int, int)>>
        } else {
            Some(self.history.last())
        })
        &&& self.history.len() <= HISTORY_CAP
        &&& !self.initialized ==> {
            &&& self.current == Set::<(int, int)>::empty()
            &&& self.next == Set::<(int, int)>::empty()
            &&& self.permanent == Set::<(int, int)>::empty()
            &&& self.never == Set::<(int, int)>::empty()
            &&& self.history.len() == 0
        }
    }

    /// One step forwards: the current generation is pushed on the history
    /// (dropping the oldest entry when the history is full), the next
    /// generation becomes current and the one after it is computed.
    pub open spec fn forward(self) -> TickModel {
        let kept = if self.history.len() >= HISTORY_CAP {
            self.history.drop_first()
        } else {
            self.history
        };
        TickModel {
            previous: Some(self.current),
            current: self.next,
            next: life_step(self.next, self.permanent, self.never),
            history: kept.push(self.current),
            ..self
        }
    }

    /// One step backwards (with a non-empty history): the latest generation
    /// of the history is restored as current.
    pub open spec fn backward(self) -> TickModel {
        let restored = self.history.last();
        let kept = self.history.drop_last();
        TickModel {
            previous: if kept.len() == 0 {
                None::<Set<(int, int)>>
            } else {
                Some(kept.last())
            },
            current: restored,
            next: life_step(restored, self.permanent, self.never),
            history: kept,
            ..self
        }
    }
}

/// How a cell is drawn, given the previous, current and next generations;
/// `None` when the cell is in none of them.
pub open spec fn cell_phase(
    previous: Option<Set<(int, int)>>,
    current: Set<(int, int)>,
    next: Set<(int, int)>,
    c: (int, int),
) -> Option<CellAnim> {
    let in_current = current.contains(c);
    let in_next = next.contains(c);
    let in_previous = match previous {
        Some(p) => p.contains(c),
        None => false,
    };
    if in_current && in_next {
        Some(CellAnim::Stable)
    } else if in_current && !in_next {
        Some(CellAnim::Scared)
    } else if !in_current && in_next {
        Some(CellAnim::Pending)
    } else if in_previous && !in_current {
        Some(CellAnim::Slain)
    } else {
        None
    }
}

/// The Game of Life state of the level being played.
pub struct TickState {
    previous: Option<CellSet>,
    current: CellSet,
    next: CellSet,
    permanent: CellSet,
    never: CellSet,
    history: Vec<CellSet>,
    initialized: bool,
}

pub open spec fn set_views(v: Seq<CellSet>) -> Seq<Set<(int, int)>> {
    v.map_values(|s: CellSet| s@)
}

impl TickState {
    pub closed spec fn view(&self) -> TickModel {
        TickModel {
            previous: match self.previous {
                Some(p) => Some(p@),
                None => None,
            },
            current: self.current@,
            next: self.next@,
            permanent: self.permanent@,
            never: self.never@,
            history: set_views(self.history@),
            initialized: self.initialized,
        }
    }

    /// The state is consistent and every generation it holds, and the
    /// permanent cells, lie two cells inside the range of `i32`, so that
    /// the generation after each of them can be computed.
    pub open spec fn wf(&self) -> bool {
        &&& self@.consistent()
        &&& fits_margin(self@.current, 2)
        &&& fits_margin(self@.permanent, 2)
        &&& forall|i: int| 0 <= i < self@.history.len() ==> fits_margin(#[trigger] self@.history[i], 2)
    }

    /// An empty, uninitialized state.
    pub fn new() -> (s: TickState)
        ensures
            s.wf(),
            !s@.initialized,
            s@.previous == None::<Set<(int, int)>>,
            s@.current == Set::<(int, int)>::empty(),
            s@.next == Set::<(int, int)>::empty(),
            s@.permanent == Set::<(int, int)>::empty(),
            s@.never == Set::<(int, int)>::empty(),
            s@.history.len() == 0,
    {
        let s = TickState {
            previous: None,
            current: CellSet::new(),
            next: CellSet::new(),
            permanent: CellSet::new(),
            never: CellSet::new(),
            history: Vec::new(),
            initialized: false,
        };
        assert(s@.history =~= Seq::<Set<(int, int)>>::empty());
        s
    }

    pub fn is_initialized(&self) -> (b: bool)
        ensures
            b == self@.initialized,
    {
        self.initialized
    }

    pub fn current(&self) -> (s: &CellSet)
        ensures
            s@ == self@.current,
    {
        &self.current
    }

    pub fn next(&self) -> (s: &CellSet)
        ensures
            s@ == self@.next,
    {
        &self.next
    }

    pub fn permanent(&self) -> (s: &CellSet)
        ensures
            s@ == self@.permanent,
    {
        &self.permanent
    }

    pub fn never(&self) -> (s: &CellSet)
        ensures
            s@ == self@.never,
    {
        &self.never
    }

    pub fn history_len(&self) -> (n: usize)
        ensures
            n == self@.history.len(),
    {
        self.history.len()
    }

    /// Whether `pos` is alive: permanent or in the current generation.
    pub fn is_alive(&self, pos: GridPos) -> (b: bool)
        ensures
            b == crate::life::alive(self@.current, self@.permanent, pos.coords()),
    {
        crate::life::is_alive(&self.current, &self.permanent, pos)
    }

    /// The number of alive cells around `pos`.
    pub fn count_neighbors(&self, pos: GridPos) -> (n: u8)
        requires
            i32::MIN < pos.x < i32::MAX,
            i32::MIN < pos.y < i32::MAX,
        ensures
            n as int == crate::life::neighbor_count(self@.current, self@.permanent, pos.coords()),
    {
        crate::life::count_neighbors(&self.current, &self.permanent, pos)
    }

    /// The generation after the current one.
    pub fn compute_next(&self) -> (next: CellSet)
        requires
            self.wf(),
        ensures
            next@ == life_step(self@.current, self@.permanent, self@.never),
    {
        next_generation(&self.current, &self.permanent, &self.never)
    }

    /// Whether the next generation lies two cells inside the range of `i32`,
    /// which stepping forwards needs.
    pub fn next_fits(&self) -> (b: bool)
        ensures
            b == fits_margin(self@.next, 2),
    {
        let v = self.next.positions();
        let mut i: usize = 0;
        while i < v.len()
            invariant
                i <= v@.len(),
                forall|j: int| 0 <= j < v@.len() ==> self@.next.contains((#[trigger] v@[j]).coords()),
                forall|c: (int, int)|
                    self@.next.contains(c) ==> exists|j: int|
                        0 <= j < v@.len() && (#[trigger] v@[j]).coords() == c,
                forall|j: int|
                    0 <= j < i ==> {
                        let c = (#[trigger] v@[j]).coords();
                        i32::MIN + 2 <= c.0 <= i32::MAX - 2 && i32::MIN + 2 <= c.1 <= i32::MAX - 2
                    },
            decreases v@.len() - i,
        {
            let p = v[i];
            if p.x < i32::MIN + 2 || p.x > i32::MAX - 2 || p.y < i32::MIN + 2 || p.y > i32::MAX - 2 {
                assert(self@.next.contains(v@[i as int].coords()));
                return false;
            }
            i += 1;
        }
        assert forall|c: (int, int)| #![trigger self@.next.contains(c)] self@.next.contains(c) implies
            i32::MIN + 2 <= c.0 <= i32::MAX - 2 && i32::MIN + 2 <= c.1 <= i32::MAX - 2 by {
            let j = choose|j: int| 0 <= j < v@.len() && (#[trigger] v@[j]).coords() == c;
        }
        true
    }

    /// The cells that have something to show: alive now or next, or alive
    /// in the previous generation and dead now.
    pub fn relevant_positions(&self) -> (s: CellSet)
        ensures
            s@ == self@.current.union(self@.next).union(
                match self@.previous {
                    Some(p) => p.difference(self@.current),
                    None => Set::<(int, int)>::empty(),
                },
            ),
    {
        let positions = self.current.union(&self.next);
        match &self.previous {
            Some(prev) => {
                let gone = prev.difference(&self.current);
                positions.union(&gone)
            },
            None => {
                assert(positions@.union(Set::<(int, int)>::empty()) =~= positions@);
                positions
            },
        }
    }

    /// How the cell at `pos` is drawn.
    pub fn cell_state(&self, pos: GridPos) -> (a: Option<CellAnim>)
        ensures
            a == cell_phase(self@.previous, self@.current, self@.next, pos.coords()),
    {
        let in_current = self.current.contains(pos);
        let in_next = self.next.contains(pos);
        let in_previous = match &self.previous {
            Some(p) => p.contains(pos),
            None => false,
        };

        if in_current && in_next {
            Some(CellAnim::Stable)
        } else if in_current && !in_next {
            Some(CellAnim::Scared)
        } else if !in_current && in_next {
            Some(CellAnim::Pending)
        } else if in_previous && !in_current {
            Some(CellAnim::Slain)
        } else {
            None
        }
    }

    /// Starts the simulation of a freshly loaded level: any earlier state is
    /// dropped, the given cells become the permanent, "never" and current
    /// cells, and the next generation is computed.
    pub fn load_level(
        &mut self,
        permanent: &Vec<GridPos>,
        never: &Vec<GridPos>,
        dynamic: &Vec<GridPos>,
    )
        requires
            old(self).wf(),
            fits_margin(positions_set(permanent@), 2),
            fits_margin(positions_set(dynamic@), 2),
        ensures
            final(self).wf(),
            final(self)@.initialized,
            final(self)@.previous == None::<Set<(int, int)>>,
            final(self)@.current == positions_set(dynamic@),
            final(self)@.permanent == positions_set(permanent@),
            final(self)@.never == positions_set(never@),
            final(self)@.next == life_step(
                positions_set(dynamic@),
                positions_set(permanent@),
                positions_set(never@),
            ),
            final(self)@.history.len() == 0,
    {
        self.previous = None;
        self.history = Vec::new();
        self.permanent = CellSet::from_positions(permanent);
        self.never = CellSet::from_positions(never);
        self.current = CellSet::from_positions(dynamic);
        self.initialized = true;
        self.next = self.compute_next_unchecked();
        assert(self@.history =~= Seq::<Set<(int, int)>>::empty());
    }

    fn compute_next_unchecked(&self) -> (next: CellSet)
        requires
            fits_margin(self@.current, 2),
            fits_margin(self@.permanent, 2),
        ensures
            next@ == life_step(self@.current, self@.permanent, self@.never),
    {
        next_generation(&self.current, &self.permanent, &self.never)
    }

    /// Steps the simulation on a key press: forwards when `forward`, else
    /// backwards when `backward` and there is history to step back to.
    /// Nothing changes before the level is loaded. Returns the cells that are
    /// alive now and were not before the step.
    pub fn process_tick_input(&mut self, forward: bool, backward: bool) -> (appeared: CellSet)
        requires
            old(self).wf(),
            old(self)@.initialized && forward ==> fits_margin(old(self)@.next, 2),
        ensures
            final(self).wf(),
            !old(self)@.initialized || (!forward && !backward) ==> final(self)@ == old(self)@
                && appeared@ == Set::<(int, int)>::empty(),
            old(self)@.initialized && forward ==> final(self)@ == old(self)@.forward(),
            old(self)@.initialized && !forward && backward && old(self)@.history.len() == 0
                ==> final(self)@ == old(self)@ && appeared@ == Set::<(int, int)>::empty(),
            old(self)@.initialized && !forward && backward && old(self)@.history.len() > 0
                ==> final(self)@ == old(self)@.backward(),
            old(self)@.initialized && (forward || backward) ==> appeared@ == final(self)@.current.difference(
                old(self)@.current,
            ),
    {
        if !self.initialized || (!forward && !backward) {
            return CellSet::new();
        }
        let ghost before = self@;
        let old_current = self.current.snapshot();

        if forward {
            let ghost hist0 = self.history@;
            if self.history.len() >= HISTORY_CAP {
                self.history.remove(0);
                assert(set_views(self.history@) =~= before.history.drop_first());
            }
            let ghost hist1 = self.history@;
            self.history.push(old_current.snapshot());
            assert(set_views(self.history@) =~= set_views(hist1).push(before.current));
            self.previous = Some(old_current.snapshot());
            let mut taken = CellSet::new();
            std::mem::swap(&mut taken, &mut self.next);
            self.current = taken;
            self.next = self.compute_next_unchecked();
            proof {
                assert forall|i: int| 0 <= i < self@.history.len() implies fits_margin(
                    #[trigger] self@.history[i],
                    2,
                ) by {
                    if i < self@.history.len() - 1 {
                        if hist0.len() >= HISTORY_CAP {
                            assert(self@.history[i] == before.history[i + 1]);
                        } else {
                            assert(self@.history[i] == before.history[i]);
                        }
                    }
                }
                assert(self@ =~= before.forward());
            }
        } else {
            if self.history.len() == 0 {
                return CellSet::new();
            }
            let restored = self.history.pop().unwrap();
            assert(set_views(self.history@) =~= before.history.drop_last());
            self.previous = match self.history.last() {
                Some(last) => Some(last.snapshot()),
                None => None,
            };
            self.current = restored;
            proof {
                assert(before.history[before.history.len() - 1] == restored@);
                assert forall|i: int| 0 <= i < self@.history.len() implies fits_margin(
                    #[trigger] self@.history[i],
                    2,
                ) by {
                    assert(self@.history[i] == before.history[i]);
                }
            }
            self.next = self.compute_next_unchecked();
            assert(self@ =~= before.backward());
        }
        self.current.difference(&old_current)
    }
}

/// Stepping forwards and then backwards gives back the generation shown,
/// the one before and the one after; the history too, unless it was full
/// and its oldest entry was dropped.
pub proof fn law_forward_then_backward(m: TickModel)
    requires
        m.consistent(),
        m.initialized,
    ensures
        m.forward().backward().current == m.current,
        m.forward().backward().next == m.next,
        m.forward().backward().previous == m.previous,
        m.history.len() < HISTORY_CAP ==> m.forward().backward() == m,
        m.history.len() == HISTORY_CAP ==> m.forward().backward().history == m.history.drop_first(),
{
    let f = m.forward();
    let b = f.backward();
    assert(f.history.last() == m.current);
    if m.history.len() < HISTORY_CAP {
        assert(f.history.drop_last() =~= m.history);
        assert(b =~= m);
    } else {
        assert(f.history.drop_last() =~= m.history.drop_first());
        assert(b.history =~= m.history.drop_first());
        if m.history.len() > 1 {
            assert(m.history.drop_first().last() == m.history.last());
        }
    }
}

/// One step forwards advances exactly one generation: the generation that
/// followed the one shown is shown next, the one shown becomes the previous
/// generation and the latest entry of the history, the generation after the
/// new one is computed, and the fixed cells stay.
pub proof fn law_forward_advances_one_generation(m: TickModel)
    requires
        m.consistent(),
        m.initialized,
    ensures
        m.forward().current == m.next,
        m.forward().current == life_step(m.current, m.permanent, m.never),
        m.forward().next == life_step(m.next, m.permanent, m.never),
        m.forward().previous == Some(m.current),
        m.forward().history.last() == m.current,
        m.forward().history.len() == if m.history.len() < HISTORY_CAP {
            m.history.len() + 1
        } else {
            m.history.len()
        },
        m.forward().permanent == m.permanent,
        m.forward().never == m.never,
        m.forward().initialized,
{
}

/// One step backwards shows the latest generation of the history again,
/// with the generation that follows it as the next one, and drops that
/// entry from the history.
pub proof fn law_backward_restores_latest(m: TickModel)
    requires
        m.consistent(),
        m.initialized,
        m.history.len() > 0,
    ensures
        m.backward().current == m.history.last(),
        m.backward().current == m.previous->0,
        m.backward().next == life_step(m.history.last(), m.permanent, m.never),
        m.backward().history == m.history.drop_last(),
        m.backward().permanent == m.permanent,
        m.backward().never == m.never,
{
}

/// How a cell is drawn: stable exactly when it is alive now and next,
/// about to die exactly when it is alive now only, about to be born exactly
/// when it is alive next only, and slain exactly when it was alive in the
/// previous generation and is alive neither now nor next. The previous
/// generation matters only for cells alive neither now nor next.
pub proof fn law_cell_phase_meaning(
    previous: Option<Set<(int, int)>>,
    current: Set<(int, int)>,
    next: Set<(int, int)>,
    c: (int, int),
)
    ensures
        cell_phase(previous, current, next, c) == Some(CellAnim::Stable) <==> current.contains(c)
            && next.contains(c),
        cell_phase(previous, current, next, c) == Some(CellAnim::Scared) <==> current.contains(c)
            && !next.contains(c),
        cell_phase(previous, current, next, c) == Some(CellAnim::Pending) <==> !current.contains(c)
            && next.contains(c),
        cell_phase(previous, current, next, c) == Some(CellAnim::Slain) <==> !current.contains(c)
            && !next.contains(c) && previous is Some && previous->0.contains(c),
        current.contains(c) || next.contains(c) ==> cell_phase(previous, current, next, c)
            == cell_phase(None, current, next, c),
{
}

/// Every step keeps the state consistent.
pub proof fn law_steps_keep_consistency(m: TickModel)
    requires
        m.consistent(),
        m.initialized,
    ensures
        m.forward().consistent(),
        m.history.len() > 0 ==> m.backward().consistent(),
{
    let f = m.forward();
    assert(f.history.last() == m.current);
}

/// The cells that have something to show are exactly the cells that get a
/// drawing state.
pub proof fn law_relevant_cells_have_a_state(
    previous: Option<Set<(int, int)>>,
    current: Set<(int, int)>,
    next: Set<(int, int)>,
    c: (int, int),
)
    ensures
        current.union(next).union(
            match previous {
                Some(p) => p.difference(current),
                None => Set::<(int, int)>::empty(),
            },
        ).contains(c) <==> cell_phase(previous, current, next, c) is Some,
{
}

} // verus!
