//! Grid cells and finite sets of them.
use vstd::prelude::*;

verus! {

/// A cell of the integer grid on which levels are laid out.
#[derive(Clone, Copy, Debug, PartialEq, Eq, Hash, Structural)]
pub struct GridPos {
    pub x: i32,
    pub y: i32,
}

impl GridPos {
    /// The pair of mathematical integers that this cell stands for.
    pub open spec fn coords(self) -> (int, int) {
        (self.x as int, self.y as int)
    }

    pub fn new(x: i32, y: i32) -> (p: GridPos)
        ensures
            p.x == x,
            p.y == y,
    {
        GridPos { x, y }
    }
}

/// Every cell of `s` lies at least `margin` cells inside the range of `i32`
/// on both axes, so that offsets of up to `margin` can be computed.
pub open spec fn fits_margin(s: Set<(int, int)>, margin: int) -> bool {
    forall|c: (int, int)|
        #![trigger s.contains(c)]
        s.contains(c) ==> i32::MIN + margin <= c.0 <= i32::MAX - margin && i32::MIN + margin
            <= c.1 <= i32::MAX - margin
}

/// The set of the cells of `v`.
pub open spec fn positions_set(v: Seq<GridPos>) -> Set<(int, int)> {
    Set::new(|c: (int, int)| exists|i: int| 0 <= i < v.len() && (#[trigger] v[i]).coords() == c)
}

/// Whether every cell of `v` lies `2` cells inside the range of `i32`.
pub fn positions_fit(v: &Vec<GridPos>) -> (b: bool)
    ensures
        b == fits_margin(positions_set(v@), 2),
{
    let mut i: usize = 0;
    while i < v.len()
        invariant
            i <= v@.len(),
            forall|j: int|
                0 <= j < i ==> {
                    let c = (#[trigger] v@[j]).coords();
                    i32::MIN + 2 <= c.0 <= i32::MAX - 2 && i32::MIN + 2 <= c.1 <= i32::MAX - 2
                },
        decreases v@.len() - i,
    {
        let p = v[i];
        if p.x < i32::MIN + 2 || p.x > i32::MAX - 2 || p.y < i32::MIN + 2 || p.y > i32::MAX - 2 {
            assert(positions_set(v@).contains(v@[i as int].coords()));
            return false;
        }
        i += 1;
    }
    assert forall|c: (int, int)| #![trigger positions_set(v@).contains(c)]
        positions_set(v@).contains(c) implies i32::MIN + 2 <= c.0 <= i32::MAX - 2 && i32::MIN + 2
            <= c.1 <= i32::MAX - 2 by {
        let j = choose|j: int| 0 <= j < v@.len() && (#[trigger] v@[j]).coords() == c;
    }
    true
}

/// A finite set of grid cells.
pub struct CellSet {
    cells: Vec<GridPos>,
}

impl CellSet {
    #[verifier::type_invariant]
    spec fn distinct(&self) -> bool {
        forall|i: int, j: int|
            #![trigger self.cells@[i], self.cells@[j]]
            0 <= i < j < self.cells@.len() ==> self.cells@[i] != self.cells@[j]
    }

    spec fn has(&self, c: (int, int)) -> bool {
        exists|i: int| 0 <= i < self.cells@.len() && (#[trigger] self.cells@[i]).coords() == c
    }

    /// The cells of the set.
    pub closed spec fn view(&self) -> Set<(int, int)> {
        Set::new(|c: (int, int)| self.has(c))
    }

    proof fn lemma_view_finite(&self)
        requires
            self.distinct(),
        ensures
            self.view().finite(),
            self.view().len() == self.cells@.len(),
    {
        let f = |p: GridPos| p.coords();
        let s = self.cells@.map_values(f);
        assert forall|i: int, j: int| 0 <= i < j < s.len() implies s[i] != s[j] by {
            assert(self.cells@[i] != self.cells@[j]);
        }
        assert(s.no_duplicates());
        s.unique_seq_to_set();
        assert(self.view() =~= s.to_set()) by {
            assert forall|c: (int, int)| self.view().contains(c) implies s.to_set().contains(c) by {
                let i = choose|i: int|
                    0 <= i < self.cells@.len() && (#[trigger] self.cells@[i]).coords() == c;
                assert(s[i] == c);
            }
            assert forall|c: (int, int)| s.to_set().contains(c) implies self.view().contains(c) by {
                let i = choose|i: int| 0 <= i < s.len() && s[i] == c;
                assert(self.cells@[i].coords() == c);
            }
        }
    }

    pub fn new() -> (s: CellSet)
        ensures
            s.view() == Set::<(int, int)>::empty(),
    {
        let s = CellSet { cells: Vec::new() };
        assert(s.view() =~= Set::<(int, int)>::empty());
        s
    }

    pub fn contains(&self, p: GridPos) -> (b: bool)
        ensures
            b == self.view().contains(p.coords()),
    {
        let mut i: usize = 0;
        while i < self.cells.len()
            invariant
                i <= self.cells@.len(),
                forall|j: int| 0 <= j < i ==> (#[trigger] self.cells@[j]).coords() != p.coords(),
            decreases self.cells@.len() - i,
        {
            if self.cells[i] == p {
                assert(self.cells@[i as int].coords() == p.coords());
                return true;
            }
            i += 1;
        }
        false
    }

    pub fn insert(&mut self, p: GridPos)
        ensures
            final(self).view() == old(self).view().insert(p.coords()),
    {
        if !self.contains(p) {
            proof {
                use_type_invariant(&*self);
                assert forall|i: int| 0 <= i < self.cells@.len() implies self.cells@[i] != p by {
                    if self.cells@[i] == p {
                        assert(self.has(p.coords()));
                    }
                }
            }
            let ghost before = self.view();
            let ghost old_cells = self.cells@;
            let mut cells: Vec<GridPos> = Vec::new();
            std::mem::swap(&mut cells, &mut self.cells);
            cells.push(p);
            self.cells = cells;
            assert(self.view() =~= before.insert(p.coords())) by {
                assert(self.cells@[self.cells@.len() - 1].coords() == p.coords());
                assert forall|c: (int, int)| before.contains(c) implies self.view().contains(c) by {
                    let i = choose|i: int| 0 <= i < old_cells.len() && (#[trigger] old_cells[i]).coords() == c;
                    assert(self.cells@[i] == old_cells[i]);
                }
            }
        } else {
            assert(self.view() =~= self.view().insert(p.coords()));
        }
    }

    pub fn clear(&mut self)
        ensures
            final(self).view() == Set::<(int, int)>::empty(),
    {
        self.cells = Vec::new();
        assert(self.view() =~= Set::<(int, int)>::empty());
    }

    pub fn is_empty(&self) -> (b: bool)
        ensures
            b == (self.view() == Set::<(int, int)>::empty()),
    {
        if self.cells.len() == 0 {
            assert(self.view() =~= Set::<(int, int)>::empty());
            true
        } else {
            assert(self.view().contains(self.cells@[0].coords()));
            false
        }
    }

    pub fn len(&self) -> (n: usize)
        ensures
            self.view().finite(),
            n == self.view().len(),
    {
        proof {
            use_type_invariant(self);
            self.lemma_view_finite();
        }
        self.cells.len()
    }

    /// The cells of the set, each once, in no particular order.
    pub fn positions(&self) -> (v: Vec<GridPos>)
        ensures
            positions_set(v@) == self.view(),
            forall|i: int| 0 <= i < v@.len() ==> self.view().contains((#[trigger] v@[i]).coords()),
            forall|c: (int, int)|
                self.view().contains(c) ==> exists|i: int|
                    0 <= i < v@.len() && (#[trigger] v@[i]).coords() == c,
            forall|i: int, j: int|
                #![trigger v@[i], v@[j]]
                0 <= i < j < v@.len() ==> v@[i] != v@[j],
    {
        proof {
            use_type_invariant(self);
        }
        let mut v: Vec<GridPos> = Vec::new();
        let mut i: usize = 0;
        while i < self.cells.len()
            invariant
                i <= self.cells@.len(),
                v@ == self.cells@.subrange(0, i as int),
            decreases self.cells@.len() - i,
        {
            v.push(self.cells[i]);
            i += 1;
            assert(v@ =~= self.cells@.subrange(0, i as int));
        }
        assert(v@ =~= self.cells@);
        proof {
            assert forall|i: int| 0 <= i < v@.len() implies self.view().contains((#[trigger] v@[i]).coords()) by {
                assert(self.has(v@[i].coords()));
            }
            assert(positions_set(v@) =~= self.view());
        }
        v
    }

    /// The set of the cells of `v`.
    pub fn from_positions(v: &Vec<GridPos>) -> (s: CellSet)
        ensures
            s.view() == positions_set(v@),
            forall|c: (int, int)|
                s.view().contains(c) <==> exists|i: int|
                    0 <= i < v@.len() && (#[trigger] v@[i]).coords() == c,
    {
        let mut s = CellSet::new();
        let mut i: usize = 0;
        while i < v.len()
            invariant
                i <= v@.len(),
                forall|c: (int, int)|
                    s.view().contains(c) <==> exists|j: int|
                        0 <= j < i && (#[trigger] v@[j]).coords() == c,
            decreases v@.len() - i,
        {
            s.insert(v[i]);
            proof {
                assert forall|c: (int, int)|
                    s.view().contains(c) implies exists|j: int|
                        0 <= j < i + 1 && (#[trigger] v@[j]).coords() == c by {
                    if c == v@[i as int].coords() {
                        assert(v@[i as int].coords() == c);
                    }
                }
            }
            i += 1;
        }
        assert(s.view() =~= positions_set(v@));
        s
    }

    /// A second set with the same cells.
    pub fn snapshot(&self) -> (s: CellSet)
        ensures
            s.view() == self.view(),
    {
        let v = self.positions();
        let s = CellSet::from_positions(&v);
        proof {
            assert forall|c: (int, int)| s.view().contains(c) implies self.view().contains(c) by {
                let i = choose|i: int| 0 <= i < v@.len() && (#[trigger] v@[i]).coords() == c;
            }
        }
        assert(s.view() =~= self.view());
        s
    }

    /// The cells that are in `self` or in `other`.
    pub fn union(&self, other: &CellSet) -> (s: CellSet)
        ensures
            s.view() == self.view().union(other.view()),
    {
        let mut s = self.snapshot();
        let v = other.positions();
        let mut i: usize = 0;
        while i < v.len()
            invariant
                i <= v@.len(),
                forall|c: (int, int)|
                    s.view().contains(c) <==> self.view().contains(c) || exists|j: int|
                        0 <= j < i && (#[trigger] v@[j]).coords() == c,
                forall|j: int| 0 <= j < v@.len() ==> other.view().contains((#[trigger] v@[j]).coords()),
                forall|c: (int, int)|
                    other.view().contains(c) ==> exists|j: int|
                        0 <= j < v@.len() && (#[trigger] v@[j]).coords() == c,
            decreases v@.len() - i,
        {
            s.insert(v[i]);
            proof {
                assert forall|c: (int, int)|
                    s.view().contains(c) && !self.view().contains(c) implies exists|j: int|
                        0 <= j < i + 1 && (#[trigger] v@[j]).coords() == c by {
                    if c == v@[i as int].coords() {
                        assert(v@[i as int].coords() == c);
                    }
                }
            }
            i += 1;
        }
        assert(s.view() =~= self.view().union(other.view()));
        s
    }

    /// The cells of `self` that are not in `other`.
    pub fn difference(&self, other: &CellSet) -> (s: CellSet)
        ensures
            s.view() == self.view().difference(other.view()),
    {
        let mut s = CellSet::new();
        let v = self.positions();
        let mut i: usize = 0;
        while i < v.len()
            invariant
                i <= v@.len(),
                forall|c: (int, int)|
                    s.view().contains(c) <==> !other.view().contains(c) && exists|j: int|
                        0 <= j < i && (#[trigger] v@[j]).coords() == c,
                forall|j: int| 0 <= j < v@.len() ==> self.view().contains((#[trigger] v@[j]).coords()),
                forall|c: (int, int)|
                    self.view().contains(c) ==> exists|j: int|
                        0 <= j < v@.len() && (#[trigger] v@[j]).coords() == c,
            decreases v@.len() - i,
        {
            let p = v[i];
            if !other.contains(p) {
                s.insert(p);
            }
            proof {
                assert forall|c: (int, int)|
                    s.view().contains(c) implies exists|j: int|
                        0 <= j < i + 1 && (#[trigger] v@[j]).coords() == c by {
                    if c == v@[i as int].coords() {
                        assert(v@[i as int].coords() == c);
                    }
                }
                assert forall|c: (int, int)|
                    !other.view().contains(c) && (exists|j: int|
                        0 <= j < i + 1 && (#[trigger] v@[j]).coords() == c) implies s.view().contains(c) by {
                    let j = choose|j: int| 0 <= j < i + 1 && (#[trigger] v@[j]).coords() == c;
                    if j < i {
                        assert(exists|j: int| 0 <= j < i && (#[trigger] v@[j]).coords() == c);
                    }
                }
            }
            i += 1;
        }
        assert(s.view() =~= self.view().difference(other.view()));
        s
    }
}

impl View for CellSet {
    type V = Set<(int, int)>;

    open spec fn view(&self) -> Set<(int, int)> {
        CellSet::view(self)
    }
}

} // verus!
