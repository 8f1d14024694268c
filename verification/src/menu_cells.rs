//! The Game of Life that runs behind the menu screens.
use vstd::prelude::*;

use crate::grid::{fits_margin, CellSet, GridPos};
use crate::life::{life_step, next_generation};

verus! {

/// What one tick of the menu simulation changes.
pub struct MenuStep {
    /// Cells that die in this tick.
    pub to_remove: CellSet,
    /// Cells that are born in this tick.
    pub to_spawn: CellSet,
}

/// The cells of the menu simulation.
pub struct MenuCellState {
    permanent: CellSet,
    current: CellSet,
    initialized: bool,
}

impl MenuCellState {
    pub closed spec fn permanent_cells(&self) -> Set<(int, int)> {
        self.permanent@
    }

    pub closed spec fn current_cells(&self) -> Set<(int, int)> {
        self.current@
    }

    pub closed spec fn is_initialized(&self) -> bool {
        self.initialized
    }

    pub fn new() -> (s: MenuCellState)
        ensures
            s.permanent_cells() == Set::<(int, int)>::empty(),
            s.current_cells() == Set::<(int, int)>::empty(),
            !s.is_initialized(),
    {
        MenuCellState { permanent: CellSet::new(), current: CellSet::new(), initialized: false }
    }

    pub fn initialized(&self) -> (b: bool)
        ensures
            b == self.is_initialized(),
    {
        self.initialized
    }

    pub fn current(&self) -> (s: &CellSet)
        ensures
            s@ == self.current_cells(),
    {
        &self.current
    }

    pub fn permanent(&self) -> (s: &CellSet)
        ensures
            s@ == self.permanent_cells(),
    {
        &self.permanent
    }

    /// Whether `pos` is alive: permanent or currently alive.
    pub fn is_alive(&self, pos: GridPos) -> (b: bool)
        ensures
            b == crate::life::alive(self.current_cells(), self.permanent_cells(), pos.coords()),
    {
        crate::life::is_alive(&self.current, &self.permanent, pos)
    }

    /// The number of alive cells around `pos`.
    pub fn count_neighbors(&self, pos: GridPos) -> (n: u8)
        requires
            i32::MIN < pos.x < i32::MAX,
            i32::MIN < pos.y < i32::MAX,
        ensures
            n as int == crate::life::neighbor_count(
                self.current_cells(),
                self.permanent_cells(),
                pos.coords(),
            ),
    {
        crate::life::count_neighbors(&self.current, &self.permanent, pos)
    }

    /// Whether the current and permanent cells lie two cells inside the
    /// range of `i32`, which computing the next generation needs.
    pub fn fits(&self) -> (b: bool)
        ensures
            b == (fits_margin(self.current_cells(), 2) && fits_margin(self.permanent_cells(), 2)),
    {
        let a = crate::grid::positions_fit(&self.current.positions());
        let b = crate::grid::positions_fit(&self.permanent.positions());
        a && b
    }

    /// The next generation; the menu has no "never" cells.
    pub fn compute_next(&self) -> (next: CellSet)
        requires
            fits_margin(self.current_cells(), 2),
            fits_margin(self.permanent_cells(), 2),
        ensures
            next@ == life_step(
                self.current_cells(),
                self.permanent_cells(),
                Set::<(int, int)>::empty(),
            ),
    {
        let never = CellSet::new();
        next_generation(&self.current, &self.permanent, &never)
    }

    /// Records a permanent cell of the menu level.
    pub fn add_permanent(&mut self, pos: GridPos)
        ensures
            final(self).permanent_cells() == old(self).permanent_cells().insert(pos.coords()),
            final(self).current_cells() == old(self).current_cells(),
            final(self).is_initialized() == old(self).is_initialized(),
    {
        self.permanent.insert(pos);
    }

    /// Records a dynamic cell of the menu level, alive from the start.
    pub fn add_dynamic(&mut self, pos: GridPos)
        ensures
            final(self).current_cells() == old(self).current_cells().insert(pos.coords()),
            final(self).permanent_cells() == old(self).permanent_cells(),
            final(self).is_initialized() == old(self).is_initialized(),
    {
        self.current.insert(pos);
    }

    /// Starts the simulation once the level's permanent cells are known;
    /// returns whether it started now.
    pub fn try_initialize(&mut self) -> (started: bool)
        ensures
            started == (!old(self).is_initialized() && old(self).permanent_cells() != Set::<
                (int, int),
            >::empty()),
            final(self).is_initialized() == (old(self).is_initialized() || started),
            final(self).permanent_cells() == old(self).permanent_cells(),
            final(self).current_cells() == old(self).current_cells(),
    {
        if !self.initialized && !self.permanent.is_empty() {
            self.initialized = true;
            true
        } else {
            false
        }
    }

    /// One tick of the menu simulation: the cells that die and the cells
    /// that are born. The new generation replaces the current one only when
    /// `commit` holds (when the born cells can be shown). Nothing happens
    /// before the simulation has started.
    pub fn tick(&mut self, commit: bool) -> (step: MenuStep)
        requires
            old(self).is_initialized() ==> fits_margin(old(self).current_cells(), 2) && fits_margin(
                old(self).permanent_cells(),
                2,
            ),
        ensures
            final(self).permanent_cells() == old(self).permanent_cells(),
            final(self).is_initialized() == old(self).is_initialized(),
            !old(self).is_initialized() ==> final(self).current_cells() == old(self).current_cells()
                && step.to_remove@ == Set::<(int, int)>::empty() && step.to_spawn@ == Set::<
                (int, int),
            >::empty(),
            old(self).is_initialized() ==> {
                let next = life_step(
                    old(self).current_cells(),
                    old(self).permanent_cells(),
                    Set::<(int, int)>::empty(),
                );
                &&& step.to_remove@ == old(self).current_cells().difference(next)
                &&& step.to_spawn@ == next.difference(old(self).current_cells())
                &&& final(self).current_cells() == if commit {
                    next
                } else {
                    old(self).current_cells()
                }
            },
    {
        if !self.initialized {
            return MenuStep { to_remove: CellSet::new(), to_spawn: CellSet::new() };
        }
        let next = self.compute_next();
        let to_remove = self.current.difference(&next);
        let to_spawn = next.difference(&self.current);
        if commit {
            self.current = next;
        }
        MenuStep { to_remove, to_spawn }
    }

    /// Forgets the menu level when the menu is left.
    pub fn clear(&mut self)
        ensures
            final(self).permanent_cells() == Set::<(int, int)>::empty(),
            final(self).current_cells() == Set::<(int, int)>::empty(),
            !final(self).is_initialized(),
    {
        self.permanent.clear();
        self.current.clear();
        self.initialized = false;
    }
}

} // verus!
