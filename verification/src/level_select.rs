//! The level select screen: levels shown as squares in rows of
//! `GRID_COLS`, moved between with the direction keys.
use vstd::prelude::*;

use crate::anim::Anim;
use crate::level_progress::{state_of, unlocked, LevelProgress, LevelState};
use crate::navigation::MenuScreen;
use crate::transition::{TransitionState, TransitionTarget};

verus! {

/// Squares per row.
pub const GRID_COLS: usize = 4;

/// At most this many squares are shown.
pub const MAX_SQUARES: usize = 20;

/// How a level's square is drawn.
#[derive(Clone, Copy, Debug, PartialEq, Eq, Structural)]
pub enum LevelSquareAnim {
    Locked,
    Unlocked,
    UnlockedSelected,
    Done,
    DoneSelected,
}

impl Anim for LevelSquareAnim {
    open spec fn spec_index(self) -> usize {
        match self {
            LevelSquareAnim::Locked => 0,
            LevelSquareAnim::Unlocked => 1,
            LevelSquareAnim::UnlockedSelected => 2,
            LevelSquareAnim::Done => 3,
            LevelSquareAnim::DoneSelected => 4,
        }
    }

    open spec fn spec_from_index(index: usize) -> LevelSquareAnim {
        if index == 1 {
            LevelSquareAnim::Unlocked
        } else if index == 2 {
            LevelSquareAnim::UnlockedSelected
        } else if index == 3 {
            LevelSquareAnim::Done
        } else if index == 4 {
            LevelSquareAnim::DoneSelected
        } else {
            LevelSquareAnim::Locked
        }
    }

    proof fn lemma_index_roundtrip(a: LevelSquareAnim) {
    }

    fn index(&self) -> (i: usize) {
        match self {
            LevelSquareAnim::Locked => 0,
            LevelSquareAnim::Unlocked => 1,
            LevelSquareAnim::UnlockedSelected => 2,
            LevelSquareAnim::Done => 3,
            LevelSquareAnim::DoneSelected => 4,
        }
    }

    fn from_index(index: usize) -> (a: LevelSquareAnim) {
        match index {
            1 => LevelSquareAnim::Unlocked,
            2 => LevelSquareAnim::UnlockedSelected,
            3 => LevelSquareAnim::Done,
            4 => LevelSquareAnim::DoneSelected,
            _ => LevelSquareAnim::Locked,
        }
    }
}

/// Column and row of a level's square.
pub fn level_to_grid(level: usize) -> (cr: (usize, usize))
    ensures
        cr.0 == level % GRID_COLS,
        cr.1 == level / GRID_COLS,
{
    (level % GRID_COLS, level / GRID_COLS)
}

/// The level whose square is at a column and row.
pub fn grid_to_level(col: usize, row: usize) -> (level: usize)
    requires
        row * GRID_COLS + col <= usize::MAX,
    ensures
        level == row * GRID_COLS + col,
{
    row * GRID_COLS + col
}

/// A level's square is at the column and row that give the level back.
pub proof fn law_grid_roundtrip(level: nat)
    ensures
        (level / (GRID_COLS as nat)) * (GRID_COLS as nat) + level % (GRID_COLS as nat) == level,
        (level % (GRID_COLS as nat)) < GRID_COLS,
{
}

/// The number of rows of squares for a number of levels.
pub fn grid_rows(total_levels: usize) -> (rows: usize)
    requires
        total_levels + GRID_COLS <= usize::MAX,
    ensures
        rows == (total_levels + GRID_COLS - 1) / GRID_COLS as int,
{
    (total_levels + GRID_COLS - 1) / GRID_COLS
}

/// The number of squares shown for a number of levels.
pub fn square_count(total_levels: usize) -> (n: usize)
    ensures
        n == if total_levels < MAX_SQUARES {
            total_levels
        } else {
            MAX_SQUARES
        },
{
    if total_levels < MAX_SQUARES {
        total_levels
    } else {
        MAX_SQUARES
    }
}

pub open spec fn square_anim(state: LevelState, selected: bool) -> LevelSquareAnim {
    match (state, selected) {
        (LevelState::Locked, _) => LevelSquareAnim::Locked,
        (LevelState::Unlocked, false) => LevelSquareAnim::Unlocked,
        (LevelState::Unlocked, true) => LevelSquareAnim::UnlockedSelected,
        (LevelState::Done, false) => LevelSquareAnim::Done,
        (LevelState::Done, true) => LevelSquareAnim::DoneSelected,
    }
}

/// How the square of `level` is drawn.
pub fn get_anim_for_level(progress: &LevelProgress, level: usize, selected: bool) -> (a:
    LevelSquareAnim)
    ensures
        a == square_anim(state_of(progress.completed@, progress.total_levels, level), selected),
{
    let state = progress.level_state(level);
    match (state, selected) {
        (LevelState::Locked, _) => LevelSquareAnim::Locked,
        (LevelState::Unlocked, false) => LevelSquareAnim::Unlocked,
        (LevelState::Unlocked, true) => LevelSquareAnim::UnlockedSelected,
        (LevelState::Done, false) => LevelSquareAnim::Done,
        (LevelState::Done, true) => LevelSquareAnim::DoneSelected,
    }
}

/// The direction keys pressed this frame.
#[derive(Clone, Copy, Debug, PartialEq, Eq, Structural)]
pub struct DirectionKeys {
    pub up: bool,
    pub down: bool,
    pub left: bool,
    pub right: bool,
}

/// The level the keys point at from `selected`: up, down, left and right
/// in that order of precedence, up and left only where there is a row or
/// column before, right only where there is a column after.
pub open spec fn target_level(selected: usize, keys: DirectionKeys) -> Option<int> {
    let col = selected % GRID_COLS;
    let row = selected / GRID_COLS;
    if keys.up && row > 0 {
        Some((row - 1) * GRID_COLS + col)
    } else if keys.down {
        Some((row + 1) * GRID_COLS + col)
    } else if keys.left && col > 0 {
        Some(row * GRID_COLS + col - 1)
    } else if keys.right && col < GRID_COLS - 1 {
        Some(row * GRID_COLS + col + 1)
    } else {
        None
    }
}

/// The level the keys point at.
pub fn navigation_target(selected: usize, keys: DirectionKeys) -> (t: Option<usize>)
    requires
        selected + GRID_COLS <= usize::MAX,
    ensures
        t == match target_level(selected, keys) {
            Some(l) => Some(l as usize),
            None => None::<usize>,
        },
{
    let (col, row) = level_to_grid(selected);
    if keys.up && row > 0 {
        Some(grid_to_level(col, row - 1))
    } else if keys.down {
        Some(grid_to_level(col, row + 1))
    } else if keys.left && col > 0 {
        Some(grid_to_level(col - 1, row))
    } else if keys.right && col < GRID_COLS - 1 {
        Some(grid_to_level(col + 1, row))
    } else {
        None
    }
}

/// Moves the selection as the keys point, when the level pointed at exists
/// and is open; returns whether the selection moved.
pub fn navigate_level_select(progress: &mut LevelProgress, keys: DirectionKeys) -> (moved: bool)
    requires
        old(progress).selected + GRID_COLS <= usize::MAX,
    ensures
        moved == match target_level(old(progress).selected, keys) {
            Some(l) => l < old(progress).total_levels && unlocked(
                old(progress).completed@,
                old(progress).total_levels,
                l as usize,
            ),
            None => false,
        },
        moved ==> final(progress).selected == target_level(old(progress).selected, keys)->0,
        !moved ==> final(progress).selected == old(progress).selected,
        final(progress).completed == old(progress).completed,
        final(progress).total_levels == old(progress).total_levels,
        final(progress).current_playing == old(progress).current_playing,
        final(progress).level_names == old(progress).level_names,
{
    match navigation_target(progress.selected, keys) {
        Some(target) => {
            if target < progress.total_levels && progress.is_unlocked(target) {
                progress.selected = target;
                true
            } else {
                false
            }
        },
        None => false,
    }
}

/// Each direction key points one square its way on the grid of
/// `GRID_COLS` columns: Up one row back (none from the first row), Down one
/// row on, Left one column back (none from the first column) and Right one
/// column on (none from the last column), the first of them in that order
/// that is pressed taking precedence; with no key pressed there is none.
pub proof fn law_keys_move_one_square(selected: usize, keys: DirectionKeys)
    ensures
        keys.up && selected >= GRID_COLS ==> target_level(selected, keys) == Some(
            selected - GRID_COLS,
        ),
        !(keys.up && selected >= GRID_COLS) && keys.down ==> target_level(selected, keys) == Some(
            selected + GRID_COLS,
        ),
        !(keys.up && selected >= GRID_COLS) && !keys.down && keys.left && selected % GRID_COLS
            != 0 ==> target_level(selected, keys) == Some(selected - 1),
        !(keys.up && selected >= GRID_COLS) && !keys.down && !(keys.left && selected % GRID_COLS
            != 0) && keys.right && selected % GRID_COLS != GRID_COLS - 1 ==> target_level(
            selected,
            keys,
        ) == Some(selected + 1),
        !keys.down && !(keys.up && selected >= GRID_COLS) && !(keys.left && selected % GRID_COLS
            != 0) && !(keys.right && selected % GRID_COLS != GRID_COLS - 1) ==> target_level(
            selected,
            keys,
        ) is None,
        target_level(selected, keys) is Some && (keys.left || keys.right) && !keys.up
            && !keys.down ==> target_level(selected, keys)->0 / (GRID_COLS as int) == selected
            / GRID_COLS,
        (keys.up && selected >= GRID_COLS) || keys.down ==> target_level(
            selected,
            keys,
        )->0 % (GRID_COLS as int) == selected % GRID_COLS,
{
}

/// The selection only ever moves onto open levels.
pub proof fn law_selection_moves_to_open_levels(
    completed: Set<usize>,
    total_levels: usize,
    selected: usize,
    keys: DirectionKeys,
)
    requires
        target_level(selected, keys) is Some,
        0 <= target_level(selected, keys)->0 < total_levels,
        unlocked(completed, total_levels, target_level(selected, keys)->0 as usize),
    ensures
        state_of(completed, total_levels, target_level(selected, keys)->0 as usize)
            != LevelState::Locked,
{
}

/// Enter on the level select screen starts the selected level when it is
/// open, no transition is under way and the cooldown is over; returns
/// whether it started.
pub fn start_level(
    screen: MenuScreen,
    progress: &LevelProgress,
    transition: &mut TransitionState,
    enter_pressed: bool,
    cooling_down: bool,
) -> (started: bool)
    requires
        old(transition).wf(),
    ensures
        final(transition).wf(),
        started == (screen == MenuScreen::LevelSelect && !old(transition).spec_is_active()
            && !cooling_down && enter_pressed && unlocked(
            progress.completed@,
            progress.total_levels,
            progress.selected,
        )),
        started ==> final(transition).target() == Some(TransitionTarget::StartLevel(progress.selected))
            && final(transition).phase() == (crate::transition::TransitionPhase::FadingOut { step: 0 }),
        !started ==> *final(transition) == *old(transition),
{
    if screen != MenuScreen::LevelSelect {
        return false;
    }
    if transition.is_active() || cooling_down {
        return false;
    }
    if enter_pressed {
        let level = progress.selected;
        if progress.is_unlocked(level) {
            transition.request(TransitionTarget::StartLevel(level));
            return true;
        }
    }
    false
}

/// The level select screen's squares: whether they are shown, and whether
/// the level list was read again since the screen was entered.
#[derive(Clone, Copy, Debug, PartialEq, Eq, Structural)]
pub struct LevelSelectFlags {
    pub spawned: bool,
    pub refreshed: bool,
}

impl LevelSelectFlags {
    pub fn new() -> (f: LevelSelectFlags)
        ensures
            !f.spawned,
            !f.refreshed,
    {
        LevelSelectFlags { spawned: false, refreshed: false }
    }

    /// On entering the level select screen the level list is read again
    /// (the number of levels is forgotten until it is); returns whether to
    /// read it now.
    pub fn refresh(&mut self, screen: MenuScreen, progress: &mut LevelProgress) -> (reload: bool)
        ensures
            reload == (screen == MenuScreen::LevelSelect && !old(self).refreshed),
            final(self).refreshed == (screen == MenuScreen::LevelSelect),
            final(self).spawned == old(self).spawned,
            final(progress).total_levels == if reload {
                0
            } else {
                old(progress).total_levels
            },
            final(progress).completed == old(progress).completed,
            final(progress).selected == old(progress).selected,
            final(progress).current_playing == old(progress).current_playing,
            final(progress).level_names == old(progress).level_names,
    {
        if screen != MenuScreen::LevelSelect {
            self.refreshed = false;
            return false;
        }
        if self.refreshed {
            return false;
        }
        self.refreshed = true;
        progress.total_levels = 0;
        true
    }

    /// Whether to show the squares now: on the level select screen, once
    /// the number of levels is known, when they are not shown yet. Marks
    /// them shown.
    pub fn spawn(&mut self, screen: MenuScreen, total_levels: usize) -> (show: bool)
        ensures
            show == (screen == MenuScreen::LevelSelect && !old(self).spawned && total_levels > 0),
            final(self).spawned == (old(self).spawned || show),
            final(self).refreshed == old(self).refreshed,
    {
        if screen != MenuScreen::LevelSelect || self.spawned || total_levels == 0 {
            return false;
        }
        self.spawned = true;
        true
    }

    /// Whether to remove the squares now: away from the level select
    /// screen, when they are shown. Marks them removed.
    pub fn despawn(&mut self, screen: MenuScreen) -> (remove: bool)
        ensures
            remove == (screen != MenuScreen::LevelSelect && old(self).spawned),
            final(self).spawned == (old(self).spawned && !remove),
            final(self).refreshed == old(self).refreshed,
    {
        if screen == MenuScreen::LevelSelect {
            return false;
        }
        if !self.spawned {
            return false;
        }
        self.spawned = false;
        true
    }
}

} // verus!
