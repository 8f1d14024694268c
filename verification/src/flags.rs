//! Flags of a level: collecting them all completes the level.
use vstd::prelude::*;

use crate::level_progress::LevelProgress;
use crate::navigation::ControlScheme;
use crate::transition::{TransitionPhase, TransitionState, TransitionTarget};

verus! {

/// Flags collected so far and flags in the level.
#[derive(Clone, Copy, Debug, PartialEq, Eq, Structural)]
pub struct FlagCounter {
    pub collected: usize,
    pub total: usize,
}

impl FlagCounter {
    pub fn new() -> (c: FlagCounter)
        ensures
            c.collected == 0,
            c.total == 0,
    {
        FlagCounter { collected: 0, total: 0 }
    }

    /// Takes the number of flags in the level.
    pub fn set_total(&mut self, total: usize)
        ensures
            final(self).total == total,
            final(self).collected == old(self).collected,
    {
        if self.total != total {
            self.total = total;
        }
    }

    /// A flag is collected; returns whether that completes the set, which
    /// starts the countdown to the end of the level.
    pub fn collect(&mut self) -> (all_collected: bool)
        requires
            old(self).collected < usize::MAX,
        ensures
            final(self).collected == old(self).collected + 1,
            final(self).total == old(self).total,
            all_collected == (final(self).collected == final(self).total),
    {
        self.collected += 1;
        self.collected == self.total
    }

    /// While the level rewinds after a death the collected flags are put
    /// back; returns whether there were any (and the countdown stops).
    pub fn reset_on_death(&mut self, rewinding: bool) -> (reset: bool)
        ensures
            reset == (rewinding && old(self).collected != 0),
            final(self).collected == if reset {
                0
            } else {
                old(self).collected
            },
            final(self).total == old(self).total,
    {
        if !rewinding {
            return false;
        }
        if self.collected == 0 {
            return false;
        }
        self.collected = 0;
        true
    }

    /// Leaving the level forgets its flags.
    pub fn clear(&mut self)
        ensures
            final(self).collected == 0,
            final(self).total == 0,
    {
        self.collected = 0;
        self.total = 0;
    }
}

/// At the end of the countdown after the last flag: the level played is
/// marked completed and selected, and the game goes back to the menu.
pub fn finish_level(progress: &mut LevelProgress, transition: &mut TransitionState)
    requires
        old(transition).wf(),
    ensures
        final(transition).wf(),
        match old(progress).current_playing {
            Some(level) => final(progress).completed@ == old(progress).completed@.insert(level)
                && final(progress).selected == level,
            None => final(progress).completed@ == old(progress).completed@ && final(progress).selected == old(progress).selected,
        },
        final(progress).current_playing == old(progress).current_playing,
        final(progress).total_levels == old(progress).total_levels,
        final(progress).level_names == old(progress).level_names,
        !old(transition).spec_is_active() ==> final(transition).phase() == (
        TransitionPhase::FadingOut { step: 0 }) && final(transition).target() == Some(
            TransitionTarget::ReturnToMenu,
        ),
        old(transition).spec_is_active() ==> *final(transition) == *old(transition),
{
    if let Some(level) = progress.current_playing {
        progress.complete_level(level);
        progress.selected = level;
    }
    transition.request(TransitionTarget::ReturnToMenu);
}

/// The help line shown during play: an override (such as a prompt to read
/// a sign) or the controls of the scheme in use.
pub fn help_text(controls: ControlScheme, override_text: &Option<String>) -> (text: &str)
    ensures
        text@ == match override_text {
            Some(t) => t@,
            None => match controls {
                ControlScheme::Arrow => "ARROWS move, F forward, D back, R restart, ESC menu"@,
                ControlScheme::Wasd => "WASD move, K forward, J back, R restart, ESC menu"@,
            },
        },
{
    match override_text {
        Some(t) => t.as_str(),
        None => match controls {
            ControlScheme::Arrow => "ARROWS move, F forward, D back, R restart, ESC menu",
            ControlScheme::Wasd => "WASD move, K forward, J back, R restart, ESC menu",
        },
    }
}

} // verus!
