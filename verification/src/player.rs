//! How the player's sprite is animated from what the player does.
use vstd::prelude::*;

use crate::anim::Anim;

verus! {

/// The animations of the player.
#[derive(Clone, Copy, Debug, PartialEq, Eq, Structural)]
pub enum PlayerAnim {
    Idle,
    Run,
    Jump,
    Land,
    AirMove,
    AirStill,
    Push,
    Duck,
    Up,
}

impl Anim for PlayerAnim {
    open spec fn spec_index(self) -> usize {
        match self {
            PlayerAnim::Idle => 0,
            PlayerAnim::Run => 1,
            PlayerAnim::Jump => 2,
            PlayerAnim::Land => 3,
            PlayerAnim::AirMove => 4,
            PlayerAnim::AirStill => 5,
            PlayerAnim::Push => 6,
            PlayerAnim::Duck => 7,
            PlayerAnim::Up => 8,
        }
    }

    open spec fn spec_from_index(index: usize) -> PlayerAnim {
        if index == 1 {
            PlayerAnim::Run
        } else if index == 2 {
            PlayerAnim::Jump
        } else if index == 3 {
            PlayerAnim::Land
        } else if index == 4 {
            PlayerAnim::AirMove
        } else if index == 5 {
            PlayerAnim::AirStill
        } else if index == 6 {
            PlayerAnim::Push
        } else if index == 7 {
            PlayerAnim::Duck
        } else if index == 8 {
            PlayerAnim::Up
        } else {
            PlayerAnim::Idle
        }
    }

    proof fn lemma_index_roundtrip(a: PlayerAnim) {
    }

    fn index(&self) -> (i: usize) {
        match self {
            PlayerAnim::Idle => 0,
            PlayerAnim::Run => 1,
            PlayerAnim::Jump => 2,
            PlayerAnim::Land => 3,
            PlayerAnim::AirMove => 4,
            PlayerAnim::AirStill => 5,
            PlayerAnim::Push => 6,
            PlayerAnim::Duck => 7,
            PlayerAnim::Up => 8,
        }
    }

    fn from_index(index: usize) -> (a: PlayerAnim) {
        match index {
            1 => PlayerAnim::Run,
            2 => PlayerAnim::Jump,
            3 => PlayerAnim::Land,
            4 => PlayerAnim::AirMove,
            5 => PlayerAnim::AirStill,
            6 => PlayerAnim::Push,
            7 => PlayerAnim::Duck,
            8 => PlayerAnim::Up,
            _ => PlayerAnim::Idle,
        }
    }
}

/// What the player did this frame, as far as the animation depends on it.
#[derive(Clone, Copy, Debug, PartialEq, Eq, Structural)]
pub struct PlayerMotion {
    pub just_jumped: bool,
    pub just_landed: bool,
    pub grounded: bool,
    pub pushing_wall: bool,
    /// The horizontal speed is above the running threshold.
    pub fast: bool,
    /// The horizontal speed is below the standing threshold.
    pub still: bool,
    pub holding_down: bool,
    pub holding_up: bool,
}

/// The animation for this frame, given the one playing: a jump or a landing
/// first; in the air, a jump plays on, else moving or still; on the ground,
/// a landing plays on, else pushing, running, ducking, looking up or idle,
/// and between the speed thresholds the animation stays.
pub open spec fn spec_player_anim(m: PlayerMotion, current: PlayerAnim) -> PlayerAnim {
    if m.just_jumped {
        PlayerAnim::Jump
    } else if m.just_landed {
        PlayerAnim::Land
    } else if !m.grounded {
        if current == PlayerAnim::Jump {
            current
        } else if m.fast {
            PlayerAnim::AirMove
        } else {
            PlayerAnim::AirStill
        }
    } else if current == PlayerAnim::Land {
        current
    } else if m.pushing_wall {
        PlayerAnim::Push
    } else if m.fast {
        PlayerAnim::Run
    } else if m.still && m.holding_down {
        PlayerAnim::Duck
    } else if m.still && m.holding_up {
        PlayerAnim::Up
    } else if m.still {
        PlayerAnim::Idle
    } else {
        current
    }
}

/// The animation for this frame.
pub fn player_anim(m: PlayerMotion, current: PlayerAnim) -> (a: PlayerAnim)
    ensures
        a == spec_player_anim(m, current),
{
    if m.just_jumped {
        PlayerAnim::Jump
    } else if m.just_landed {
        PlayerAnim::Land
    } else if !m.grounded {
        match current {
            PlayerAnim::Jump => current,
            _ => {
                if m.fast {
                    PlayerAnim::AirMove
                } else {
                    PlayerAnim::AirStill
                }
            },
        }
    } else if current == PlayerAnim::Land {
        current
    } else if m.pushing_wall {
        PlayerAnim::Push
    } else if m.fast {
        PlayerAnim::Run
    } else if m.still && m.holding_down {
        PlayerAnim::Duck
    } else if m.still && m.holding_up {
        PlayerAnim::Up
    } else if m.still {
        PlayerAnim::Idle
    } else {
        current
    }
}

/// A footstep sounds when the running animation reaches its second frame.
pub fn footstep_due(anim: PlayerAnim, frame: usize, last_frame: usize) -> (b: bool)
    ensures
        b == (anim == PlayerAnim::Run && frame == 1 && last_frame != 1),
{
    anim == PlayerAnim::Run && frame == 1 && last_frame != 1
}

} // verus!
