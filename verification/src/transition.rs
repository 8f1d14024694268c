//! The fade between the menu and a level: the screen fades out through a
//! few shades, stays dark while the scene is switched and the camera is
//! placed, and fades back in.
use vstd::prelude::*;

use crate::level_progress::LevelProgress;
use crate::navigation::{MenuNavigation, MenuScreen};

verus! {

/// The shades of the fade overlay, from clear to black.
pub const FADE_STEPS: usize = 4;

/// Frames that the screen stays dark at least.
pub const DARK_FRAMES_MIN: u32 = 3;

/// Frames after which the screen fades in even when the camera could not
/// be placed on the player.
pub const DARK_FRAMES_TIMEOUT: u32 = 30;

#[derive(Clone, Copy, Debug, PartialEq, Eq, Structural)]
pub enum TransitionPhase {
    Idle,
    FadingOut { step: usize },
    Dark,
    FadingIn { step: usize },
}

/// Where a transition leads.
#[derive(Clone, Copy, Debug, PartialEq, Eq, Structural)]
pub enum TransitionTarget {
    StartLevel(usize),
    ReturnToMenu,
}

/// What one frame of the transition asks of the game.
#[derive(Clone, Copy, Debug, PartialEq, Eq, Structural)]
pub struct TransitionUpdate {
    /// The shade of the overlay, an index below `FADE_STEPS` (0 is clear,
    /// `FADE_STEPS - 1` is black); `None` leaves it as it is.
    pub shade: Option<usize>,
    /// The step timer starts again from zero.
    pub reset_timer: bool,
    /// The scene switches to the transition's target.
    pub switch_to: Option<TransitionTarget>,
    /// The camera is placed on the player.
    pub snap_camera: bool,
    /// The camera is placed at the origin.
    pub reset_camera: bool,
}

/// The state of the screen transition.
pub struct TransitionState {
    phase: TransitionPhase,
    dark_frames: u32,
    target: Option<TransitionTarget>,
    camera_snapped: bool,
}

/// How many more frames (in which the timer elapses, while fading) the
/// transition needs at most before it ends.
pub open spec fn remaining(phase: TransitionPhase, dark_frames: u32) -> int {
    match phase {
        TransitionPhase::Idle => 0,
        TransitionPhase::FadingOut { step } => (FADE_STEPS - step) + (DARK_FRAMES_TIMEOUT + 1)
            + FADE_STEPS,
        TransitionPhase::Dark => (DARK_FRAMES_TIMEOUT - dark_frames) + FADE_STEPS,
        TransitionPhase::FadingIn { step } => step + 1,
    }
}

impl TransitionState {
    pub closed spec fn phase(&self) -> TransitionPhase {
        self.phase
    }

    pub closed spec fn target(&self) -> Option<TransitionTarget> {
        self.target
    }

    pub closed spec fn dark_frames(&self) -> u32 {
        self.dark_frames
    }

    pub closed spec fn camera_snapped(&self) -> bool {
        self.camera_snapped
    }

    /// Fade steps index the shades, and the dark phase ends by its timeout.
    pub open spec fn wf(&self) -> bool {
        &&& match self.phase() {
            TransitionPhase::FadingOut { step } => step < FADE_STEPS,
            TransitionPhase::FadingIn { step } => step < FADE_STEPS,
            TransitionPhase::Dark => self.dark_frames() < DARK_FRAMES_TIMEOUT,
            TransitionPhase::Idle => true,
        }
    }

    pub open spec fn spec_is_active(&self) -> bool {
        self.phase() != TransitionPhase::Idle
    }

    pub fn new() -> (s: TransitionState)
        ensures
            s.wf(),
            s.phase() == TransitionPhase::Idle,
            s.target() == None::<TransitionTarget>,
            s.dark_frames() == 0,
            !s.camera_snapped(),
    {
        TransitionState {
            phase: TransitionPhase::Idle,
            dark_frames: 0,
            target: None,
            camera_snapped: false,
        }
    }

    pub fn current_phase(&self) -> (p: TransitionPhase)
        ensures
            p == self.phase(),
    {
        self.phase
    }

    /// A transition is under way.
    pub fn is_active(&self) -> (b: bool)
        ensures
            b == self.spec_is_active(),
    {
        self.phase != TransitionPhase::Idle
    }

    /// Whether the step timer runs: while fading out or in.
    pub fn is_timed(&self) -> (b: bool)
        ensures
            b == (self.phase() is FadingOut || self.phase() is FadingIn),
    {
        match self.phase {
            TransitionPhase::FadingOut { .. } | TransitionPhase::FadingIn { .. } => true,
            _ => false,
        }
    }

    /// Starts a transition to `target`, unless one is under way; returns
    /// whether it started (and the step timer starts from zero).
    pub fn request(&mut self, target: TransitionTarget) -> (started: bool)
        requires
            old(self).wf(),
        ensures
            final(self).wf(),
            started == !old(self).spec_is_active(),
            !started ==> *final(self) == *old(self),
            started ==> final(self).phase() == (TransitionPhase::FadingOut { step: 0 })
                && final(self).target() == Some(target) && final(self).dark_frames() == 0
                && !final(self).camera_snapped(),
    {
        if self.phase != TransitionPhase::Idle {
            return false;
        }
        self.phase = TransitionPhase::FadingOut { step: 0 };
        self.dark_frames = 0;
        self.target = Some(target);
        self.camera_snapped = false;
        true
    }

    /// One frame of the transition. `timer_elapsed` tells whether the step
    /// timer has reached the step duration; `camera_available` whether the
    /// player and the camera exist, so that the camera can be placed.
    pub fn update(&mut self, timer_elapsed: bool, camera_available: bool) -> (u: TransitionUpdate)
        requires
            old(self).wf(),
        ensures
            final(self).wf(),
            // Every frame in the dark, and every frame in which the step timer
            // has elapsed while fading, brings the transition closer to its
            // end; no frame takes it further away.
            remaining(final(self).phase(), final(self).dark_frames()) <= remaining(
                old(self).phase(),
                old(self).dark_frames(),
            ),
            old(self).spec_is_active() && (timer_elapsed || old(self).phase() == TransitionPhase::Dark)
                ==> remaining(final(self).phase(), final(self).dark_frames()) < remaining(
                old(self).phase(),
                old(self).dark_frames(),
            ),
            old(self).phase() == TransitionPhase::Idle ==> *final(self) == *old(self) && u == (
            TransitionUpdate {
                shade: None,
                reset_timer: false,
                switch_to: None,
                snap_camera: false,
                reset_camera: false,
            }),
            // Fading out: the shade of the current step; once the timer
            // elapses, the next step, or the dark phase and the switch of scene.
            old(self).phase() matches TransitionPhase::FadingOut { step } ==> {
                &&& !timer_elapsed ==> *final(self) == *old(self) && u == (TransitionUpdate {
                    shade: Some(step),
                    reset_timer: false,
                    switch_to: None,
                    snap_camera: false,
                    reset_camera: false,
                })
                &&& timer_elapsed && step + 1 < FADE_STEPS ==> final(self).phase() == (
                TransitionPhase::FadingOut { step: (step + 1) as usize }) && u == (TransitionUpdate {
                    shade: Some(step),
                    reset_timer: true,
                    switch_to: None,
                    snap_camera: false,
                    reset_camera: false,
                })
                &&& timer_elapsed && step + 1 >= FADE_STEPS ==> final(self).phase()
                    == TransitionPhase::Dark && final(self).dark_frames() == 0 && u == (
                TransitionUpdate {
                    shade: Some((FADE_STEPS - 1) as usize),
                    reset_timer: true,
                    switch_to: old(self).target(),
                    snap_camera: false,
                    reset_camera: false,
                })
                &&& final(self).target() == old(self).target()
                &&& final(self).camera_snapped() == old(self).camera_snapped()
            },
            // Dark: count the frame, place the camera when possible, and fade
            // in once the camera is placed after the minimum dark frames, or
            // at the timeout.
            old(self).phase() == TransitionPhase::Dark ==> {
                let frames = old(self).dark_frames() + 1;
                let snap = !old(self).camera_snapped() && camera_available;
                let snapped = old(self).camera_snapped() || camera_available;
                let ready = (frames >= DARK_FRAMES_MIN && snapped) || frames >= DARK_FRAMES_TIMEOUT;
                &&& u.shade == Some((FADE_STEPS - 1) as usize)
                &&& u.switch_to == None::<TransitionTarget>
                &&& u.snap_camera == snap
                &&& u.reset_camera == (frames >= DARK_FRAMES_TIMEOUT && !snapped)
                &&& u.reset_timer == ready
                &&& final(self).camera_snapped() == snapped
                &&& final(self).dark_frames() == frames
                &&& final(self).target() == old(self).target()
                &&& final(self).phase() == if ready {
                    TransitionPhase::FadingIn { step: (FADE_STEPS - 1) as usize }
                } else {
                    TransitionPhase::Dark
                }
            },
            // Fading in: the shade of the current step; once the timer
            // elapses, the step before, or the end of the transition.
            old(self).phase() matches TransitionPhase::FadingIn { step } ==> {
                &&& !timer_elapsed ==> *final(self) == *old(self) && u == (TransitionUpdate {
                    shade: Some(step),
                    reset_timer: false,
                    switch_to: None,
                    snap_camera: false,
                    reset_camera: false,
                })
                &&& timer_elapsed && step > 0 ==> final(self).phase() == (TransitionPhase::FadingIn {
                    step: (step - 1) as usize,
                }) && final(self).target() == old(self).target() && u == (TransitionUpdate {
                    shade: Some(step),
                    reset_timer: true,
                    switch_to: None,
                    snap_camera: false,
                    reset_camera: false,
                })
                &&& timer_elapsed && step == 0 ==> final(self).phase() == TransitionPhase::Idle
                    && final(self).target() == None::<TransitionTarget> && u == (
                TransitionUpdate {
                    shade: Some(0),
                    reset_timer: true,
                    switch_to: None,
                    snap_camera: false,
                    reset_camera: false,
                })
                &&& final(self).camera_snapped() == old(self).camera_snapped()
                &&& final(self).dark_frames() == old(self).dark_frames()
            },
    {
        let mut u = TransitionUpdate {
            shade: None,
            reset_timer: false,
            switch_to: None,
            snap_camera: false,
            reset_camera: false,
        };
        match self.phase {
            TransitionPhase::FadingOut { step } => {
                u.shade = Some(step);
                if timer_elapsed {
                    u.reset_timer = true;
                    let next_step = step + 1;
                    if next_step >= FADE_STEPS {
                        self.phase = TransitionPhase::Dark;
                        self.dark_frames = 0;
                        u.shade = Some(FADE_STEPS - 1);
                        u.switch_to = self.target;
                    } else {
                        self.phase = TransitionPhase::FadingOut { step: next_step };
                    }
                }
            },
            TransitionPhase::Dark => {
                u.shade = Some(FADE_STEPS - 1);
                self.dark_frames += 1;
                if !self.camera_snapped && camera_available {
                    u.snap_camera = true;
                    self.camera_snapped = true;
                }
                let ready_to_fade_in = self.dark_frames >= DARK_FRAMES_MIN && self.camera_snapped;
                let timeout = self.dark_frames >= DARK_FRAMES_TIMEOUT;
                if ready_to_fade_in || timeout {
                    if timeout && !self.camera_snapped {
                        u.reset_camera = true;
                    }
                    self.phase = TransitionPhase::FadingIn { step: FADE_STEPS - 1 };
                    u.reset_timer = true;
                }
            },
            TransitionPhase::FadingIn { step } => {
                u.shade = Some(step);
                if timer_elapsed {
                    u.reset_timer = true;
                    if step == 0 {
                        self.phase = TransitionPhase::Idle;
                        self.target = None;
                        u.shade = Some(0);
                    } else {
                        self.phase = TransitionPhase::FadingIn { step: step - 1 };
                    }
                }
            },
            TransitionPhase::Idle => {},
        }
        u
    }
}

/// The two scenes of the game.
#[derive(Clone, Copy, Debug, PartialEq, Eq, Structural)]
pub enum AppState {
    Menu,
    Playing,
}

/// Switches to the target of a transition, when the screen is dark: a level
/// to start becomes the level played; going back to the menu leaves the
/// level and shows the level select screen. Returns the scene to show.
pub fn enter_target(target: TransitionTarget, progress: &mut LevelProgress, nav: &mut MenuNavigation) -> (scene:
    AppState)
    ensures
        target matches TransitionTarget::StartLevel(level) ==> scene == AppState::Playing
            && final(progress).current_playing == Some(level) && *final(nav) == *old(nav),
        target == TransitionTarget::ReturnToMenu ==> scene == AppState::Menu
            && final(progress).current_playing == None::<usize> && final(nav).screen
            == MenuScreen::LevelSelect && final(nav).waiting_for_release == old(
            nav,
        ).waiting_for_release,
        final(progress).completed == old(progress).completed,
        final(progress).selected == old(progress).selected,
        final(progress).total_levels == old(progress).total_levels,
        final(progress).level_names == old(progress).level_names,
{
    match target {
        TransitionTarget::StartLevel(level) => {
            progress.current_playing = Some(level);
            AppState::Playing
        },
        TransitionTarget::ReturnToMenu => {
            progress.current_playing = None;
            nav.screen = MenuScreen::LevelSelect;
            AppState::Menu
        },
    }
}

impl TransitionState {
    /// Escape during play goes back to the menu, unless a transition is
    /// under way; returns whether the transition started.
    pub fn escape_during_play(&mut self, scene: AppState, escape_pressed: bool) -> (started: bool)
        requires
            old(self).wf(),
        ensures
            final(self).wf(),
            started == (scene == AppState::Playing && !old(self).spec_is_active() && escape_pressed),
            !started ==> *final(self) == *old(self),
            started ==> final(self).phase() == (TransitionPhase::FadingOut { step: 0 })
                && final(self).target() == Some(TransitionTarget::ReturnToMenu),
    {
        if scene != AppState::Playing {
            return false;
        }
        if self.is_active() {
            return false;
        }
        if escape_pressed {
            self.request(TransitionTarget::ReturnToMenu)
        } else {
            false
        }
    }
}

} // verus!
