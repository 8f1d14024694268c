use meaningless::navigation::MenuTextTracker;
use meaningless::player::{footstep_due, player_anim, PlayerAnim, PlayerMotion};
use meaningless::anim::{AnimFrames, AnimMan, AnimNextIndex, FrameStep};
use meaningless::flags::{finish_level, help_text, FlagCounter};
use meaningless::gol::CellAnim;
use meaningless::level_progress::LevelProgress;
use meaningless::navigation::ControlScheme;
use meaningless::transition::{TransitionState, TransitionTarget};

#[test]
fn collecting_every_flag_completes() {
    let mut c = FlagCounter::new();
    c.set_total(2);
    assert!(!c.collect());
    assert!(c.collect());
    assert!(!c.reset_on_death(false));
    assert!(c.reset_on_death(true));
    assert_eq!(c.collected, 0);
    assert!(!c.reset_on_death(true));
    c.clear();
    assert_eq!(c.total, 0);
}

#[test]
fn finishing_marks_the_level_done() {
    let mut p = LevelProgress::new();
    p.total_levels = 3;
    p.current_playing = Some(1);
    let mut t = TransitionState::new();
    finish_level(&mut p, &mut t);
    assert!(p.completed.contains(1));
    assert_eq!(p.selected, 1);
    assert!(p.is_unlocked(2));
    assert!(t.is_active());
    let _ = TransitionTarget::ReturnToMenu;
}

#[test]
fn help_line() {
    assert_eq!(help_text(ControlScheme::Arrow, &None), "ARROWS move, F forward, D back, R restart, ESC menu");
    assert_eq!(help_text(ControlScheme::Wasd, &None), "WASD move, K forward, J back, R restart, ESC menu");
    assert_eq!(help_text(ControlScheme::Wasd, &Some("ENTER to continue".to_string())), "ENTER to continue");
}

#[test]
fn animation_set_and_frames() {
    let mut a = AnimMan::new(CellAnim::Pending);
    assert_eq!(a.get(), CellAnim::Pending);
    assert!(!a.needs_reload());
    assert!(!a.set(CellAnim::Pending));
    assert!(a.set(CellAnim::Scared));
    assert_eq!(a.get(), CellAnim::Scared);
    assert!(a.needs_reload());
    a.mark_loaded();
    assert!(!a.needs_reload());
    let a = a.with_flip_x(true);
    assert!(a.flip_x());
    assert!(a.is_visible() && !a.is_paused() && !a.flip_y());

    let table = vec![
        AnimFrames { frame_count: 2, next: AnimNextIndex::Index(0) },
        AnimFrames { frame_count: 3, next: AnimNextIndex::Index(0) },
        AnimFrames { frame_count: 1, next: AnimNextIndex::Despawn },
        AnimFrames { frame_count: 1, next: AnimNextIndex::Remove },
    ];
    let mut m = AnimMan::new(CellAnim::Scared);
    assert_eq!(m.step_frame(&table), FrameStep::Continue);
    assert_eq!(m.frame(), 1);
    assert_eq!(m.step_frame(&table), FrameStep::Continue);
    assert_eq!(m.step_frame(&table), FrameStep::Reload);
    assert_eq!(m.get(), CellAnim::Stable);
    assert_eq!(m.frame(), 0);
    let mut d = AnimMan::new(CellAnim::Pending);
    assert_eq!(d.step_frame(&table), FrameStep::Despawn);
    let mut r = AnimMan::new(CellAnim::Slain);
    assert_eq!(r.step_frame(&table), FrameStep::Remove);
}

#[test]
fn player_animation_choice() {
    let base = PlayerMotion {
        just_jumped: false,
        just_landed: false,
        grounded: true,
        pushing_wall: false,
        fast: false,
        still: true,
        holding_down: false,
        holding_up: false,
    };
    assert_eq!(player_anim(base, PlayerAnim::Run), PlayerAnim::Idle);
    assert_eq!(player_anim(PlayerMotion { just_jumped: true, ..base }, PlayerAnim::Idle), PlayerAnim::Jump);
    assert_eq!(player_anim(PlayerMotion { grounded: false, ..base }, PlayerAnim::Jump), PlayerAnim::Jump);
    assert_eq!(player_anim(PlayerMotion { grounded: false, fast: true, ..base }, PlayerAnim::Idle), PlayerAnim::AirMove);
    assert_eq!(player_anim(PlayerMotion { grounded: false, ..base }, PlayerAnim::Idle), PlayerAnim::AirStill);
    assert_eq!(player_anim(base, PlayerAnim::Land), PlayerAnim::Land);
    assert_eq!(player_anim(PlayerMotion { pushing_wall: true, ..base }, PlayerAnim::Idle), PlayerAnim::Push);
    assert_eq!(player_anim(PlayerMotion { fast: true, still: false, ..base }, PlayerAnim::Idle), PlayerAnim::Run);
    assert_eq!(player_anim(PlayerMotion { holding_down: true, ..base }, PlayerAnim::Idle), PlayerAnim::Duck);
    assert_eq!(player_anim(PlayerMotion { holding_up: true, ..base }, PlayerAnim::Idle), PlayerAnim::Up);
    assert_eq!(player_anim(PlayerMotion { still: false, ..base }, PlayerAnim::Run), PlayerAnim::Run);
    assert!(footstep_due(PlayerAnim::Run, 1, 0));
    assert!(!footstep_due(PlayerAnim::Run, 1, 1));
    assert!(!footstep_due(PlayerAnim::Idle, 1, 0));
}

#[test]
fn menu_text_follows_the_shown_level() {
    let mut t = MenuTextTracker::new();
    assert!(t.level_changed(Some(1)));
    assert!(!t.level_changed(Some(1)));
    assert!(t.level_changed(None));
    t.level_changed(Some(2));
    t.clear();
    assert_eq!(t.prev_level, None);
}

#[test]
fn level_to_load_defaults_to_first() {
    let mut p = LevelProgress::new();
    assert_eq!(p.level_to_load(), 0);
    p.current_playing = Some(4);
    assert_eq!(p.level_to_load(), 4);
}
