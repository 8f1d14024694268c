use meaningless::level_progress::LevelProgress;
use meaningless::navigation::{MenuNavigation, MenuScreen};
use meaningless::transition::{
    enter_target, AppState, TransitionPhase, TransitionState, TransitionTarget, FADE_STEPS,
};

#[test]
fn full_transition_runs_to_its_end() {
    let mut t = TransitionState::new();
    assert!(!t.is_active());
    assert!(t.request(TransitionTarget::StartLevel(2)));
    assert!(!t.request(TransitionTarget::ReturnToMenu));
    assert_eq!(t.current_phase(), TransitionPhase::FadingOut { step: 0 });
    assert!(t.is_timed());

    // The timer has not elapsed: the shade stays.
    let u = t.update(false, false);
    assert_eq!(u.shade, Some(0));
    assert!(!u.reset_timer);

    let mut switched = None;
    for step in 0..FADE_STEPS {
        let u = t.update(true, false);
        assert!(u.reset_timer);
        if step + 1 < FADE_STEPS {
            assert_eq!(u.shade, Some(step));
        } else {
            assert_eq!(u.shade, Some(FADE_STEPS - 1));
            switched = u.switch_to;
        }
    }
    assert_eq!(switched, Some(TransitionTarget::StartLevel(2)));
    assert_eq!(t.current_phase(), TransitionPhase::Dark);
    assert!(!t.is_timed());

    // Dark: the camera is placed at once, then the minimum dark frames pass.
    let u = t.update(false, true);
    assert!(u.snap_camera);
    assert_eq!(t.current_phase(), TransitionPhase::Dark);
    t.update(false, true);
    let u = t.update(false, true);
    assert!(!u.snap_camera);
    assert!(u.reset_timer);
    assert_eq!(t.current_phase(), TransitionPhase::FadingIn { step: FADE_STEPS - 1 });

    for _ in 0..FADE_STEPS {
        t.update(true, true);
    }
    assert_eq!(t.current_phase(), TransitionPhase::Idle);
    assert!(!t.is_active());
}

#[test]
fn dark_phase_times_out_without_a_camera() {
    let mut t = TransitionState::new();
    t.request(TransitionTarget::ReturnToMenu);
    for _ in 0..FADE_STEPS {
        t.update(true, false);
    }
    let mut frames = 0;
    let mut reset = false;
    while t.current_phase() == TransitionPhase::Dark {
        let u = t.update(false, false);
        reset = u.reset_camera;
        frames += 1;
    }
    assert_eq!(frames, 30);
    assert!(reset);
}

#[test]
fn entering_targets() {
    let mut p = LevelProgress::new();
    let mut nav = MenuNavigation::new();
    assert_eq!(enter_target(TransitionTarget::StartLevel(3), &mut p, &mut nav), AppState::Playing);
    assert_eq!(p.current_playing, Some(3));
    assert_eq!(nav.screen, MenuScreen::Splash);
    assert_eq!(enter_target(TransitionTarget::ReturnToMenu, &mut p, &mut nav), AppState::Menu);
    assert_eq!(p.current_playing, None);
    assert_eq!(nav.screen, MenuScreen::LevelSelect);
}

#[test]
fn escape_returns_to_menu_only_while_playing() {
    let mut t = TransitionState::new();
    assert!(!t.escape_during_play(AppState::Menu, true));
    assert!(!t.escape_during_play(AppState::Playing, false));
    assert!(t.escape_during_play(AppState::Playing, true));
    assert!(!t.escape_during_play(AppState::Playing, true));
}
