use meaningless::level_progress::LevelProgress;
use meaningless::level_select::{
    get_anim_for_level, grid_rows, grid_to_level, level_to_grid, navigate_level_select,
    navigation_target, square_count, start_level, DirectionKeys, LevelSelectFlags, LevelSquareAnim,
};
use meaningless::navigation::{
    controls_anim, controls_sprite_visible, ControlScheme, ControlsAnim, MenuKeys, MenuNavigation,
    MenuOutcome, MenuScreen, MenuSound,
};
use meaningless::transition::TransitionState;

fn no_keys() -> MenuKeys {
    MenuKeys {
        any_pressed: false,
        any_held: false,
        escape: false,
        enter: false,
        tab: false,
        right: false,
        a: false,
        any_non_escape: false,
    }
}

fn press(mut k: MenuKeys) -> MenuKeys {
    k.any_pressed = true;
    k.any_held = true;
    k
}

#[test]
fn menu_waits_for_release_then_moves() {
    let mut nav = MenuNavigation::new();
    let mut controls = ControlScheme::Arrow;
    let out = nav.navigate(&mut controls, press(MenuKeys { any_non_escape: true, ..no_keys() }), false);
    assert_eq!(out.sound, MenuSound::Silent);
    assert!(nav.waiting_for_release);
    nav.navigate(&mut controls, no_keys(), false);
    assert!(!nav.waiting_for_release);
    let out = nav.navigate(&mut controls, press(MenuKeys { any_non_escape: true, ..no_keys() }), false);
    assert_eq!(nav.screen, MenuScreen::Controls);
    assert_eq!(out, MenuOutcome { sound: MenuSound::Select, start_cooldown: true, level_index: Some(1) });
}

#[test]
fn escape_does_not_leave_splash() {
    let mut nav = MenuNavigation { screen: MenuScreen::Splash, waiting_for_release: false };
    let mut controls = ControlScheme::Arrow;
    let out = nav.navigate(&mut controls, press(MenuKeys { escape: true, ..no_keys() }), false);
    assert_eq!(nav.screen, MenuScreen::Splash);
    assert_eq!(out.sound, MenuSound::Silent);
}

#[test]
fn controls_screen_toggles_scheme() {
    let mut nav = MenuNavigation { screen: MenuScreen::Controls, waiting_for_release: false };
    let mut controls = ControlScheme::Arrow;
    let out = nav.navigate(&mut controls, press(MenuKeys { right: true, any_non_escape: true, ..no_keys() }), false);
    assert_eq!(controls, ControlScheme::Wasd);
    assert_eq!(out.sound, MenuSound::Move);
    assert!(nav.waiting_for_release);
    nav.waiting_for_release = false;
    // With WASD, the right arrow does not toggle; A does.
    let out = nav.navigate(&mut controls, press(MenuKeys { right: true, any_non_escape: true, ..no_keys() }), false);
    assert_eq!(out.sound, MenuSound::Silent);
    assert_eq!(controls, ControlScheme::Wasd);
    nav.navigate(&mut controls, press(MenuKeys { a: true, any_non_escape: true, ..no_keys() }), false);
    assert_eq!(controls, ControlScheme::Arrow);
    nav.waiting_for_release = false;
    nav.navigate(&mut controls, press(MenuKeys { enter: true, any_non_escape: true, ..no_keys() }), false);
    assert_eq!(nav.screen, MenuScreen::LevelSelect);
    nav.waiting_for_release = false;
    let out = nav.navigate(&mut controls, press(MenuKeys { escape: true, ..no_keys() }), false);
    assert_eq!(nav.screen, MenuScreen::Controls);
    assert_eq!(out.level_index, Some(1));
}

#[test]
fn cooldown_blocks_input() {
    let mut nav = MenuNavigation { screen: MenuScreen::Controls, waiting_for_release: false };
    let mut controls = ControlScheme::Arrow;
    nav.navigate(&mut controls, press(MenuKeys { enter: true, ..no_keys() }), true);
    assert_eq!(nav.screen, MenuScreen::Controls);
    assert_eq!(nav.reset(), 1);
    assert!(nav.waiting_for_release);
}

#[test]
fn screens_in_order() {
    assert_eq!(MenuScreen::Splash.next(), Some(MenuScreen::Controls));
    assert_eq!(MenuScreen::LevelSelect.next(), None);
    assert_eq!(MenuScreen::Splash.prev(), None);
    assert_eq!(MenuScreen::LevelSelect.level_index(), 2);
    assert_eq!(ControlScheme::Wasd.toggle(), ControlScheme::Arrow);
    assert_eq!(controls_anim(ControlScheme::Wasd), ControlsAnim::Wasd);
    assert!(controls_sprite_visible(MenuScreen::Controls));
    assert!(!controls_sprite_visible(MenuScreen::Splash));
}

#[test]
fn level_grid_layout() {
    assert_eq!(level_to_grid(6), (2, 1));
    assert_eq!(grid_to_level(2, 1), 6);
    assert_eq!(grid_rows(5), 2);
    assert_eq!(grid_rows(8), 2);
    assert_eq!(square_count(7), 7);
    assert_eq!(square_count(30), 20);
}

fn keys(up: bool, down: bool, left: bool, right: bool) -> DirectionKeys {
    DirectionKeys { up, down, left, right }
}

#[test]
fn level_select_targets() {
    assert_eq!(navigation_target(0, keys(true, false, false, false)), None);
    assert_eq!(navigation_target(0, keys(false, true, false, false)), Some(4));
    assert_eq!(navigation_target(5, keys(true, false, false, false)), Some(1));
    assert_eq!(navigation_target(4, keys(false, false, true, false)), None);
    assert_eq!(navigation_target(3, keys(false, false, false, true)), None);
    assert_eq!(navigation_target(2, keys(false, false, false, true)), Some(3));
}

#[test]
fn selection_moves_only_to_open_levels() {
    let mut p = LevelProgress::new();
    p.total_levels = 6;
    assert!(!navigate_level_select(&mut p, keys(false, false, false, true)));
    assert_eq!(p.selected, 0);
    p.complete_level(0);
    assert!(navigate_level_select(&mut p, keys(false, false, false, true)));
    assert_eq!(p.selected, 1);
    assert_eq!(get_anim_for_level(&p, 1, true), LevelSquareAnim::UnlockedSelected);
    assert_eq!(get_anim_for_level(&p, 0, false), LevelSquareAnim::Done);
    assert_eq!(get_anim_for_level(&p, 0, true), LevelSquareAnim::DoneSelected);
    assert_eq!(get_anim_for_level(&p, 2, false), LevelSquareAnim::Locked);
}

#[test]
fn enter_starts_an_open_level() {
    let mut p = LevelProgress::new();
    p.total_levels = 3;
    let mut t = TransitionState::new();
    assert!(!start_level(MenuScreen::Controls, &p, &mut t, true, false));
    assert!(!start_level(MenuScreen::LevelSelect, &p, &mut t, true, true));
    assert!(start_level(MenuScreen::LevelSelect, &p, &mut t, true, false));
    assert!(t.is_active());
    assert!(!start_level(MenuScreen::LevelSelect, &p, &mut t, true, false));
}

#[test]
fn level_select_flags() {
    let mut p = LevelProgress::new();
    p.total_levels = 4;
    let mut f = LevelSelectFlags::new();
    assert!(f.refresh(MenuScreen::LevelSelect, &mut p));
    assert_eq!(p.total_levels, 0);
    assert!(!f.refresh(MenuScreen::LevelSelect, &mut p));
    assert!(!f.spawn(MenuScreen::LevelSelect, 0));
    assert!(f.spawn(MenuScreen::LevelSelect, 4));
    assert!(!f.spawn(MenuScreen::LevelSelect, 4));
    assert!(!f.despawn(MenuScreen::LevelSelect));
    assert!(f.despawn(MenuScreen::Controls));
    assert!(!f.despawn(MenuScreen::Controls));
    assert!(!f.refresh(MenuScreen::Controls, &mut p));
    assert!(!f.refreshed);
}
