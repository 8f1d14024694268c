//! Moving between the menu screens: the splash screen, the controls screen
//! (where the control scheme is chosen) and the level select screen.
use vstd::prelude::*;

use crate::anim::Anim;

verus! {

/// The keys the player moves with.
#[derive(Clone, Copy, Debug, PartialEq, Eq, Structural)]
pub enum ControlScheme {
    Arrow,
    Wasd,
}

impl ControlScheme {
    pub open spec fn spec_toggle(self) -> ControlScheme {
        match self {
            ControlScheme::Arrow => ControlScheme::Wasd,
            ControlScheme::Wasd => ControlScheme::Arrow,
        }
    }

    /// The other scheme.
    pub fn toggle(self) -> (c: ControlScheme)
        ensures
            c == self.spec_toggle(),
    {
        match self {
            ControlScheme::Arrow => ControlScheme::Wasd,
            ControlScheme::Wasd => ControlScheme::Arrow,
        }
    }
}

#[derive(Clone, Copy, Debug, PartialEq, Eq, Structural)]
pub enum MenuScreen {
    Splash,
    Controls,
    LevelSelect,
}

impl MenuScreen {
    pub open spec fn spec_level_index(self) -> usize {
        match self {
            MenuScreen::Splash => 0,
            MenuScreen::Controls => 1,
            MenuScreen::LevelSelect => 2,
        }
    }

    pub open spec fn spec_next(self) -> Option<MenuScreen> {
        match self {
            MenuScreen::Splash => Some(MenuScreen::Controls),
            MenuScreen::Controls => Some(MenuScreen::LevelSelect),
            MenuScreen::LevelSelect => None,
        }
    }

    pub open spec fn spec_prev(self) -> Option<MenuScreen> {
        match self {
            MenuScreen::Splash => None,
            MenuScreen::Controls => Some(MenuScreen::Splash),
            MenuScreen::LevelSelect => Some(MenuScreen::Controls),
        }
    }

    /// The index of the menu level that shows this screen.
    pub fn level_index(self) -> (i: usize)
        ensures
            i == self.spec_level_index(),
    {
        match self {
            MenuScreen::Splash => 0,
            MenuScreen::Controls => 1,
            MenuScreen::LevelSelect => 2,
        }
    }

    pub fn next(self) -> (s: Option<MenuScreen>)
        ensures
            s == self.spec_next(),
    {
        match self {
            MenuScreen::Splash => Some(MenuScreen::Controls),
            MenuScreen::Controls => Some(MenuScreen::LevelSelect),
            MenuScreen::LevelSelect => None,
        }
    }

    pub fn prev(self) -> (s: Option<MenuScreen>)
        ensures
            s == self.spec_prev(),
    {
        match self {
            MenuScreen::Splash => None,
            MenuScreen::Controls => Some(MenuScreen::Splash),
            MenuScreen::LevelSelect => Some(MenuScreen::Controls),
        }
    }
}

/// Going forwards and going back are inverse: `b` follows `a` exactly when
/// `a` comes before `b`, and the screen that follows has the next level index.
pub proof fn law_next_prev_inverse(a: MenuScreen, b: MenuScreen)
    ensures
        a.spec_next() == Some(b) <==> b.spec_prev() == Some(a),
        a.spec_next() == Some(b) ==> b.spec_level_index() == a.spec_level_index() + 1,
        a.spec_level_index() == b.spec_level_index() ==> a == b,
{
}

/// Toggling the control scheme twice gives it back.
pub proof fn law_toggle_twice(c: ControlScheme)
    ensures
        c.spec_toggle() != c,
        c.spec_toggle().spec_toggle() == c,
{
}

/// The keys of one frame, as the menu reads them.
#[derive(Clone, Copy, Debug, PartialEq, Eq, Structural)]
pub struct MenuKeys {
    /// Some key was pressed this frame.
    pub any_pressed: bool,
    /// Some key is held down.
    pub any_held: bool,
    pub escape: bool,
    pub enter: bool,
    pub tab: bool,
    pub right: bool,
    pub a: bool,
    /// Some key other than Escape was pressed this frame.
    pub any_non_escape: bool,
}

/// The sound a menu frame plays.
#[derive(Clone, Copy, Debug, PartialEq, Eq, Structural)]
pub enum MenuSound {
    Silent,
    Move,
    Select,
}

/// What a menu frame asks of the game.
#[derive(Clone, Copy, Debug, PartialEq, Eq, Structural)]
pub struct MenuOutcome {
    pub sound: MenuSound,
    /// The cooldown before the next input starts again.
    pub start_cooldown: bool,
    /// The menu level to show, when the screen changed.
    pub level_index: Option<usize>,
}

/// Where the player is in the menu. After every move the menu waits until
/// all keys are released.
#[derive(Clone, Copy, Debug, PartialEq, Eq, Structural)]
pub struct MenuNavigation {
    pub screen: MenuScreen,
    pub waiting_for_release: bool,
}

/// Whether this frame's keys toggle the control scheme on the controls screen.
pub open spec fn toggles(keys: MenuKeys, controls: ControlScheme) -> bool {
    keys.tab || (keys.right && controls == ControlScheme::Arrow) || (keys.a && controls
        == ControlScheme::Wasd)
}

/// The screen this frame's keys lead to from `screen`, if any.
pub open spec fn target_screen(screen: MenuScreen, keys: MenuKeys) -> Option<MenuScreen> {
    match screen {
        MenuScreen::Splash => if keys.any_non_escape {
            screen.spec_next()
        } else {
            None
        },
        _ => if keys.escape {
            screen.spec_prev()
        } else if keys.enter {
            screen.spec_next()
        } else {
            None
        },
    }
}

/// The menu screens lead one to the next: on the splash screen any key but
/// Escape goes on to the controls screen and Escape alone does nothing;
/// on the other screens Escape goes back one screen, else Enter goes on one
/// screen (nothing on the last), and other keys do nothing.
pub proof fn law_screen_keys(screen: MenuScreen, keys: MenuKeys)
    ensures
        screen == MenuScreen::Splash ==> (target_screen(screen, keys) == if keys.any_non_escape {
            Some(MenuScreen::Controls)
        } else {
            None::<MenuScreen>
        }),
        screen != MenuScreen::Splash && keys.escape ==> target_screen(screen, keys) is Some
            && target_screen(screen, keys)->0.spec_level_index() + 1 == screen.spec_level_index(),
        screen != MenuScreen::Splash && !keys.escape && keys.enter ==> (target_screen(screen, keys)
            is Some <==> screen != MenuScreen::LevelSelect),
        screen != MenuScreen::Splash && !keys.escape && keys.enter && target_screen(screen, keys)
            is Some ==> target_screen(screen, keys)->0.spec_level_index()
            == screen.spec_level_index() + 1,
        screen != MenuScreen::Splash && !keys.escape && !keys.enter ==> target_screen(screen, keys)
            is None,
{
}

impl MenuNavigation {
    /// The splash screen, waiting for all keys to be released.
    pub fn new() -> (n: MenuNavigation)
        ensures
            n.screen == MenuScreen::Splash,
            n.waiting_for_release,
    {
        MenuNavigation { screen: MenuScreen::Splash, waiting_for_release: true }
    }

    /// Entering the menu: wait for all keys to be released; returns the menu
    /// level to show.
    pub fn reset(&mut self) -> (level_index: usize)
        ensures
            final(self).screen == old(self).screen,
            final(self).waiting_for_release,
            level_index == old(self).screen.spec_level_index(),
    {
        self.waiting_for_release = true;
        self.screen.level_index()
    }

    /// One frame of the menu. `cooling_down` tells whether the cooldown
    /// after the last move is still running.
    pub fn navigate(&mut self, controls: &mut ControlScheme, keys: MenuKeys, cooling_down: bool) -> (out:
        MenuOutcome)
        ensures
            // While waiting, only the release of all keys counts.
            old(self).waiting_for_release ==> final(self).screen == old(self).screen
                && final(self).waiting_for_release == keys.any_held && *final(controls) == *old(
                controls,
            ) && out == (MenuOutcome {
                sound: MenuSound::Silent,
                start_cooldown: false,
                level_index: None,
            }),
            // Otherwise nothing happens during the cooldown or without a key press.
            !old(self).waiting_for_release && (cooling_down || !keys.any_pressed) ==> *final(self)
                == *old(self) && *final(controls) == *old(controls) && out == (MenuOutcome {
                sound: MenuSound::Silent,
                start_cooldown: false,
                level_index: None,
            }),
            // On the controls screen the keys may toggle the control scheme.
            !old(self).waiting_for_release && !cooling_down && keys.any_pressed && old(self).screen
                == MenuScreen::Controls && toggles(keys, *old(controls)) ==> final(self).screen
                == old(self).screen && final(self).waiting_for_release && *final(controls) == old(
                controls,
            ).spec_toggle() && out == (MenuOutcome {
                sound: MenuSound::Move,
                start_cooldown: true,
                level_index: None,
            }),
            // Else they may lead to another screen.
            !old(self).waiting_for_release && !cooling_down && keys.any_pressed && !(old(self).screen
                == MenuScreen::Controls && toggles(keys, *old(controls))) ==> *final(controls)
                == *old(controls) && match target_screen(old(self).screen, keys) {
                Some(s) => final(self).screen == s && final(self).waiting_for_release && out == (
                MenuOutcome {
                    sound: MenuSound::Select,
                    start_cooldown: true,
                    level_index: Some(s.spec_level_index()),
                }),
                None => *final(self) == *old(self) && out == (MenuOutcome {
                    sound: MenuSound::Silent,
                    start_cooldown: false,
                    level_index: None,
                }),
            },
    {
        let quiet = MenuOutcome { sound: MenuSound::Silent, start_cooldown: false, level_index: None };
        if self.waiting_for_release {
            if !keys.any_held {
                self.waiting_for_release = false;
            }
            return quiet;
        }
        if cooling_down {
            return quiet;
        }
        if !keys.any_pressed {
            return quiet;
        }

        if self.screen == MenuScreen::Controls {
            let should_toggle = keys.tab || (keys.right && *controls == ControlScheme::Arrow) || (
            keys.a && *controls == ControlScheme::Wasd);
            if should_toggle {
                *controls = controls.toggle();
                self.waiting_for_release = true;
                return MenuOutcome { sound: MenuSound::Move, start_cooldown: true, level_index: None };
            }
        }

        let new_screen = match self.screen {
            MenuScreen::Splash => {
                if keys.any_non_escape {
                    self.screen.next()
                } else {
                    None
                }
            },
            MenuScreen::Controls | MenuScreen::LevelSelect => {
                if keys.escape {
                    self.screen.prev()
                } else if keys.enter {
                    self.screen.next()
                } else {
                    None
                }
            },
        };

        match new_screen {
            Some(screen) => {
                self.screen = screen;
                self.waiting_for_release = true;
                MenuOutcome {
                    sound: MenuSound::Select,
                    start_cooldown: true,
                    level_index: Some(screen.level_index()),
                }
            },
            None => quiet,
        }
    }
}

/// The picture of the controls on the controls screen.
#[derive(Clone, Copy, Debug, PartialEq, Eq, Structural)]
pub enum ControlsAnim {
    Arrow,
    Wasd,
}

impl Anim for ControlsAnim {
    open spec fn spec_index(self) -> usize {
        match self {
            ControlsAnim::Arrow => 0,
            ControlsAnim::Wasd => 1,
        }
    }

    open spec fn spec_from_index(index: usize) -> ControlsAnim {
        if index == 1 {
            ControlsAnim::Wasd
        } else {
            ControlsAnim::Arrow
        }
    }

    proof fn lemma_index_roundtrip(a: ControlsAnim) {
    }

    fn index(&self) -> (i: usize) {
        match self {
            ControlsAnim::Arrow => 0,
            ControlsAnim::Wasd => 1,
        }
    }

    fn from_index(index: usize) -> (a: ControlsAnim) {
        match index {
            1 => ControlsAnim::Wasd,
            _ => ControlsAnim::Arrow,
        }
    }
}

/// The picture that shows a control scheme.
pub fn controls_anim(controls: ControlScheme) -> (a: ControlsAnim)
    ensures
        a == match controls {
            ControlScheme::Arrow => ControlsAnim::Arrow,
            ControlScheme::Wasd => ControlsAnim::Wasd,
        },
{
    match controls {
        ControlScheme::Arrow => ControlsAnim::Arrow,
        ControlScheme::Wasd => ControlsAnim::Wasd,
    }
}

/// The controls picture shows on the controls screen only.
pub fn controls_sprite_visible(screen: MenuScreen) -> (b: bool)
    ensures
        b == (screen == MenuScreen::Controls),
{
    screen == MenuScreen::Controls
}

/// The menu level whose texts are shown, so that they are replaced when
/// another menu level is shown.
#[derive(Clone, Copy, Debug, PartialEq, Eq, Structural)]
pub struct MenuTextTracker {
    pub prev_level: Option<usize>,
}

impl MenuTextTracker {
    pub fn new() -> (t: MenuTextTracker)
        ensures
            t.prev_level == None::<usize>,
    {
        MenuTextTracker { prev_level: None }
    }

    /// Notes the menu level shown now; returns whether it changed (and the
    /// texts of the old one are to be removed).
    pub fn level_changed(&mut self, current: Option<usize>) -> (changed: bool)
        ensures
            changed == (old(self).prev_level != current),
            final(self).prev_level == current,
    {
        if self.prev_level == current {
            return false;
        }
        self.prev_level = current;
        true
    }

    /// Leaving the menu forgets the level shown.
    pub fn clear(&mut self)
        ensures
            final(self).prev_level == None::<usize>,
    {
        self.prev_level = None;
    }
}

} // verus!
