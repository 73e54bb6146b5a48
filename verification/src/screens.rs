use crate::components::{Player, Tint};
use crate::physics::Vec2;
use crate::settings::{clamp_volume, Difficulty, Settings, VOLUME_MAX};
use vstd::prelude::*;

verus! {

/// What one key press changes of the volume, in thousandths.
pub const VOLUME_STEP: i32 = 50;

/// Least number of sides that the ship can be given.
pub const MIN_SHIP_SIDES: u8 = 3;

/// Greatest number of sides that the ship can be given.
pub const MAX_SHIP_SIDES: u8 = 8;

/// Least radius that the ship can be given.
pub const MIN_SHIP_RADIUS: i32 = 5000;

/// Greatest radius that the ship can be given.
pub const MAX_SHIP_RADIUS: i32 = 50_000;

/// What one key press changes of the ship's radius.
pub const SHIP_RADIUS_STEP: i32 = 1000;

/// The screen that is shown.
#[derive(Clone, Copy, Debug, PartialEq, Eq, Structural)]
pub enum GameState {
    Title,
    Playing,
    Paused,
    Settings,
}

/// The screen from which the settings were opened.
#[derive(Clone, Copy, Debug, PartialEq, Eq, Structural)]
pub enum SettingsOrigin {
    Title,
    Pause,
}

/// What the surroundings are to do after a key press on a screen.
#[derive(Clone, Copy, Debug, PartialEq, Eq, Structural)]
pub enum MenuAction {
    Nothing,
    Quit,
    SaveSettings,
}

/// The keys of the screens that were pressed in this frame.
#[derive(Clone, Copy, Debug, PartialEq, Eq, Structural)]
pub struct MenuKeys {
    pub enter: bool,
    pub s: bool,
    pub p: bool,
    pub escape: bool,
}

/// The keys of the settings screen that were pressed in this frame.
#[derive(Clone, Copy, Debug, PartialEq, Eq, Structural)]
pub struct SettingsKeys {
    pub left: bool,
    pub right: bool,
    pub up: bool,
    pub down: bool,
    pub f: bool,
}

/// The keys of the ship's workshop that were pressed in this frame.
#[derive(Clone, Copy, Debug, PartialEq, Eq, Structural)]
pub struct DesignKeys {
    pub left: bool,
    pub right: bool,
    pub up: bool,
    pub down: bool,
    pub c: bool,
}

/// Which screen is shown, and where the settings lead back to.
#[derive(Clone, Copy, Debug, PartialEq, Eq, Structural)]
pub struct Screens {
    pub state: GameState,
    pub origin: SettingsOrigin,
}

/// The screens after a frame's key presses. On the title, Enter starts the
/// game, S opens the settings and Escape quits; while playing, Escape quits
/// and P pauses; on the pause screen, P resumes, S opens the settings and
/// Escape leads to the title; on the settings, Enter and Escape lead back.
/// Where two keys were pressed, the later of these wins.
pub open spec fn screens_after(now: Screens, keys: MenuKeys) -> Screens {
    match now.state {
        GameState::Title => {
            if keys.s {
                Screens { state: GameState::Settings, origin: SettingsOrigin::Title }
            } else if keys.enter {
                Screens { state: GameState::Playing, ..now }
            } else {
                now
            }
        },
        GameState::Playing => {
            if keys.p && !keys.escape {
                Screens { state: GameState::Paused, ..now }
            } else {
                now
            }
        },
        GameState::Paused => {
            if keys.escape {
                Screens {
                    state: GameState::Title,
                    origin: if keys.s { SettingsOrigin::Pause } else { now.origin },
                }
            } else if keys.s {
                Screens { state: GameState::Settings, origin: SettingsOrigin::Pause }
            } else if keys.p {
                Screens { state: GameState::Playing, ..now }
            } else {
                now
            }
        },
        GameState::Settings => {
            if keys.enter || keys.escape {
                Screens {
                    state: match now.origin {
                        SettingsOrigin::Title => GameState::Title,
                        SettingsOrigin::Pause => GameState::Paused,
                    },
                    ..now
                }
            } else {
                now
            }
        },
    }
}

/// What a frame's key presses ask of the surroundings: Escape quits on the
/// title and while playing, and leaving the settings saves them.
pub open spec fn action_of(now: Screens, keys: MenuKeys) -> MenuAction {
    match now.state {
        GameState::Title | GameState::Playing => {
            if keys.escape {
                MenuAction::Quit
            } else {
                MenuAction::Nothing
            }
        },
        GameState::Paused => MenuAction::Nothing,
        GameState::Settings => {
            if keys.enter || keys.escape {
                MenuAction::SaveSettings
            } else {
                MenuAction::Nothing
            }
        },
    }
}

/// The settings after a frame's key presses on the settings screen: Left and
/// Right change the volume by `VOLUME_STEP` within its range, Up and Down
/// move through the difficulties, F switches the frame counter.
pub open spec fn settings_after(now: Settings, keys: SettingsKeys) -> Settings {
    let lower = if keys.left { clamp_volume(now.volume - VOLUME_STEP) } else { now.volume as int };
    let volume = if keys.right { clamp_volume(lower + VOLUME_STEP) } else { lower };
    let harder = if keys.up { Difficulty::of_tier(now.difficulty.tier() % 3 + 1) } else { now.difficulty };
    let difficulty = if keys.down { Difficulty::of_tier((harder.tier() + 1) % 3 + 1) } else { harder };
    Settings { volume: volume as i32, difficulty, show_fps: now.show_fps != keys.f }
}

/// The colour that follows a colour in the ship's palette.
pub open spec fn next_tint(t: Tint) -> Tint {
    match t {
        Tint::White => Tint::Red,
        Tint::Red => Tint::Orange,
        Tint::Orange => Tint::Yellow,
        Tint::Yellow => Tint::Green,
        Tint::Green => Tint::SkyBlue,
        Tint::SkyBlue => Tint::Blue,
        Tint::Blue => Tint::Purple,
        Tint::Purple => Tint::Pink,
        Tint::Pink => Tint::White,
        Tint::Gray => Tint::White,
    }
}

/// The ship after a frame's key presses in the workshop: Right and Left add
/// and take a side, Up and Down add and take a step of radius, each within
/// its bounds, and C moves on to the next colour.
pub open spec fn designed(p: Player, keys: DesignKeys) -> Player {
    let more = if keys.right && p.sides < MAX_SHIP_SIDES { (p.sides + 1) as u8 } else { p.sides };
    let sides = if keys.left && more > MIN_SHIP_SIDES { (more - 1) as u8 } else { more };
    let wider = if keys.up && p.radius < MAX_SHIP_RADIUS {
        (p.radius + SHIP_RADIUS_STEP) as i32
    } else {
        p.radius
    };
    let radius = if keys.down && wider > MIN_SHIP_RADIUS {
        (wider - SHIP_RADIUS_STEP) as i32
    } else {
        wider
    };
    Player { sides, radius, color: if keys.c { next_tint(p.color) } else { p.color }, ..p }
}

impl Screens {
    /// The title screen, at startup.
    pub fn new() -> (screens: Screens)
        ensures
            screens == (Screens { state: GameState::Title, origin: SettingsOrigin::Title }),
    {
        Screens { state: GameState::Title, origin: SettingsOrigin::Title }
    }

    /// Takes a frame's key presses.
    pub fn on_keys(&mut self, keys: &MenuKeys) -> (action: MenuAction)
        ensures
            *final(self) == screens_after(*old(self), *keys),
            action == action_of(*old(self), *keys),
    {
        match self.state {
            GameState::Title => {
                if keys.enter {
                    self.state = GameState::Playing;
                }
                if keys.s {
                    self.origin = SettingsOrigin::Title;
                    self.state = GameState::Settings;
                }
                if keys.escape {
                    MenuAction::Quit
                } else {
                    MenuAction::Nothing
                }
            },
            GameState::Playing => {
                if keys.escape {
                    MenuAction::Quit
                } else {
                    if keys.p {
                        self.state = GameState::Paused;
                    }
                    MenuAction::Nothing
                }
            },
            GameState::Paused => {
                if keys.p {
                    self.state = GameState::Playing;
                }
                if keys.s {
                    self.origin = SettingsOrigin::Pause;
                    self.state = GameState::Settings;
                }
                if keys.escape {
                    self.state = GameState::Title;
                }
                MenuAction::Nothing
            },
            GameState::Settings => {
                if keys.enter || keys.escape {
                    self.state = match self.origin {
                        SettingsOrigin::Title => GameState::Title,
                        SettingsOrigin::Pause => GameState::Paused,
                    };
                    MenuAction::SaveSettings
                } else {
                    MenuAction::Nothing
                }
            },
        }
    }
}

impl Settings {
    /// Takes a frame's key presses on the settings screen.
    pub fn adjust(&mut self, keys: &SettingsKeys)
        ensures
            *final(self) == settings_after(*old(self), *keys),
    {
        if keys.left {
            self.volume = clamp_to_volume(self.volume as i64 - VOLUME_STEP as i64);
        }
        if keys.right {
            self.volume = clamp_to_volume(self.volume as i64 + VOLUME_STEP as i64);
        }
        if keys.up {
            self.difficulty = self.difficulty.next();
        }
        if keys.down {
            self.difficulty = self.difficulty.prev();
        }
        if keys.f {
            self.show_fps = !self.show_fps;
        }
    }
}

/// Brings a volume into its range.
pub fn clamp_to_volume(v: i64) -> (volume: i32)
    ensures
        volume == clamp_volume(v as int),
{
    if v < 0 {
        0
    } else if v > VOLUME_MAX as i64 {
        VOLUME_MAX
    } else {
        v as i32
    }
}

impl Tint {
    /// The colour that follows this one in the ship's palette.
    pub fn next(&self) -> (t: Tint)
        ensures
            t == next_tint(*self),
    {
        match self {
            Tint::White => Tint::Red,
            Tint::Red => Tint::Orange,
            Tint::Orange => Tint::Yellow,
            Tint::Yellow => Tint::Green,
            Tint::Green => Tint::SkyBlue,
            Tint::SkyBlue => Tint::Blue,
            Tint::Blue => Tint::Purple,
            Tint::Purple => Tint::Pink,
            Tint::Pink => Tint::White,
            Tint::Gray => Tint::White,
        }
    }
}

impl Player {
    /// Brings the ship to rest as the workshop opens.
    pub fn enter_design(&mut self)
        ensures
            *final(self) == (Player { vel: Vec2 { x: 0, y: 0 }, ..*old(self) }),
    {
        self.vel = Vec2 { x: 0, y: 0 };
    }

    /// Takes a frame's key presses in the workshop.
    pub fn design(&mut self, keys: &DesignKeys)
        ensures
            *final(self) == designed(*old(self), *keys),
    {
        if keys.right && self.sides < MAX_SHIP_SIDES {
            self.sides += 1;
        }
        if keys.left && self.sides > MIN_SHIP_SIDES {
            self.sides -= 1;
        }
        if keys.up && self.radius < MAX_SHIP_RADIUS {
            self.radius += SHIP_RADIUS_STEP;
        }
        if keys.down && self.radius > MIN_SHIP_RADIUS {
            self.radius -= SHIP_RADIUS_STEP;
        }
        if keys.c {
            self.color = self.color.next();
        }
    }
}

} // verus!
