use asteroids_core::components::{Asteroid, Bullet, BulletOwner, Player, Tint, Ufo};
use asteroids_core::config::{get_levels, LevelConfig};
use asteroids_core::game::{check_heading, FrameInput};
use asteroids_core::level::{is_loadable, is_safe_spawn};
use asteroids_core::physics::{fits_scaled, Vec2};
use asteroids_core::screens::{
    clamp_to_volume, DesignKeys, GameState, MenuAction, MenuKeys, Screens, SettingsKeys,
    SettingsOrigin,
};
use asteroids_core::session::{Cue, Session};
use asteroids_core::settings::{Difficulty, Settings};
use asteroids_core::wave::is_playable;

fn vec2(x: i32, y: i32) -> Vec2 {
    Vec2 { x, y }
}

fn screen() -> Vec2 {
    vec2(800_000, 600_000)
}

fn idle(dt: i32) -> FrameInput {
    FrameInput { dt, heading: vec2(1000, 0), thrust: false, fire: false, hyperspace: false }
}

fn rock(x: i32, y: i32, radius: i32) -> Asteroid {
    Asteroid { pos: vec2(x, y), vel: vec2(0, 0), radius, active: true, sides: 6 }
}

#[test]
fn a_game_starts_on_the_first_level() {
    let levels = get_levels();
    let s = Session::start(&levels, Difficulty::Normal, screen());
    assert!(s.is_wf(screen()));
    assert_eq!(s.asteroids.len(), 4);
    assert_eq!(s.level_idx, 0);
    assert_eq!(s.lives, 3);
    for a in &s.asteroids {
        assert!(is_safe_spawn(a.pos, screen()));
        assert!((1000..=2000).contains(&a.vel.x.abs()));
        assert!((30_000..=50_000).contains(&a.radius));
    }
    assert!(s.check_step(&idle(16), &levels, Difficulty::Normal));
}

#[test]
fn a_frame_moves_everything() {
    let levels = get_levels();
    let mut s = Session::start(&levels, Difficulty::Normal, screen());
    s.asteroids.clear();
    s.asteroids.push(Asteroid { vel: vec2(1000, -2000), ..rock(10_000, 10_000, 20_000) });
    let input = FrameInput { thrust: true, fire: true, ..idle(16) };
    assert!(s.try_step(&input, &levels, Difficulty::Normal, screen()));
    assert!(s.is_wf(screen()));
    // Thrust gives 150 along the heading, friction keeps 98 hundredths of it.
    assert_eq!(s.player.vel, vec2(147, 0));
    assert_eq!(s.player.pos, vec2(400_150, 300_000));
    assert_eq!(s.asteroids.len(), 1);
    assert_eq!(s.asteroids[0].pos, vec2(11_000, 8000));
    assert_eq!(
        s.bullets,
        vec![Bullet {
            pos: vec2(400_000 + 15_000 + 8000, 300_000),
            vel: vec2(8000, 0),
            lifetime: 1500 - 16,
            active: true,
            owner: BulletOwner::Player,
        }]
    );
    assert_eq!(s.score, 0);
    assert_eq!(s.lives, 3);
    assert_eq!(s.effects.len(), 2);
}

#[test]
fn a_shot_asteroid_is_replaced_by_its_halves_within_the_frame() {
    let levels = get_levels();
    let mut s = Session::start(&levels, Difficulty::Normal, screen());
    s.asteroids.clear();
    s.asteroids.push(rock(460_000, 300_000, 40_000));
    let input = FrameInput { fire: true, ..idle(16) };
    assert!(s.try_step(&input, &levels, Difficulty::Normal, screen()));
    assert!(s.bullets.is_empty());
    assert_eq!(s.score, 100);
    assert_eq!(s.asteroids.len(), 2);
    assert!(s.asteroids.iter().all(|a| a.active && a.radius == 20_000));
    assert!(s.asteroids.iter().all(|a| a.pos == vec2(460_000, 300_000)));
    assert!(s.pending.is_empty());
    assert_eq!(s.take_effects().len(), 4);
    assert_eq!(Cue::Bang.name(), "bang");
    assert_eq!(Cue::Shoot.name(), "shoot");
    assert_eq!(Cue::Warp.name(), "warp");
}

#[test]
fn the_last_life_ends_the_game_and_keeps_the_score() {
    let levels = get_levels();
    let mut s = Session::start(&levels, Difficulty::Normal, screen());
    s.asteroids.clear();
    s.asteroids.push(rock(0, 0, 1000));
    s.lives = 1;
    s.score = 2900;
    s.bullets.push(Bullet {
        pos: vec2(400_000, 300_000),
        vel: vec2(0, 0),
        lifetime: 2000,
        active: true,
        owner: BulletOwner::Ufo,
    });
    assert!(s.try_step(&idle(16), &levels, Difficulty::Normal, screen()));
    assert!(s.game_over);
    assert_eq!(s.lives, 0);
    assert_eq!(s.score, 2900);
    assert!(s.bullets.is_empty());
    // A game that is over takes no further frame.
    let frozen_score = s.score;
    assert!(!s.try_step(&idle(16), &levels, Difficulty::Normal, screen()));
    assert_eq!(s.score, frozen_score);
    assert_eq!(s.lives, 0);
    s.restart(&levels, Difficulty::Hard, screen());
    assert!(!s.game_over);
    assert_eq!((s.score, s.lives, s.level_idx, s.last_extra_life_score), (0, 3, 0, 0));
    assert!(s.player.invulnerable);
    assert_eq!(s.player.invulnerable_timer, 3000);
    assert_eq!(s.player.pos, vec2(400_000, 300_000));
    assert_eq!(s.asteroids.len(), 4);
    assert!(s.asteroids.iter().all(|a| (1200..=2400).contains(&a.vel.x.abs())));
    assert!(s.is_wf(screen()));
}

#[test]
fn clearing_the_last_level_wins_the_game() {
    let levels = get_levels();
    let mut s = Session::start(&levels, Difficulty::Easy, screen());
    let mut seen = vec![s.asteroids.len()];
    for _ in 0..3 {
        s.asteroids.clear();
        s.ufos.clear();
        assert!(s.try_step(&idle(16), &levels, Difficulty::Easy, screen()));
        seen.push(s.asteroids.len());
    }
    assert_eq!(seen, vec![4, 6, 8, 0]);
    assert!(s.game_won);
    assert_eq!(s.level_idx, 3);
    assert!(!s.try_step(&idle(16), &levels, Difficulty::Easy, screen()));
}

#[test]
fn many_frames_keep_the_session_sound() {
    let levels = get_levels();
    let mut s = Session::start(&levels, Difficulty::Hard, screen());
    s.level_idx = 2;
    s.load_current_level(&levels, Difficulty::Hard, screen());
    let mut frames = 0;
    for k in 0..3000 {
        if s.game_over || s.game_won {
            break;
        }
        let turn = [vec2(1000, 0), vec2(0, 1000), vec2(-1000, 0), vec2(0, -1000), vec2(600, 800)];
        let input = FrameInput {
            dt: 16,
            heading: turn[(k / 7) % turn.len()],
            thrust: k % 3 != 0,
            fire: k % 5 == 0,
            hyperspace: k % 401 == 400,
        };
        assert!(s.try_step(&input, &levels, Difficulty::Hard, screen()));
        assert!(s.is_wf(screen()));
        assert!(s.ufos.len() <= 1);
        assert!(s.player.vel.x.abs() <= 7500 && s.player.vel.y.abs() <= 7500);
        assert!((0..=800_000).contains(&s.player.pos.x));
        assert!((0..=600_000).contains(&s.player.pos.y));
        assert!(s.bullets.iter().all(|b| b.active && b.lifetime > 0));
        assert!(s.asteroids.iter().all(|a| a.active));
        s.take_effects();
        frames += 1;
    }
    assert!(frames > 0);
    assert!(s.game_over == (s.lives <= 0) || s.game_won);
}

#[test]
fn a_pause_frame_plays_the_rules_before_the_input() {
    let levels = get_levels();
    let mut s = Session::start(&levels, Difficulty::Normal, screen());
    s.score = 3000;
    s.player.invulnerable = true;
    s.player.invulnerable_timer = 20;
    s.player.vel = vec2(500, 500);
    let rocks = s.asteroids.clone();
    assert!(s.pause_frame(16, &levels, Difficulty::Normal, screen()));
    assert_eq!(s.lives, 4);
    assert_eq!(s.last_extra_life_score, 3000);
    assert_eq!(s.player.invulnerable_timer, 4);
    assert_eq!(s.player.pos, vec2(400_000, 300_000));
    assert_eq!(s.player.vel, vec2(500, 500));
    assert_eq!(s.asteroids, rocks);
    assert!(s.is_wf(screen()));
}

#[test]
fn a_session_out_of_shape_is_not_played() {
    let levels = get_levels();
    let sound = Session::start(&levels, Difficulty::Normal, screen());
    assert!(sound.is_wf(screen()));
    let spoil: Vec<fn(&mut Session)> = vec![
        |s| s.player.pos.x = -1,
        |s| s.player.radius = -1,
        |s| s.player.vel.y = 7501,
        |s| s.player.heading = Vec2 { x: 1001, y: 0 },
        |s| s.player.invulnerable = true,
        |s| s.player.invulnerable_timer = 3001,
        |s| s.lives = 0,
        |s| s.last_extra_life_score = 1,
        |s| {
            s.bullets.push(Bullet {
                pos: Vec2 { x: 0, y: 0 },
                vel: Vec2 { x: 0, y: 0 },
                lifetime: 0,
                active: true,
                owner: BulletOwner::Player,
            })
        },
        |s| {
            for _ in 0..2 {
                s.ufos.push(Ufo {
                    pos: Vec2 { x: 0, y: 0 },
                    vel: Vec2 { x: 0, y: 0 },
                    radius: 20_000,
                    active: true,
                    shoot_timer: 0,
                    change_dir_timer: 0,
                })
            }
        },
        |s| {
            s.ufos.push(Ufo {
                pos: Vec2 { x: 0, y: 0 },
                vel: Vec2 { x: 0, y: 0 },
                radius: 20_000,
                active: true,
                shoot_timer: 2001,
                change_dir_timer: 0,
            })
        },
    ];
    for change in spoil {
        let mut s = Session::start(&levels, Difficulty::Normal, screen());
        change(&mut s);
        assert!(!s.is_wf(screen()));
        assert!(!s.try_step(&idle(16), &levels, Difficulty::Normal, screen()));
    }
    assert!(!sound.is_wf(vec2(-1, 600_000)));
    assert!(!sound.is_wf(vec2(800_000, 1_000_000_001)));
}

#[test]
fn a_frame_out_of_range_is_not_played() {
    let levels = get_levels();
    let mut s = Session::start(&levels, Difficulty::Normal, screen());
    assert!(!s.check_step(&idle(-1), &levels, Difficulty::Normal));
    assert!(!s.check_step(&idle(1_000_000_001), &levels, Difficulty::Normal));
    assert!(s.check_step(&idle(1_000_000_000), &levels, Difficulty::Normal));
    let askew = FrameInput { heading: vec2(0, -1001), ..idle(16) };
    assert!(!s.check_step(&askew, &levels, Difficulty::Normal));
    assert!(!s.check_step(&idle(16), &Vec::new(), Difficulty::Normal));
    s.score = u32::MAX - 3999;
    assert!(!s.check_step(&idle(16), &levels, Difficulty::Normal));
    s.score = u32::MAX - 4000;
    assert!(s.check_step(&idle(16), &levels, Difficulty::Normal));
    s.lives = i32::MAX;
    assert!(!s.check_step(&idle(16), &levels, Difficulty::Normal));
    s.lives = 3;
    s.level_idx = 3;
    assert!(!s.check_step(&idle(16), &levels, Difficulty::Normal));
    assert!(check_heading(vec2(-1000, 1000)));
    assert!(!check_heading(vec2(-1001, 0)));
}

#[test]
fn levels_that_cannot_be_scaled_or_loaded_cannot_be_played() {
    let levels = get_levels();
    for d in [Difficulty::Easy, Difficulty::Normal, Difficulty::Hard] {
        assert!(is_playable(&levels, d));
    }
    assert!(is_playable(&Vec::new(), Difficulty::Hard));
    let base = levels[0];
    assert!(is_loadable(&base));
    assert!(is_loadable(&LevelConfig { asteroid_count: 0, ..base }));
    assert!(is_loadable(&LevelConfig { ufo_spawn_chance: 1_170_000, ..base }));
    assert!(is_loadable(&LevelConfig { ufo_spawn_chance: -1, ..base }));
    assert!(!is_loadable(&LevelConfig { asteroid_speed_range: (2001, 2000), ..base }));
    assert!(!is_loadable(&LevelConfig { asteroid_speed_range: (i32::MIN, 0), ..base }));
    assert!(is_loadable(&LevelConfig { asteroid_size_mult: 42_949_672, ..base }));
    assert!(!is_loadable(&LevelConfig { asteroid_size_mult: 42_949_673, ..base }));
    assert!(is_loadable(&LevelConfig { asteroid_size_mult: -42_949_672, ..base }));
    assert!(!is_loadable(&LevelConfig { asteroid_size_mult: -42_949_673, ..base }));
    let fast = LevelConfig { ufo_speed: i32::MAX, ..base };
    assert!(fast.is_scalable(1000, 1000));
    assert!(!fast.is_scalable(1001, 1000));
    assert!(is_playable(&vec![fast], Difficulty::Normal));
    assert!(!is_playable(&vec![base, fast], Difficulty::Hard));
    assert!(fits_scaled(i32::MAX, 1000));
    assert!(fits_scaled(i32::MIN, 1000));
    assert!(!fits_scaled(i32::MIN, -1000));
    assert!(fits_scaled(i32::MIN, -999));
    assert!(!fits_scaled(i32::MAX, i32::MAX));
}

#[test]
fn the_screens_follow_the_keys() {
    let none = MenuKeys { enter: false, s: false, p: false, escape: false };
    let mut screens = Screens::new();
    assert_eq!(screens, Screens { state: GameState::Title, origin: SettingsOrigin::Title });
    assert_eq!(screens.on_keys(&none), MenuAction::Nothing);
    assert_eq!(screens.state, GameState::Title);
    assert_eq!(screens.on_keys(&MenuKeys { escape: true, ..none }), MenuAction::Quit);
    assert_eq!(screens.on_keys(&MenuKeys { s: true, enter: true, ..none }), MenuAction::Nothing);
    assert_eq!(screens.state, GameState::Settings);
    assert_eq!(screens.on_keys(&MenuKeys { p: true, s: true, ..none }), MenuAction::Nothing);
    assert_eq!(screens.state, GameState::Settings);
    assert_eq!(screens.on_keys(&MenuKeys { enter: true, ..none }), MenuAction::SaveSettings);
    assert_eq!(screens.state, GameState::Title);
    assert_eq!(screens.on_keys(&MenuKeys { enter: true, ..none }), MenuAction::Nothing);
    assert_eq!(screens.state, GameState::Playing);
    assert_eq!(screens.on_keys(&MenuKeys { p: true, escape: true, ..none }), MenuAction::Quit);
    assert_eq!(screens.state, GameState::Playing);
    assert_eq!(screens.on_keys(&MenuKeys { p: true, ..none }), MenuAction::Nothing);
    assert_eq!(screens.state, GameState::Paused);
    assert_eq!(screens.on_keys(&MenuKeys { s: true, ..none }), MenuAction::Nothing);
    assert_eq!(screens, Screens { state: GameState::Settings, origin: SettingsOrigin::Pause });
    assert_eq!(screens.on_keys(&MenuKeys { escape: true, ..none }), MenuAction::SaveSettings);
    assert_eq!(screens.state, GameState::Paused);
    assert_eq!(screens.on_keys(&MenuKeys { p: true, ..none }), MenuAction::Nothing);
    assert_eq!(screens.state, GameState::Playing);
    screens.state = GameState::Paused;
    assert_eq!(screens.on_keys(&MenuKeys { p: true, s: true, escape: true, ..none }), MenuAction::Nothing);
    assert_eq!(screens.state, GameState::Title);
}

#[test]
fn the_settings_screen_changes_the_settings() {
    let none = SettingsKeys { left: false, right: false, up: false, down: false, f: false };
    let mut s = Settings::default();
    s.adjust(&none);
    assert_eq!(s, Settings::default());
    s.adjust(&SettingsKeys { left: true, ..none });
    assert_eq!(s.volume, 750);
    s.adjust(&SettingsKeys { right: true, up: true, f: true, ..none });
    assert_eq!(s, Settings { volume: 800, difficulty: Difficulty::Hard, show_fps: true });
    for _ in 0..5 {
        s.adjust(&SettingsKeys { right: true, ..none });
    }
    assert_eq!(s.volume, 1000);
    s.adjust(&SettingsKeys { left: true, right: true, up: true, down: true, f: true });
    assert_eq!(s, Settings { volume: 1000, difficulty: Difficulty::Hard, show_fps: false });
    s.volume = 20;
    s.adjust(&SettingsKeys { left: true, down: true, ..none });
    assert_eq!(s, Settings { volume: 0, difficulty: Difficulty::Normal, show_fps: false });
    s.adjust(&SettingsKeys { left: true, right: true, ..none });
    assert_eq!(s.volume, 50);
    assert_eq!(clamp_to_volume(-1), 0);
    assert_eq!(clamp_to_volume(1001), 1000);
    assert_eq!(clamp_to_volume(i64::MAX), 1000);
    assert_eq!(clamp_to_volume(333), 333);
}

#[test]
fn the_workshop_changes_the_ship_within_bounds() {
    let none = DesignKeys { left: false, right: false, up: false, down: false, c: false };
    let mut p: Player = Session::new(screen()).player;
    p.vel = vec2(5, 5);
    p.enter_design();
    assert_eq!(p.vel, vec2(0, 0));
    p.design(&DesignKeys { left: true, down: true, ..none });
    assert_eq!((p.sides, p.radius), (3, 14_000));
    for _ in 0..10 {
        p.design(&DesignKeys { right: true, ..none });
    }
    assert_eq!(p.sides, 8);
    for _ in 0..60 {
        p.design(&DesignKeys { up: true, ..none });
    }
    assert_eq!(p.radius, 50_000);
    for _ in 0..60 {
        p.design(&DesignKeys { down: true, left: true, ..none });
    }
    assert_eq!((p.sides, p.radius), (3, 5000));
    p.design(&DesignKeys { left: true, right: true, up: true, down: true, ..none });
    assert_eq!((p.sides, p.radius), (3, 5000));
    let mut seen = vec![p.color];
    for _ in 0..9 {
        p.design(&DesignKeys { c: true, ..none });
        seen.push(p.color);
    }
    assert_eq!(
        seen,
        vec![
            Tint::White,
            Tint::Red,
            Tint::Orange,
            Tint::Yellow,
            Tint::Green,
            Tint::SkyBlue,
            Tint::Blue,
            Tint::Purple,
            Tint::Pink,
            Tint::White,
        ]
    );
    assert_eq!(Tint::Gray.next(), Tint::White);
}

#[test]
fn input_is_taken_in_order() {
    let mut s = Session::new(screen());
    s.player.invulnerable = true;
    s.player.invulnerable_timer = 16;
    s.player.vel = vec2(1000, 0);
    let input = FrameInput {
        dt: 16,
        heading: vec2(0, 1000),
        thrust: true,
        fire: true,
        hyperspace: false,
    };
    s.take_input(&input, screen());
    assert!(!s.player.invulnerable);
    assert_eq!(s.player.invulnerable_timer, 0);
    assert_eq!(s.player.heading, vec2(0, 1000));
    assert_eq!(s.player.vel, vec2(1000, 150));
    assert_eq!(s.player.pos, vec2(400_000, 300_000));
    assert_eq!(s.bullets.len(), 1);
    assert_eq!(s.bullets[0].pos, vec2(400_000, 315_000));
    assert_eq!(s.bullets[0].vel, vec2(0, 8000));
    assert_eq!(s.effects.len(), 2);
    let jump = FrameInput { thrust: false, fire: true, hyperspace: true, ..input };
    s.take_input(&jump, screen());
    // The bullet leaves from where the ship was before it jumped.
    assert_eq!(s.bullets[1].pos, vec2(400_000, 315_000));
    assert_eq!(s.player.vel, vec2(0, 0));
    assert_eq!(s.effects.len(), 5);
    assert_eq!(s.take_effects()[4], asteroids_core::session::Effect::Sound(Cue::Warp));
}

#[test]
fn the_halves_of_a_frame_can_be_played_one_by_one() {
    let levels = get_levels();
    let mut s = Session::start(&levels, Difficulty::Normal, screen());
    s.asteroids.clear();
    s.asteroids.push(Asteroid { vel: vec2(-1000, 0), ..rock(420_000, 300_000, 16_000) });
    let input = idle(16);
    assert!(s.is_wf(screen()) && s.check_step(&input, &levels, Difficulty::Normal));
    let played = s.begin_frame(&input, &levels, Difficulty::Normal, screen());
    assert_eq!(played.asteroid_count, 4);
    assert_eq!(played.asteroid_speed_range, (1000, 2000));
    assert_eq!(s.asteroids[0].pos, vec2(420_000, 300_000));
    s.move_entities(input.dt, played.ufo_speed, screen());
    assert_eq!(s.asteroids[0].pos, vec2(419_000, 300_000));
    assert_eq!(s.lives, 3);
    s.finish_frame(screen());
    // The asteroid has reached the ship: 19 units apart, radii of 15 and 16.
    assert_eq!(s.lives, 2);
    assert!(s.player.invulnerable);
    assert_eq!(s.asteroids.len(), 2);
    assert!(s.asteroids.iter().all(|a| a.radius == 8000 && a.pos == vec2(419_000, 300_000)));
    assert!(s.is_wf(screen()));
}

#[test]
fn a_level_whose_scaled_spawn_chance_passes_certainty_is_played() {
    let levels = vec![LevelConfig { ufo_spawn_chance: 900_000, ufo_speed: 2000, ..get_levels()[0] }];
    assert_eq!(levels[0].validate(0), Ok(()));
    assert!(is_playable(&levels, Difficulty::Hard));
    assert_eq!(levels[0].scaled(1200, 1300).ufo_spawn_chance, 1_170_000);
    let mut s = Session::start(&levels, Difficulty::Hard, screen());
    assert_eq!(s.asteroids.len(), 4);
    assert!(s.check_step(&idle(16), &levels, Difficulty::Hard));
    assert!(s.try_step(&idle(16), &levels, Difficulty::Hard, screen()));
    assert!(s.is_wf(screen()));
    // Past certainty a saucer appears whenever none is about.
    let mut alone = Session::start(&levels, Difficulty::Hard, screen());
    assert!(alone.maybe_spawn_ufo(&levels[0].scaled(1200, 1300), screen()));
    assert_eq!(alone.ufos.len(), 1);
}
