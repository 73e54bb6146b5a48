use asteroids_core::components::{Asteroid, Bullet, BulletOwner, Player, Tint, Ufo};
use asteroids_core::config::{get_levels, LevelConfig};
use asteroids_core::frame::{muzzle, stretch};
use asteroids_core::level::{
    draw_spawn_candidates, is_safe_spawn, load_level, make_asteroid, pick_spawn_position,
    place_from, spawn_asteroid,
};
use asteroids_core::particles::SpawnRequest;
use asteroids_core::physics::Vec2;
use asteroids_core::session::{Cue, Effect, Session};
use asteroids_core::settings::Difficulty;
use asteroids_core::store::{advance, advance_coord, update_asteroids, update_bullets};
use asteroids_core::ufo::{choose_target, fly_ufo, make_ufo_bullet, turn_ufo};
use asteroids_core::wave::{decide_spawn, make_ufo};

fn vec2(x: i32, y: i32) -> Vec2 {
    Vec2 { x, y }
}

fn screen() -> Vec2 {
    vec2(800_000, 600_000)
}

#[test]
fn a_game_starts_with_three_lives_in_the_middle() {
    let s = Session::new(screen());
    assert_eq!(
        s.player,
        Player {
            pos: vec2(400_000, 300_000),
            vel: vec2(0, 0),
            heading: vec2(1000, 0),
            radius: 15_000,
            active: true,
            sides: 3,
            color: Tint::White,
            invulnerable: false,
            invulnerable_timer: 0,
        }
    );
    assert_eq!(s.lives, 3);
    assert_eq!(s.score, 0);
    assert_eq!(s.level_idx, 0);
    assert!(!s.game_over && !s.game_won);
    assert!(s.bullets.is_empty() && s.asteroids.is_empty() && s.ufos.is_empty());
}

#[test]
fn an_extra_life_is_paid_once_for_each_milestone() {
    let mut s = Session::new(screen());
    s.score = 2999;
    assert!(!s.award_extra_life());
    assert_eq!((s.lives, s.last_extra_life_score), (3, 0));
    s.score = 9000;
    assert!(s.award_extra_life());
    assert_eq!((s.lives, s.last_extra_life_score), (4, 3000));
    assert!(s.award_extra_life());
    assert!(s.award_extra_life());
    assert!(!s.award_extra_life());
    assert_eq!((s.lives, s.last_extra_life_score), (6, 9000));
    assert_eq!(s.take_effects(), vec![Effect::Sound(Cue::Warp); 3]);
    assert!(s.effects.is_empty());
}

#[test]
fn invulnerability_runs_out() {
    let mut p = Session::new(screen()).player;
    p.tick_invulnerability(500);
    assert_eq!(p.invulnerable_timer, 0);
    p.invulnerable = true;
    p.invulnerable_timer = 3000;
    p.tick_invulnerability(2999);
    assert!(p.invulnerable);
    assert_eq!(p.invulnerable_timer, 1);
    p.tick_invulnerability(1);
    assert!(!p.invulnerable);
    assert_eq!(p.invulnerable_timer, 0);
}

#[test]
fn thrust_and_coasting() {
    let mut p = Session::new(screen()).player;
    p.heading = vec2(600, -800);
    p.thrust();
    assert_eq!(p.vel, vec2(90, -120));
    p.vel = vec2(10_000, -5000);
    p.pos = vec2(795_000, 2000);
    p.coast(screen());
    assert_eq!(p.pos, vec2(0, 600_000));
    assert_eq!(p.vel, vec2(9800, -4900));
    p.vel = vec2(-49, 49);
    p.coast(screen());
    assert_eq!(p.pos, vec2(800_000, 0));
    assert_eq!(p.vel, vec2(-48, 48));
}

#[test]
fn firing_puts_a_bullet_at_the_nose() {
    let mut s = Session::new(screen());
    s.player.heading = vec2(0, -1000);
    s.fire();
    assert_eq!(
        s.bullets,
        vec![Bullet {
            pos: vec2(400_000, 285_000),
            vel: vec2(0, -8000),
            lifetime: 1500,
            active: true,
            owner: BulletOwner::Player,
        }]
    );
    assert_eq!(
        s.effects,
        vec![
            Effect::Sound(Cue::Shoot),
            Effect::Particles(SpawnRequest {
                pos: vec2(400_000, 285_000),
                color: Tint::Yellow,
                count: 8,
                speed: 80_000,
                life: 250,
                size: 2000,
            }),
        ]
    );
    assert_eq!(muzzle(vec2(10, 10), vec2(600, 800), 15_000), vec2(9010, 12_010));
    assert_eq!(stretch(vec2(-600, 800), 8000), vec2(-4800, 6400));
}

#[test]
fn hyperspace_lands_on_the_screen_at_rest() {
    let mut places = Vec::new();
    for _ in 0..100 {
        let mut s = Session::new(screen());
        s.player.vel = vec2(5, 5);
        s.hyperspace(screen());
        assert_eq!(s.player.vel, vec2(0, 0));
        assert!((0..=800_000).contains(&s.player.pos.x));
        assert!((0..=600_000).contains(&s.player.pos.y));
        assert_eq!(s.effects, vec![Effect::Sound(Cue::Warp)]);
        places.push(s.player.pos);
    }
    assert!(places.iter().any(|&p| p != vec2(0, 0)));
    assert!(places.iter().any(|&p| p != places[0]));
}

#[test]
fn positions_advance_and_wrap() {
    assert_eq!(advance_coord(10, 5, 100), 15);
    assert_eq!(advance_coord(98, 2, 100), 100);
    assert_eq!(advance_coord(98, 3, 100), 0);
    assert_eq!(advance_coord(1, -1, 100), 0);
    assert_eq!(advance_coord(1, -2, 100), 100);
    assert_eq!(advance_coord(i32::MAX, i32::MAX, i32::MAX), 0);
    assert_eq!(advance_coord(i32::MIN, i32::MIN, 7), 7);
    assert_eq!(advance(vec2(5, 5), vec2(-10, 10), vec2(20, 12)), vec2(20, 0));
}

#[test]
fn bullets_age_and_asteroids_drift() {
    let mut bullets = vec![
        Bullet { pos: vec2(0, 0), vel: vec2(8000, 0), lifetime: 16, active: true, owner: BulletOwner::Player },
        Bullet { pos: vec2(0, 0), vel: vec2(0, -1), lifetime: 17, active: true, owner: BulletOwner::Ufo },
        Bullet { pos: vec2(0, 0), vel: vec2(0, 0), lifetime: 500, active: false, owner: BulletOwner::Ufo },
    ];
    update_bullets(&mut bullets, 16, screen());
    assert_eq!(bullets[0].pos, vec2(8000, 0));
    assert_eq!(bullets[0].lifetime, 0);
    assert!(!bullets[0].active);
    assert_eq!(bullets[1].pos, vec2(0, 600_000));
    assert_eq!(bullets[1].lifetime, 1);
    assert!(bullets[1].active);
    assert!(!bullets[2].active);
    assert_eq!(bullets[2].lifetime, 484);
    let mut rocks =
        vec![Asteroid { pos: vec2(799_000, 1), vel: vec2(2000, -1), radius: 5, active: true, sides: 5 }];
    update_asteroids(&mut rocks, screen());
    assert_eq!(
        rocks,
        vec![Asteroid { pos: vec2(0, 0), vel: vec2(2000, -1), radius: 5, active: true, sides: 5 }]
    );
}

#[test]
fn the_exclusion_circle_is_150_wide_and_its_rim_is_inside() {
    assert!(!is_safe_spawn(vec2(400_000, 300_000), screen()));
    assert!(!is_safe_spawn(vec2(550_000, 300_000), screen()));
    assert!(is_safe_spawn(vec2(550_001, 300_000), screen()));
    assert!(!is_safe_spawn(vec2(490_000, 420_000), screen()));
    assert!(is_safe_spawn(vec2(490_000, 420_001), screen()));
    assert!(is_safe_spawn(vec2(0, 0), screen()));
}

#[test]
fn spawn_positions_are_safe_on_a_screen_with_room() {
    for _ in 0..200 {
        let (pos, rejected) = pick_spawn_position(screen());
        assert!((0..=800_000).contains(&pos.x));
        assert!((0..=600_000).contains(&pos.y));
        assert_eq!(is_safe_spawn(pos, screen()), rejected <= 50);
    }
}

#[test]
fn on_a_screen_without_room_placement_gives_up_after_51_rejections() {
    let tiny = vec2(1000, 1000);
    let (pos, rejected) = pick_spawn_position(tiny);
    assert_eq!(rejected, 51);
    assert!(!is_safe_spawn(pos, tiny));
    assert!((0..=1000).contains(&pos.x) && (0..=1000).contains(&pos.y));
}

#[test]
fn an_asteroid_is_made_of_its_draws() {
    let config = LevelConfig {
        asteroid_count: 1,
        asteroid_speed_range: (3000, 5000),
        asteroid_size_mult: 1200,
        ufo_spawn_chance: 0,
        ufo_speed: 0,
    };
    let a = make_asteroid(&config, vec2(1, 2), 3500, 0, 4000, 1, 40_001, 7);
    assert_eq!(
        a,
        Asteroid { pos: vec2(1, 2), vel: vec2(3500, -4000), radius: 48_001, active: true, sides: 7 }
    );
}

#[test]
fn a_level_is_loaded_with_its_asteroids() {
    let levels = get_levels();
    let config = levels[2].scaled(850, 700);
    let mut rocks = vec![Asteroid { pos: vec2(0, 0), vel: vec2(0, 0), radius: 1, active: false, sides: 3 }];
    let mut ufos = vec![make_ufo(5, 5)];
    load_level(&config, screen(), &mut rocks, &mut ufos);
    assert!(ufos.is_empty());
    assert_eq!(rocks.len(), 8);
    let mut speeds = Vec::new();
    for a in &rocks {
        assert!(a.active);
        assert!((5..=8).contains(&a.sides));
        assert!(is_safe_spawn(a.pos, screen()));
        assert!((2550..=4250).contains(&a.vel.x.abs()));
        assert!((2550..=4250).contains(&a.vel.y.abs()));
        assert!((36_000..=60_000).contains(&a.radius));
        speeds.push(a.vel.x.abs());
    }
    assert!(speeds.iter().any(|&v| v != 2550));
}

#[test]
fn drawn_asteroids_differ() {
    let config = get_levels()[0];
    let rocks: Vec<Asteroid> = (0..100).map(|_| spawn_asteroid(&config, screen())).collect();
    assert!(rocks.iter().any(|a| a.vel.x < 0));
    assert!(rocks.iter().any(|a| a.vel.x > 0));
    assert!(rocks.iter().any(|a| a.radius != 30_000));
    assert!(rocks.iter().any(|a| a.sides != 5));
    assert!(rocks.iter().all(|a| (30_000..=50_000).contains(&a.radius)));
}

#[test]
fn a_saucer_appears_by_chance_and_only_alone() {
    assert!(decide_spawn(0, 1));
    assert!(!decide_spawn(0, 0));
    assert!(!decide_spawn(2000, 2000));
    assert!(decide_spawn(1999, 2000));
    let never = LevelConfig { ufo_spawn_chance: 0, ..get_levels()[1] };
    let always = LevelConfig { ufo_spawn_chance: 1_000_000, ufo_speed: 2400, ..get_levels()[1] };
    let mut s = Session::new(screen());
    for _ in 0..200 {
        assert!(!s.maybe_spawn_ufo(&never, screen()));
    }
    assert!(s.ufos.is_empty() && s.effects.is_empty());
    assert!(s.maybe_spawn_ufo(&always, screen()));
    assert_eq!(s.ufos.len(), 1);
    let y = s.ufos[0].pos.y;
    assert!((0..=600_000).contains(&y));
    assert_eq!(
        s.ufos[0],
        Ufo {
            pos: vec2(0, y),
            vel: vec2(2400, 0),
            radius: 20_000,
            active: true,
            shoot_timer: 0,
            change_dir_timer: 0,
        }
    );
    assert_eq!(s.effects, vec![Effect::Sound(Cue::Warp)]);
    assert!(!s.maybe_spawn_ufo(&always, screen()));
    assert_eq!(s.ufos.len(), 1);
}

#[test]
fn a_clear_field_moves_on_to_the_next_level_and_then_to_victory() {
    let levels = get_levels();
    let mut s = Session::new(screen());
    s.asteroids.push(Asteroid { pos: vec2(0, 0), vel: vec2(0, 0), radius: 1, active: true, sides: 5 });
    assert!(!s.advance_level(&levels, Difficulty::Hard, screen()));
    assert_eq!(s.level_idx, 0);
    assert_eq!(s.asteroids.len(), 1);
    s.asteroids.clear();
    s.player.pos = vec2(1, 1);
    s.player.vel = vec2(7, 7);
    s.player.heading = vec2(0, 1000);
    s.bullets.push(Bullet { pos: vec2(0, 0), vel: vec2(0, 0), lifetime: 5, active: true, owner: BulletOwner::Player });
    s.score = 700;
    assert!(s.advance_level(&levels, Difficulty::Hard, screen()));
    assert_eq!(s.level_idx, 1);
    assert!(!s.game_won);
    assert_eq!(s.player.pos, vec2(400_000, 300_000));
    assert_eq!(s.player.vel, vec2(0, 0));
    assert_eq!(s.player.heading, vec2(0, 1000));
    assert!(s.bullets.is_empty());
    assert_eq!(s.asteroids.len(), 6);
    assert!(s.asteroids.iter().all(|a| (2400..=4200).contains(&a.vel.x.abs())));
    assert_eq!(s.score, 700);
    s.asteroids.clear();
    assert!(s.advance_level(&levels, Difficulty::Easy, screen()));
    assert_eq!(s.asteroids.len(), 8);
    s.asteroids.clear();
    s.bullets.push(Bullet { pos: vec2(0, 0), vel: vec2(0, 0), lifetime: 5, active: true, owner: BulletOwner::Player });
    let ship = s.player;
    assert!(s.advance_level(&levels, Difficulty::Easy, screen()));
    assert!(s.game_won);
    assert_eq!(s.level_idx, 3);
    assert_eq!(s.player, ship);
    assert_eq!(s.bullets.len(), 1);
    assert!(s.asteroids.is_empty());
}

#[test]
fn a_saucer_flies_turns_and_aims() {
    let u = make_ufo(100_000, 2000);
    let flown = fly_ufo(u, 16, screen());
    assert_eq!(flown.pos, vec2(2000, 100_000));
    assert_eq!((flown.shoot_timer, flown.change_dir_timer), (16, 16));
    let turned = turn_ufo(flown, -500, 3500);
    assert_eq!(turned.vel, vec2(2000, -1750));
    assert_eq!(turned.change_dir_timer, 0);
    assert_eq!(turned.shoot_timer, 16);
    assert_eq!(choose_target(0, Some(vec2(1, 1)), vec2(2, 2)), vec2(1, 1));
    assert_eq!(choose_target(1, Some(vec2(1, 1)), vec2(2, 2)), vec2(2, 2));
    assert_eq!(choose_target(2, Some(vec2(1, 1)), vec2(2, 2)), vec2(2, 2));
    assert_eq!(choose_target(0, None, vec2(2, 2)), vec2(2, 2));
    let b = make_ufo_bullet(&flown, vec2(2000 + 30_000, 100_000 + 40_000), screen());
    assert_eq!(
        b,
        Bullet {
            pos: vec2(2000 + 12_000, 100_000 + 16_000),
            vel: vec2(3600, 4800),
            lifetime: 2000,
            active: true,
            owner: BulletOwner::Ufo,
        }
    );
}

#[test]
fn a_saucer_shoots_and_turns_when_its_timers_run_over() {
    let mut s = Session::new(screen());
    s.ufos.push(make_ufo(300_000, 2000));
    s.ufos[0].shoot_timer = 1990;
    s.ufos[0].change_dir_timer = 1984;
    assert!(!s.update_ufos(10, 2000, screen()));
    assert_eq!(s.ufos[0].shoot_timer, 2000);
    assert_eq!(s.ufos[0].change_dir_timer, 1994);
    assert_eq!(s.ufos[0].vel, vec2(2000, 0));
    assert_eq!(s.ufos[0].pos, vec2(2000, 300_000));
    assert!(s.bullets.is_empty());
    assert!(s.update_ufos(10, 2000, screen()));
    assert_eq!(s.ufos[0].shoot_timer, 0);
    assert_eq!(s.ufos[0].change_dir_timer, 0);
    assert_eq!(s.ufos[0].vel.x, 2000);
    assert!((-2000..=2000).contains(&s.ufos[0].vel.y));
    assert_eq!(s.bullets.len(), 1);
    // No asteroid is about, so the saucer aims at the ship, straight to its right.
    assert_eq!(
        s.bullets[0],
        Bullet {
            pos: vec2(4000 + 20_000, 300_000),
            vel: vec2(6000, 0),
            lifetime: 2000,
            active: true,
            owner: BulletOwner::Ufo,
        }
    );
    assert_eq!(s.effects, vec![Effect::Sound(Cue::Shoot)]);
    let mut idle = Session::new(screen());
    assert!(!idle.update_ufos(5000, 2000, screen()));
    assert!(idle.bullets.is_empty());
}

#[test]
fn a_level_is_loaded_whatever_its_count_and_its_spawn_chance() {
    let odd = LevelConfig {
        asteroid_count: 0,
        asteroid_speed_range: (0, 0),
        asteroid_size_mult: 2000,
        ufo_spawn_chance: 5_000_000,
        ufo_speed: 0,
    };
    let mut rocks = vec![Asteroid { pos: vec2(0, 0), vel: vec2(0, 0), radius: 1, active: true, sides: 3 }];
    let mut ufos = vec![make_ufo(5, 5)];
    load_level(&odd, screen(), &mut rocks, &mut ufos);
    assert!(rocks.is_empty() && ufos.is_empty());
    let three = LevelConfig { asteroid_count: 3, ufo_spawn_chance: -7, ..odd };
    load_level(&three, screen(), &mut rocks, &mut ufos);
    assert_eq!(rocks.len(), 3);
    for a in &rocks {
        assert!(a.active);
        assert_eq!(a.vel, vec2(0, 0));
        assert!((60_000..=100_000).contains(&a.radius));
        assert!((5..=8).contains(&a.sides));
        assert!((0..=800_000).contains(&a.pos.x) && (0..=600_000).contains(&a.pos.y));
    }
}

#[test]
fn the_first_safe_candidate_is_taken() {
    let near = vec2(400_000, 300_000);
    let rim = vec2(550_000, 300_000);
    let far = vec2(10_000, 10_000);
    let further = vec2(790_000, 590_000);
    assert_eq!(place_from(&vec![far, further], screen()), (far, 0));
    assert_eq!(place_from(&vec![near, rim, further, far], screen()), (further, 2));
    assert_eq!(place_from(&vec![near], screen()), (near, 1));
    assert_eq!(place_from(&vec![near, rim], screen()), (rim, 2));
}

#[test]
fn after_51_rejections_the_51st_candidate_is_taken() {
    let near = vec2(400_000, 300_000);
    let far = vec2(10_000, 10_000);
    let mut run = vec![near; 50];
    run.push(vec2(410_000, 300_000));
    run.push(far);
    assert_eq!(place_from(&run, screen()), (vec2(410_000, 300_000), 51));
    run[50] = far;
    assert_eq!(place_from(&run, screen()), (far, 50));
    run[49] = vec2(0, 0);
    assert_eq!(place_from(&run, screen()), (vec2(0, 0), 49));
}

#[test]
fn candidates_are_drawn_up_to_the_first_safe_one() {
    let mut longest = 0;
    for _ in 0..300 {
        let drawn = draw_spawn_candidates(screen());
        assert!((1..=51).contains(&drawn.len()));
        let (last, before) = drawn.split_last().unwrap();
        assert!(before.iter().all(|&c| !is_safe_spawn(c, screen())));
        assert!(is_safe_spawn(*last, screen()) || drawn.len() == 51);
        assert!(drawn.iter().all(|c| (0..=800_000).contains(&c.x) && (0..=600_000).contains(&c.y)));
        assert_eq!(place_from(&drawn, screen()).0, *last);
        longest = longest.max(drawn.len());
    }
    // About one candidate in seven falls into the circle, so some run is longer than one.
    assert!(longest > 1);
    let tiny = vec2(1000, 1000);
    let drawn = draw_spawn_candidates(tiny);
    assert_eq!(drawn.len(), 51);
    assert!(drawn.iter().all(|&c| !is_safe_spawn(c, tiny)));
    assert_eq!(place_from(&drawn, tiny), (drawn[50], 51));
}
