use asteroids_core::bridge::{poll_particles, Bridge, BridgeState};
use asteroids_core::components::Tint;
use asteroids_core::particles::{
    batch_size, clamp_count, generate_batch, generate_particle, make_particle, Particle,
    ParticleInit, ParticleSystem, SpawnRequest,
};
use asteroids_core::physics::Vec2;

fn vec2(x: i32, y: i32) -> Vec2 {
    Vec2 { x, y }
}

fn init(life: i32) -> ParticleInit {
    ParticleInit { pos: vec2(0, 0), vel: vec2(1000, 0), life, color: Tint::White, size: 1000 }
}

#[test]
fn test_clamp_count() {
    assert_eq!(clamp_count(0, 1, 10), 1);
    assert_eq!(clamp_count(5, 1, 10), 5);
    assert_eq!(clamp_count(50, 1, 10), 10);
}

#[test]
fn test_particle_update_culls_dead() {
    let mut system = ParticleSystem::new();
    system.spawn_batch(vec![ParticleInit {
        pos: vec2(0, 0),
        vel: vec2(1000, 0),
        life: 50,
        color: Tint::White,
        size: 1000,
    }]);
    system.update(100);
    assert_eq!(system.len(), 0);
}

#[test]
fn clamp_count_with_crossed_bounds_ends_at_the_upper_one() {
    assert_eq!(clamp_count(5, 10, 1), 1);
    assert_eq!(clamp_count(0, 10, 1), 1);
    assert_eq!(clamp_count(7, 7, 7), 7);
}

#[test]
fn batches_hold_between_one_and_250_particles() {
    let req = |count| SpawnRequest {
        pos: vec2(0, 0),
        color: Tint::Gray,
        count,
        speed: 1000,
        life: 1000,
        size: 1000,
    };
    assert_eq!(batch_size(&req(0)), 1);
    assert_eq!(batch_size(&req(1)), 1);
    assert_eq!(batch_size(&req(28)), 28);
    assert_eq!(batch_size(&req(250)), 250);
    assert_eq!(batch_size(&req(251)), 250);
    assert_eq!(batch_size(&req(usize::MAX)), 250);
}

#[test]
fn a_particle_lives_until_its_life_is_used_up() {
    let mut system = ParticleSystem::new();
    system.spawn_batch(vec![init(100), init(101), init(0), init(-5)]);
    assert_eq!(system.len(), 4);
    system.update(100);
    assert_eq!(system.len(), 1);
    let p = system.get(0);
    assert_eq!(p.life, 1);
    assert_eq!(p.max_life, 101);
    assert_eq!(p.pos, vec2(100, 0));
    system.update(1);
    assert_eq!(system.len(), 0);
}

#[test]
fn particles_move_by_their_speed_per_second() {
    let mut system = ParticleSystem::new();
    system.spawn_batch(vec![ParticleInit {
        pos: vec2(10, -10),
        vel: vec2(-2500, 1999),
        life: 1000,
        color: Tint::Red,
        size: 3,
    }]);
    system.update(16);
    let p = system.get(0);
    assert_eq!(p.pos, vec2(10 - 40, -10 + 31));
    assert_eq!(p.vel, vec2(-2500, 1999));
    assert_eq!(p.life, 984);
    assert_eq!(p.max_life, 1000);
    assert_eq!(p.color, Tint::Red);
    assert_eq!(p.size, 3);
}

#[test]
fn fading_is_measured_against_at_least_ten_milliseconds() {
    let mut system = ParticleSystem::new();
    system.spawn_batch(vec![init(5), init(10), init(11)]);
    assert_eq!(system.get(0).max_life, 10);
    assert_eq!(system.get(1).max_life, 10);
    assert_eq!(system.get(2).max_life, 11);
    assert_eq!(system.get(0).alpha(), 500);
}

#[test]
fn opacity_is_the_part_of_life_that_is_left() {
    let p = |life, max_life| Particle {
        pos: vec2(0, 0),
        vel: vec2(0, 0),
        life,
        max_life,
        color: Tint::White,
        size: 1,
    };
    assert_eq!(p(900, 900).alpha(), 1000);
    assert_eq!(p(450, 900).alpha(), 500);
    assert_eq!(p(1, 3).alpha(), 333);
    assert_eq!(p(0, 900).alpha(), 0);
    assert_eq!(p(-20, 900).alpha(), 0);
    assert_eq!(p(1200, 900).alpha(), 1000);
    assert_eq!(p(i32::MAX - 1, i32::MAX).alpha(), 999);
}

#[test]
fn a_particle_is_made_of_its_draws() {
    let req = SpawnRequest {
        pos: vec2(7, 9),
        color: Tint::Orange,
        count: 30,
        speed: 160_000,
        life: 900,
        size: 3000,
    };
    let made = make_particle(&req, vec2(600, -800), 100_000, 700, 2000);
    assert_eq!(
        made,
        ParticleInit {
            pos: vec2(7, 9),
            vel: vec2(60_000, -80_000),
            life: 700,
            color: Tint::Orange,
            size: 2000,
        }
    );
}

#[test]
fn drawn_particles_stay_in_their_ranges_and_differ() {
    let req = SpawnRequest {
        pos: vec2(7, 9),
        color: Tint::Orange,
        count: 30,
        speed: 160_000,
        life: 900,
        size: 3000,
    };
    let mut lives = Vec::new();
    for _ in 0..200 {
        let p = generate_particle(&req, vec2(1000, 0));
        assert_eq!(p.pos, vec2(7, 9));
        assert_eq!(p.color, Tint::Orange);
        assert!(80_000 <= p.vel.x && p.vel.x < 160_000);
        assert_eq!(p.vel.y, 0);
        assert!(540 <= p.life && p.life < 900);
        assert!(1800 <= p.size && p.size < 3600);
        lives.push(p.life);
    }
    assert!(lives.iter().any(|&l| l != 540));
    assert!(lives.iter().any(|&l| l != lives[0]));
}

#[test]
fn a_batch_has_one_particle_for_each_heading() {
    let req = SpawnRequest {
        pos: vec2(1, 2),
        color: Tint::Yellow,
        count: 8,
        speed: 80_000,
        life: 250,
        size: 2000,
    };
    let dirs: Vec<Vec2> = (0..8).map(|k| if k % 2 == 0 { vec2(0, 1000) } else { vec2(-1000, 0) }).collect();
    let batch = generate_batch(&req, &dirs);
    assert_eq!(batch.len(), 8);
    for (k, p) in batch.iter().enumerate() {
        assert_eq!(p.pos, vec2(1, 2));
        assert_eq!(p.color, Tint::Yellow);
        if k % 2 == 0 {
            assert_eq!(p.vel.x, 0);
            assert!(40_000 <= p.vel.y && p.vel.y < 80_000);
        } else {
            assert_eq!(p.vel.y, 0);
            assert!(-80_000 < p.vel.x && p.vel.x <= -40_000);
        }
        assert!(150 <= p.life && p.life < 250);
        assert!(1200 <= p.size && p.size < 2400);
    }
}

#[test]
fn the_smallest_request_can_be_drawn() {
    let req = SpawnRequest { pos: vec2(0, 0), color: Tint::Gray, count: 0, speed: 1, life: 1, size: 1 };
    let batch = generate_batch(&req, &vec![vec2(1000, 0)]);
    assert_eq!(batch.len(), 1);
    assert_eq!(batch[0].vel, vec2(0, 0));
    assert_eq!(batch[0].life, 0);
    assert_eq!(batch[0].size, 0);
}

#[test]
fn batches_merge_in_arrival_order_without_loss() {
    let mut system = ParticleSystem::new();
    let mut bridge = Bridge::new();
    let batches: Vec<Vec<ParticleInit>> =
        vec![vec![init(100), init(200)], vec![], vec![init(300)], vec![init(400), init(500), init(600)]];
    for _ in 0..batches.len() {
        bridge.submit();
    }
    assert_eq!(bridge.state(), BridgeState::Pending);
    assert_eq!(bridge.outstanding, 4);
    // Frames without a result come between the arrivals.
    for batch in batches {
        poll_particles(&mut bridge, &mut system, None);
        poll_particles(&mut bridge, &mut system, None);
        poll_particles(&mut bridge, &mut system, Some(batch));
    }
    assert_eq!(bridge.state(), BridgeState::Idle);
    assert_eq!(system.len(), 6);
    for k in 0..6 {
        assert_eq!(system.get(k).life, 100 * (k as i32 + 1));
    }
    poll_particles(&mut bridge, &mut system, None);
    assert_eq!(system.len(), 6);
}
