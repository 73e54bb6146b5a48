use crate::components::{Bullet, BulletOwner, Ufo};
use crate::frame::{along, muzzle, muzzle_spec, stretch};
use crate::physics::{aim, aim_spec, lemma_scale_within, scale, scale_spec, Vec2};
use crate::random::draw_between;
use crate::session::{Cue, Effect, Session};
use crate::store::{advance, advance_spec};
use vstd::prelude::*;

verus! {

/// Milliseconds after which a saucer changes direction.
pub const CHANGE_DIR_MS: i32 = 2000;

/// Milliseconds after which a saucer shoots.
pub const SHOOT_MS: i32 = 2000;

/// Speed of a saucer's bullets, per frame.
pub const UFO_BULLET_SPEED: i32 = 6000;

/// Milliseconds that a saucer's bullet lasts.
pub const UFO_BULLET_LIFETIME: i32 = 2000;

/// A saucer after `dt` milliseconds of flight: moved, wrapped, its timers on.
pub open spec fn ufo_flown(u: Ufo, dt: i32, screen: Vec2) -> Ufo {
    Ufo {
        pos: advance_spec(u.pos, u.vel, screen),
        shoot_timer: (u.shoot_timer + dt) as i32,
        change_dir_timer: (u.change_dir_timer + dt) as i32,
        ..u
    }
}

/// A saucer that takes a new vertical speed: the part `sway`, in thousandths
/// and in either direction, of the level's saucer speed.
pub open spec fn ufo_turned(u: Ufo, sway: i32, speed: i32) -> Ufo {
    Ufo {
        vel: Vec2 { x: u.vel.x, y: scale_spec(sway as int, speed as int) as i32 },
        change_dir_timer: 0,
        ..u
    }
}

/// The bullet that a saucer fires at a target.
pub open spec fn ufo_bullet(u: Ufo, target: Vec2) -> Bullet {
    Bullet {
        pos: muzzle_spec(u.pos, aim_spec(u.pos, target), u.radius),
        vel: along(aim_spec(u.pos, target), UFO_BULLET_SPEED),
        lifetime: UFO_BULLET_LIFETIME,
        active: true,
        owner: BulletOwner::Ufo,
    }
}

/// What a saucer aims at: the first asteroid when there is one and the pick,
/// drawn from `0..3`, is zero, else the ship.
pub open spec fn target_spec(pick: i32, first_asteroid: Option<Vec2>, ship: Vec2) -> Vec2 {
    if first_asteroid is Some && pick == 0 {
        first_asteroid->Some_0
    } else {
        ship
    }
}

/// Whether a saucer on this screen can fly for `dt` milliseconds and fire.
pub open spec fn ufo_fits(u: Ufo, dt: i32, speed: i32, screen: Vec2) -> bool {
    &&& screen.x >= 0
    &&& screen.y >= 0
    &&& i32::MIN <= u.shoot_timer + dt <= i32::MAX
    &&& i32::MIN <= u.change_dir_timer + dt <= i32::MAX
    &&& speed > i32::MIN
    &&& 0 <= u.radius
    &&& screen.x + u.radius <= i32::MAX
    &&& screen.y + u.radius <= i32::MAX
}

/// How a saucer `after` a frame relates to the saucer `before` it: it has
/// flown, has turned if its time to turn had come, and has reset its shoot
/// timer if its time to shoot had come.
pub open spec fn ufo_updated(before: Ufo, after: Ufo, dt: i32, speed: i32, screen: Vec2) -> bool {
    let flown = ufo_flown(before, dt, screen);
    let turned = if flown.change_dir_timer > CHANGE_DIR_MS {
        Ufo { vel: Vec2 { x: flown.vel.x, y: after.vel.y }, change_dir_timer: 0, ..flown }
    } else {
        flown
    };
    &&& after == (Ufo {
        shoot_timer: if flown.shoot_timer > SHOOT_MS { 0 } else { flown.shoot_timer },
        ..turned
    })
    &&& (flown.change_dir_timer > CHANGE_DIR_MS ==> exists|sway: i32|
        -1000 <= sway <= 1000 && after.vel.y == #[trigger] scale_spec(sway as int, speed as int))
}

/// Moves a saucer by one frame and runs its timers on.
pub fn fly_ufo(u: Ufo, dt: i32, screen: Vec2) -> (flown: Ufo)
    requires
        i32::MIN <= u.shoot_timer + dt <= i32::MAX,
        i32::MIN <= u.change_dir_timer + dt <= i32::MAX,
    ensures
        flown == ufo_flown(u, dt, screen),
{
    Ufo {
        pos: advance(u.pos, u.vel, screen),
        shoot_timer: u.shoot_timer + dt,
        change_dir_timer: u.change_dir_timer + dt,
        ..u
    }
}

/// Gives a saucer a new vertical speed.
pub fn turn_ufo(u: Ufo, sway: i32, speed: i32) -> (turned: Ufo)
    requires
        -1000 <= sway <= 1000,
        speed > i32::MIN,
    ensures
        turned == ufo_turned(u, sway, speed),
        turned.vel.y == scale_spec(sway as int, speed as int),
{
    proof {
        let bound = if speed >= 0 { speed as int } else { -speed as int };
        lemma_scale_within(speed as int, sway as int, bound);
    }
    Ufo { vel: Vec2 { x: u.vel.x, y: scale(sway, speed) }, change_dir_timer: 0, ..u }
}

/// Picks what a saucer aims at.
pub fn choose_target(pick: i32, first_asteroid: Option<Vec2>, ship: Vec2) -> (target: Vec2)
    ensures
        target == target_spec(pick, first_asteroid, ship),
{
    match first_asteroid {
        Some(at) => {
            if pick == 0 {
                at
            } else {
                ship
            }
        },
        None => ship,
    }
}

/// Builds the bullet that a saucer fires at a target.
pub fn make_ufo_bullet(u: &Ufo, target: Vec2, screen: Vec2) -> (b: Bullet)
    requires
        0 <= u.pos.x <= screen.x,
        0 <= u.pos.y <= screen.y,
        0 <= u.radius,
        screen.x + u.radius <= i32::MAX,
        screen.y + u.radius <= i32::MAX,
    ensures
        b == ufo_bullet(*u, target),
{
    let dir = aim(u.pos, target);
    proof {
        lemma_scale_within(u.radius as int, dir.x as int, u.radius as int);
        lemma_scale_within(u.radius as int, dir.y as int, u.radius as int);
    }
    Bullet {
        pos: muzzle(u.pos, dir, u.radius),
        vel: stretch(dir, UFO_BULLET_SPEED),
        lifetime: UFO_BULLET_LIFETIME,
        active: true,
        owner: BulletOwner::Ufo,
    }
}

/// How a session `after` the saucer's frame relates to the session `before`
/// it, where there is at most one saucer. The saucer has flown and, where
/// its time had come, turned. Where its time to shoot had come, a sound is
/// asked for and its bullet is the last of the bullets, aimed at the ship or
/// at the first asteroid. Nothing else has changed.
pub open spec fn ufos_updated(
    before: Session,
    after: Session,
    dt: i32,
    speed: i32,
    screen: Vec2,
) -> bool {
    let fired = ufo_fires(before, dt);
    &&& after.ufos@.len() == before.ufos@.len()
    &&& (forall|i: int|
        0 <= i < before.ufos@.len() ==> ufo_updated(
            before.ufos@[i],
            #[trigger] after.ufos@[i],
            dt,
            speed,
            screen,
        ))
    &&& (fired ==> {
        &&& after.bullets@.len() == before.bullets@.len() + 1
        &&& after.bullets@.drop_last() == before.bullets@
        &&& exists|pick: i32|
            after.bullets@.last() == ufo_bullet(
                after.ufos@[0],
                #[trigger] target_spec(pick, before.first_asteroid_spec(), before.player.pos),
            )
        &&& after.effects@ == before.effects@.push(Effect::Sound(Cue::Shoot))
    })
    &&& (!fired ==> after.bullets@ == before.bullets@ && after.effects@ == before.effects@)
    &&& after.player == before.player
    &&& after.asteroids == before.asteroids
    &&& after.pending == before.pending
    &&& after.score == before.score
    &&& after.lives == before.lives
    &&& after.last_extra_life_score == before.last_extra_life_score
    &&& after.level_idx == before.level_idx
    &&& after.game_over == before.game_over
    &&& after.game_won == before.game_won
}

/// Whether the saucer's time to shoot comes in a frame of `dt` milliseconds.
pub open spec fn ufo_fires(s: Session, dt: i32) -> bool {
    s.ufos@.len() == 1 && s.ufos@[0].shoot_timer + dt > SHOOT_MS
}

impl Session {
    /// The position of the first asteroid, if there is one.
    pub open spec fn first_asteroid_spec(&self) -> Option<Vec2> {
        if self.asteroids@.len() > 0 {
            Some(self.asteroids@[0].pos)
        } else {
            None
        }
    }

    /// The position of the first asteroid, if there is one.
    pub fn first_asteroid(&self) -> (at: Option<Vec2>)
        ensures
            at == self.first_asteroid_spec(),
    {
        if self.asteroids.len() > 0 {
            Some(self.asteroids[0].pos)
        } else {
            None
        }
    }

    /// One frame of saucer `k`: it flies, turns when its time to turn has
    /// come, and when its time to shoot has come fires, with a sound, at the
    /// ship or, one time in three, at the first asteroid.
    pub fn update_ufo(&mut self, k: usize, dt: i32, speed: i32, screen: Vec2) -> (fired: bool)
        requires
            k < old(self).ufos@.len(),
            ufo_fits(old(self).ufos@[k as int], dt, speed, screen),
        ensures
            final(self).ufos@.len() == old(self).ufos@.len(),
            forall|i: int|
                0 <= i < old(self).ufos@.len() && i != k ==> final(self).ufos@[i]
                    == old(self).ufos@[i],
            ufo_updated(old(self).ufos@[k as int], final(self).ufos@[k as int], dt, speed, screen),
            fired == (old(self).ufos@[k as int].shoot_timer + dt > SHOOT_MS),
            fired ==> {
                &&& final(self).bullets@.len() == old(self).bullets@.len() + 1
                &&& final(self).bullets@.drop_last() == old(self).bullets@
                &&& exists|pick: i32|
                    final(self).bullets@.last() == ufo_bullet(
                        final(self).ufos@[k as int],
                        #[trigger] target_spec(
                            pick,
                            old(self).first_asteroid_spec(),
                            old(self).player.pos,
                        ),
                    )
                &&& final(self).effects@ == old(self).effects@.push(Effect::Sound(Cue::Shoot))
            },
            !fired ==> final(self).bullets@ == old(self).bullets@ && final(self).effects@
                == old(self).effects@,
            final(self).player == old(self).player,
            final(self).asteroids == old(self).asteroids,
            final(self).pending == old(self).pending,
            final(self).score == old(self).score,
            final(self).lives == old(self).lives,
            final(self).last_extra_life_score == old(self).last_extra_life_score,
            final(self).level_idx == old(self).level_idx,
            final(self).game_over == old(self).game_over,
            final(self).game_won == old(self).game_won,
    {
        let mut u = fly_ufo(self.ufos[k], dt, screen);
        let ghost flown = u;
        if u.change_dir_timer > CHANGE_DIR_MS {
            let sway = draw_between(-1000, 1000);
            u = turn_ufo(u, sway, speed);
        }
        let fired = u.shoot_timer > SHOOT_MS;
        if fired {
            u.shoot_timer = 0;
            self.effects.push(Effect::Sound(Cue::Shoot));
            let first = self.first_asteroid();
            let pick = draw_between(0, 3);
            let target = choose_target(pick, first, self.player.pos);
            let b = make_ufo_bullet(&u, target, screen);
            self.bullets.push(b);
            assert(self.bullets@.drop_last() =~= old(self).bullets@);
            assert(b == ufo_bullet(u, target_spec(pick, first, old(self).player.pos)));
        }
        self.ufos[k] = u;
        fired
    }

    /// One frame of every saucer; there is at most one.
    pub fn update_ufos(&mut self, dt: i32, speed: i32, screen: Vec2) -> (fired: bool)
        requires
            old(self).ufos@.len() <= 1,
            forall|i: int|
                0 <= i < old(self).ufos@.len() ==> ufo_fits(
                    #[trigger] old(self).ufos@[i],
                    dt,
                    speed,
                    screen,
                ),
        ensures
            fired == ufo_fires(*old(self), dt),
            ufos_updated(*old(self), *final(self), dt, speed, screen),
    {
        if self.ufos.len() > 0 {
            self.update_ufo(0, dt, speed, screen)
        } else {
            false
        }
    }
}

} // verus!
