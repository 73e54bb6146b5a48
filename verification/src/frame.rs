use crate::components::{Bullet, BulletOwner, Player, Tint};
use crate::particles::is_heading;
use crate::physics::{
    check_extra_life, lemma_scale_within, on_screen, scale, scale_spec, Vec2, EXTRA_LIFE_STEP,
};
use crate::random::draw_between;
use crate::session::{muzzle_flash, request_muzzle_flash, Cue, Effect, Session, START_LIVES};
use crate::store::{advance, advance_spec};
use vstd::prelude::*;

verus! {

/// Radius of the ship at the start of a game.
pub const PLAYER_RADIUS: i32 = 15_000;

/// What one frame of thrust adds to the ship's speed.
pub const THRUST: i32 = 150;

/// Part of its speed, in thousandths, that the ship keeps from frame to frame.
pub const FRICTION: i32 = 980;

/// Speed of the ship's bullets, per frame.
pub const BULLET_SPEED: i32 = 8000;

/// Milliseconds that a bullet of the ship lasts.
pub const BULLET_LIFETIME: i32 = 1500;

/// The ship at the start of a game: at rest in the middle of the screen,
/// heading right.
pub open spec fn fresh_player(screen: Vec2) -> Player {
    Player {
        pos: Vec2 { x: (screen.x / 2) as i32, y: (screen.y / 2) as i32 },
        vel: Vec2 { x: 0, y: 0 },
        heading: Vec2 { x: 1000, y: 0 },
        radius: PLAYER_RADIUS,
        active: true,
        sides: 3,
        color: Tint::White,
        invulnerable: false,
        invulnerable_timer: 0,
    }
}

/// The point at distance `reach` from `pos` along `heading`.
pub open spec fn muzzle_spec(pos: Vec2, heading: Vec2, reach: i32) -> Vec2 {
    Vec2 {
        x: (pos.x + scale_spec(heading.x as int, reach as int)) as i32,
        y: (pos.y + scale_spec(heading.y as int, reach as int)) as i32,
    }
}

/// Whether `muzzle_spec` can be represented.
pub open spec fn muzzle_fits(pos: Vec2, heading: Vec2, reach: i32) -> bool {
    &&& is_heading(heading)
    &&& reach > i32::MIN
    &&& i32::MIN <= pos.x + scale_spec(heading.x as int, reach as int) <= i32::MAX
    &&& i32::MIN <= pos.y + scale_spec(heading.y as int, reach as int) <= i32::MAX
}

/// `heading` stretched to the length `speed`.
pub open spec fn along(heading: Vec2, speed: i32) -> Vec2 {
    Vec2 {
        x: scale_spec(heading.x as int, speed as int) as i32,
        y: scale_spec(heading.y as int, speed as int) as i32,
    }
}

/// The bullet that the ship fires.
pub open spec fn player_bullet(p: Player) -> Bullet {
    Bullet {
        pos: muzzle_spec(p.pos, p.heading, p.radius),
        vel: along(p.heading, BULLET_SPEED),
        lifetime: BULLET_LIFETIME,
        active: true,
        owner: BulletOwner::Player,
    }
}

/// The ship after one frame of thrust along its heading.
pub open spec fn thrust_spec(p: Player) -> Player {
    Player {
        vel: Vec2 {
            x: (p.vel.x + scale_spec(p.heading.x as int, THRUST as int)) as i32,
            y: (p.vel.y + scale_spec(p.heading.y as int, THRUST as int)) as i32,
        },
        ..p
    }
}

/// Whether the ship's speed has room for one frame of thrust.
pub open spec fn can_thrust(p: Player) -> bool {
    &&& is_heading(p.heading)
    &&& i32::MIN <= p.vel.x + scale_spec(p.heading.x as int, THRUST as int) <= i32::MAX
    &&& i32::MIN <= p.vel.y + scale_spec(p.heading.y as int, THRUST as int) <= i32::MAX
}

/// The ship after one frame of coasting: moved, wrapped and slowed.
pub open spec fn coast_spec(p: Player, screen: Vec2) -> Player {
    Player {
        pos: advance_spec(p.pos, p.vel, screen),
        vel: Vec2 {
            x: scale_spec(p.vel.x as int, FRICTION as int) as i32,
            y: scale_spec(p.vel.y as int, FRICTION as int) as i32,
        },
        ..p
    }
}

/// The ship after `dt` milliseconds of its invulnerability have passed: the
/// protection ends when its time is up.
pub open spec fn countdown_spec(p: Player, dt: i32) -> Player {
    if p.invulnerable {
        Player {
            invulnerable_timer: (p.invulnerable_timer - dt) as i32,
            invulnerable: p.invulnerable_timer - dt > 0,
            ..p
        }
    } else {
        p
    }
}

/// Whether the score has reached the next extra-life milestone.
pub open spec fn extra_life_due(s: Session) -> bool {
    s.score >= s.last_extra_life_score + EXTRA_LIFE_STEP
}

/// How a session `after` the extra-life rule relates to the session `before`
/// it: where a life was due, there is one life more, the milestone has moved
/// by one step and a sound is asked for; nothing else has changed.
pub open spec fn extra_life_paid(before: Session, after: Session) -> bool {
    &&& after.lives == before.lives + (if extra_life_due(before) { 1int } else { 0int })
    &&& after.last_extra_life_score == before.last_extra_life_score + (if extra_life_due(before) {
        EXTRA_LIFE_STEP as int
    } else {
        0int
    })
    &&& after.effects@ == (if extra_life_due(before) {
        before.effects@.push(Effect::Sound(Cue::Warp))
    } else {
        before.effects@
    })
    &&& after.player == before.player
    &&& after.bullets == before.bullets
    &&& after.asteroids == before.asteroids
    &&& after.ufos == before.ufos
    &&& after.pending == before.pending
    &&& after.score == before.score
    &&& after.level_idx == before.level_idx
    &&& after.game_over == before.game_over
    &&& after.game_won == before.game_won
}

/// Stretches a heading to a length.
pub fn stretch(heading: Vec2, speed: i32) -> (v: Vec2)
    requires
        is_heading(heading),
        speed > i32::MIN,
    ensures
        v == along(heading, speed),
        v.x == scale_spec(heading.x as int, speed as int),
        v.y == scale_spec(heading.y as int, speed as int),
{
    proof {
        let bound = if speed >= 0 { speed as int } else { -speed as int };
        lemma_scale_within(speed as int, heading.x as int, bound);
        lemma_scale_within(speed as int, heading.y as int, bound);
    }
    Vec2 { x: scale(heading.x, speed), y: scale(heading.y, speed) }
}

/// The point at distance `reach` from `pos` along `heading`.
pub fn muzzle(pos: Vec2, heading: Vec2, reach: i32) -> (at: Vec2)
    requires
        muzzle_fits(pos, heading, reach),
    ensures
        at == muzzle_spec(pos, heading, reach),
{
    let offset = stretch(heading, reach);
    Vec2 { x: pos.x + offset.x, y: pos.y + offset.y }
}

impl Session {
    /// A game at its start: full lives, no score, an empty field.
    pub fn new(screen: Vec2) -> (s: Session)
        requires
            screen.x >= 0,
            screen.y >= 0,
        ensures
            s.player == fresh_player(screen),
            s.bullets@.len() == 0,
            s.asteroids@.len() == 0,
            s.ufos@.len() == 0,
            s.pending@.len() == 0,
            s.effects@.len() == 0,
            s.score == 0,
            s.lives == START_LIVES,
            s.last_extra_life_score == 0,
            s.level_idx == 0,
            !s.game_over,
            !s.game_won,
    {
        Session {
            player: Player {
                pos: Vec2 { x: screen.x / 2, y: screen.y / 2 },
                vel: Vec2 { x: 0, y: 0 },
                heading: Vec2 { x: 1000, y: 0 },
                radius: PLAYER_RADIUS,
                active: true,
                sides: 3,
                color: Tint::White,
                invulnerable: false,
                invulnerable_timer: 0,
            },
            bullets: Vec::new(),
            asteroids: Vec::new(),
            ufos: Vec::new(),
            pending: Vec::new(),
            effects: Vec::new(),
            score: 0,
            lives: START_LIVES,
            last_extra_life_score: 0,
            level_idx: 0,
            game_over: false,
            game_won: false,
        }
    }

    /// Hands over the effects asked for since the last call.
    pub fn take_effects(&mut self) -> (taken: Vec<Effect>)
        ensures
            taken@ == old(self).effects@,
            final(self).effects@.len() == 0,
            final(self).player == old(self).player,
            final(self).bullets == old(self).bullets,
            final(self).asteroids == old(self).asteroids,
            final(self).ufos == old(self).ufos,
            final(self).pending == old(self).pending,
            final(self).score == old(self).score,
            final(self).lives == old(self).lives,
            final(self).last_extra_life_score == old(self).last_extra_life_score,
            final(self).level_idx == old(self).level_idx,
            final(self).game_over == old(self).game_over,
            final(self).game_won == old(self).game_won,
    {
        let mut taken: Vec<Effect> = Vec::new();
        std::mem::swap(&mut taken, &mut self.effects);
        taken
    }

    /// Pays out an extra life when the score has reached the next milestone:
    /// one life and one milestone per call.
    pub fn award_extra_life(&mut self) -> (earned: bool)
        requires
            old(self).last_extra_life_score + EXTRA_LIFE_STEP <= u32::MAX,
            old(self).lives < i32::MAX,
        ensures
            earned == extra_life_due(*old(self)),
            extra_life_paid(*old(self), *final(self)),
    {
        let earned = check_extra_life(self.score, &mut self.last_extra_life_score);
        if earned {
            self.lives += 1;
            self.effects.push(Effect::Sound(Cue::Warp));
        }
        earned
    }
}

impl Player {
    /// Lets `dt` milliseconds of invulnerability pass.
    pub fn tick_invulnerability(&mut self, dt: i32)
        requires
            i32::MIN <= old(self).invulnerable_timer - dt <= i32::MAX,
        ensures
            *final(self) == countdown_spec(*old(self), dt),
    {
        if self.invulnerable {
            self.invulnerable_timer -= dt;
            if self.invulnerable_timer <= 0 {
                self.invulnerable = false;
            }
        }
    }

    /// Speeds the ship up along its heading.
    pub fn thrust(&mut self)
        requires
            can_thrust(*old(self)),
        ensures
            *final(self) == thrust_spec(*old(self)),
    {
        let push = stretch(self.heading, THRUST);
        self.vel = Vec2 { x: self.vel.x + push.x, y: self.vel.y + push.y };
    }

    /// Moves the ship by one frame, wraps it round the screen and slows it.
    pub fn coast(&mut self, screen: Vec2)
        ensures
            *final(self) == coast_spec(*old(self), screen),
            screen.x >= 0 && screen.y >= 0 ==> on_screen(final(self).pos, screen.x, screen.y),
    {
        proof {
            let bx = if self.vel.x >= 0 { self.vel.x as int } else { -self.vel.x as int };
            let by = if self.vel.y >= 0 { self.vel.y as int } else { -self.vel.y as int };
            lemma_scale_within(self.vel.x as int, FRICTION as int, bx);
            lemma_scale_within(self.vel.y as int, FRICTION as int, by);
        }
        self.pos = advance(self.pos, self.vel, screen);
        self.vel = Vec2 { x: scale(self.vel.x, FRICTION), y: scale(self.vel.y, FRICTION) };
    }
}

impl Session {
    /// The ship fires: a bullet leaves its nose, with a sound and a flash.
    pub fn fire(&mut self)
        requires
            muzzle_fits(old(self).player.pos, old(self).player.heading, old(self).player.radius),
        ensures
            final(self).bullets@ == old(self).bullets@.push(player_bullet(old(self).player)),
            final(self).effects@ == old(self).effects@.push(Effect::Sound(Cue::Shoot)).push(
                Effect::Particles(muzzle_flash(player_bullet(old(self).player).pos)),
            ),
            final(self).player == old(self).player,
            final(self).asteroids == old(self).asteroids,
            final(self).ufos == old(self).ufos,
            final(self).pending == old(self).pending,
            final(self).score == old(self).score,
            final(self).lives == old(self).lives,
            final(self).last_extra_life_score == old(self).last_extra_life_score,
            final(self).level_idx == old(self).level_idx,
            final(self).game_over == old(self).game_over,
            final(self).game_won == old(self).game_won,
    {
        self.effects.push(Effect::Sound(Cue::Shoot));
        let at = muzzle(self.player.pos, self.player.heading, self.player.radius);
        self.bullets.push(
            Bullet {
                pos: at,
                vel: stretch(self.player.heading, BULLET_SPEED),
                lifetime: BULLET_LIFETIME,
                active: true,
                owner: BulletOwner::Player,
            },
        );
        self.effects.push(Effect::Particles(request_muzzle_flash(at)));
    }

    /// The ship jumps to a random place on the screen and comes to rest, with
    /// a sound.
    pub fn hyperspace(&mut self, screen: Vec2)
        requires
            screen.x >= 0,
            screen.y >= 0,
        ensures
            on_screen(final(self).player.pos, screen.x, screen.y),
            final(self).player == (Player {
                pos: final(self).player.pos,
                vel: Vec2 { x: 0, y: 0 },
                ..old(self).player
            }),
            final(self).effects@ == old(self).effects@.push(Effect::Sound(Cue::Warp)),
            final(self).bullets == old(self).bullets,
            final(self).asteroids == old(self).asteroids,
            final(self).ufos == old(self).ufos,
            final(self).pending == old(self).pending,
            final(self).score == old(self).score,
            final(self).lives == old(self).lives,
            final(self).last_extra_life_score == old(self).last_extra_life_score,
            final(self).level_idx == old(self).level_idx,
            final(self).game_over == old(self).game_over,
            final(self).game_won == old(self).game_won,
    {
        self.effects.push(Effect::Sound(Cue::Warp));
        self.player.pos = Vec2 { x: draw_between(0, screen.x), y: draw_between(0, screen.y) };
        self.player.vel = Vec2 { x: 0, y: 0 };
    }
}

} // verus!
