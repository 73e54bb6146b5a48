use crate::components::{Asteroid, Bullet, BulletOwner, Player, Tint, Ufo};
use crate::particles::SpawnRequest;
use crate::physics::Vec2;
use vstd::prelude::*;

verus! {

/// An asteroid with a greater radius than this breaks in two when destroyed.
pub const SPLIT_THRESHOLD: i32 = 15_000;

/// Points for an asteroid shot by the player.
pub const ASTEROID_REWARD: u32 = 100;

/// Points for a saucer shot by the player.
pub const UFO_REWARD: u32 = 500;

/// Milliseconds of invulnerability after a respawn.
pub const INVULNERABLE_MS: i32 = 3000;

/// Greatest speed, along one axis, of a piece of a broken asteroid.
pub const CHILD_SPEED: i32 = 2000;

/// Lives at the start of a game.
pub const START_LIVES: i32 = 3;

/// A named sound.
#[derive(Clone, Copy, Debug, PartialEq, Eq, Structural)]
pub enum Cue {
    Shoot,
    Bang,
    Warp,
}

/// The name under which the sound of a cue is kept.
pub open spec fn cue_name(cue: Cue) -> Seq<char> {
    match cue {
        Cue::Shoot => "shoot"@,
        Cue::Bang => "bang"@,
        Cue::Warp => "warp"@,
    }
}

impl Cue {
    /// The name under which the cue's sound is kept.
    pub fn name(&self) -> (name: &'static str)
        ensures
            name@ == cue_name(*self),
    {
        match self {
            Cue::Shoot => "shoot",
            Cue::Bang => "bang",
            Cue::Warp => "warp",
        }
    }
}

/// Something the simulation asks its surroundings to do.
#[derive(Clone, Copy, Debug, PartialEq, Eq, Structural)]
pub enum Effect {
    Sound(Cue),
    Particles(SpawnRequest),
}

/// A broken asteroid and its two pieces, waiting to join the field.
#[derive(Clone, Copy, Debug, PartialEq, Eq, Structural)]
pub struct Split {
    pub parent: Asteroid,
    pub first: Asteroid,
    pub second: Asteroid,
}

/// The state of one game.
pub struct Session {
    pub player: Player,
    pub bullets: Vec<Bullet>,
    pub asteroids: Vec<Asteroid>,
    pub ufos: Vec<Ufo>,
    /// Asteroids broken in the current frame; their pieces join `asteroids`
    /// when the frame is cleaned up.
    pub pending: Vec<Split>,
    /// Effects asked for and not yet collected.
    pub effects: Vec<Effect>,
    pub score: u32,
    pub lives: i32,
    /// The last extra-life milestone that was paid out.
    pub last_extra_life_score: u32,
    pub level_idx: usize,
    pub game_over: bool,
    pub game_won: bool,
}

/// What collisions read and change, as mathematical values. The position of
/// an invulnerable ship is left out: nothing can hit it.
pub struct Field {
    pub player: Player,
    pub bullets: Seq<Bullet>,
    pub asteroids: Seq<Asteroid>,
    pub ufos: Seq<Ufo>,
    /// The asteroids that broke in two, in the order in which they broke.
    pub splits: Seq<Asteroid>,
    pub effects: Seq<Effect>,
    pub score: int,
    pub lives: int,
    pub game_over: bool,
}

/// The ship with its position left out while it is invulnerable.
pub open spec fn settled(p: Player) -> Player {
    if p.invulnerable {
        Player { pos: Vec2 { x: 0, y: 0 }, ..p }
    } else {
        p
    }
}

/// The burst of rubble where the player shot an asteroid.
pub open spec fn rubble_burst(pos: Vec2) -> SpawnRequest {
    SpawnRequest { pos, color: Tint::Gray, count: 28, speed: 120_000, life: 900, size: 2500 }
}

/// The burst where the player shot a saucer.
pub open spec fn saucer_burst(pos: Vec2) -> SpawnRequest {
    SpawnRequest { pos, color: Tint::Red, count: 32, speed: 140_000, life: 800, size: 3000 }
}

/// The burst where the ship was hit.
pub open spec fn ship_burst(pos: Vec2) -> SpawnRequest {
    SpawnRequest { pos, color: Tint::Orange, count: 30, speed: 160_000, life: 900, size: 3000 }
}

/// The burst where a saucer ran into an asteroid.
pub open spec fn crash_burst(pos: Vec2) -> SpawnRequest {
    SpawnRequest { pos, color: Tint::Gray, count: 24, speed: 120_000, life: 800, size: 2500 }
}

/// The flash at the muzzle when the player fires.
pub open spec fn muzzle_flash(pos: Vec2) -> SpawnRequest {
    SpawnRequest { pos, color: Tint::Yellow, count: 8, speed: 80_000, life: 250, size: 2000 }
}

/// Builds the request for the burst of rubble where the player shot an
/// asteroid.
pub fn request_rubble(pos: Vec2) -> (req: SpawnRequest)
    ensures
        req == rubble_burst(pos),
{
    SpawnRequest { pos, color: Tint::Gray, count: 28, speed: 120_000, life: 900, size: 2500 }
}

/// Builds the request for the burst where the player shot a saucer.
pub fn request_saucer_burst(pos: Vec2) -> (req: SpawnRequest)
    ensures
        req == saucer_burst(pos),
{
    SpawnRequest { pos, color: Tint::Red, count: 32, speed: 140_000, life: 800, size: 3000 }
}

/// Builds the request for the burst where the ship was hit.
pub fn request_ship_burst(pos: Vec2) -> (req: SpawnRequest)
    ensures
        req == ship_burst(pos),
{
    SpawnRequest { pos, color: Tint::Orange, count: 30, speed: 160_000, life: 900, size: 3000 }
}

/// Builds the request for the burst where a saucer ran into an asteroid.
pub fn request_crash_burst(pos: Vec2) -> (req: SpawnRequest)
    ensures
        req == crash_burst(pos),
{
    SpawnRequest { pos, color: Tint::Gray, count: 24, speed: 120_000, life: 800, size: 2500 }
}

/// Builds the request for the flash at the muzzle when the player fires.
pub fn request_muzzle_flash(pos: Vec2) -> (req: SpawnRequest)
    ensures
        req == muzzle_flash(pos),
{
    SpawnRequest { pos, color: Tint::Yellow, count: 8, speed: 80_000, life: 250, size: 2000 }
}

/// A piece of `parent`: at its place, of half its radius, active, with a
/// speed and a shape of its own.
pub open spec fn child_of(child: Asteroid, parent: Asteroid) -> bool {
    &&& child.pos == parent.pos
    &&& child.radius == parent.radius / 2
    &&& child.active
    &&& -CHILD_SPEED <= child.vel.x <= CHILD_SPEED
    &&& -CHILD_SPEED <= child.vel.y <= CHILD_SPEED
    &&& 5 <= child.sides <= 8
}

/// The piece of `parent` that one set of draws gives.
pub open spec fn child_from_draws(parent: Asteroid, vel_x: i32, vel_y: i32, sides: u8) -> Asteroid {
    Asteroid {
        pos: parent.pos,
        vel: Vec2 { x: vel_x, y: vel_y },
        radius: (parent.radius / 2) as i32,
        active: true,
        sides,
    }
}

impl Field {
    /// Takes bullet `i` out of play.
    pub open spec fn spend_bullet(self, i: int) -> Field {
        Field { bullets: self.bullets.update(i, Bullet { active: false, ..self.bullets[i] }), ..self }
    }

    /// Takes asteroid `j` out of play, and notes it if it is large enough to
    /// break in two.
    pub open spec fn destroy_asteroid(self, j: int) -> Field {
        Field {
            asteroids: self.asteroids.update(j, Asteroid { active: false, ..self.asteroids[j] }),
            splits: if self.asteroids[j].radius > SPLIT_THRESHOLD {
                self.splits.push(self.asteroids[j])
            } else {
                self.splits
            },
            ..self
        }
    }

    /// Takes saucer `k` out of play.
    pub open spec fn destroy_ufo(self, k: int) -> Field {
        Field { ufos: self.ufos.update(k, Ufo { active: false, ..self.ufos[k] }), ..self }
    }

    /// Asks for an effect, behind those already asked for.
    pub open spec fn emit(self, effect: Effect) -> Field {
        Field { effects: self.effects.push(effect), ..self }
    }

    /// Adds points to the score.
    pub open spec fn award(self, points: int) -> Field {
        Field { score: self.score + points, ..self }
    }

    /// The ship is hit: a life is lost, and either the game is over or the
    /// ship starts again elsewhere, at rest and invulnerable.
    pub open spec fn hurt_player(self) -> Field {
        let lives = self.lives - 1;
        let noted = self.emit(Effect::Sound(Cue::Bang)).emit(
            Effect::Particles(ship_burst(self.player.pos)),
        );
        if lives <= 0 {
            Field { lives, game_over: true, ..noted }
        } else {
            Field {
                lives,
                player: settled(
                    Player {
                        vel: Vec2 { x: 0, y: 0 },
                        invulnerable: true,
                        invulnerable_timer: INVULNERABLE_MS,
                        ..self.player
                    },
                ),
                ..noted
            }
        }
    }

    /// Whether the ship can be hit and overlaps the given circle.
    pub open spec fn player_touches(self, pos: Vec2, radius: i32) -> bool {
        !self.player.invulnerable && crate::physics::circles_overlap(
            self.player.pos,
            self.player.radius,
            pos,
            radius,
        )
    }
}

/// Index of the first active asteroid from `from` on that overlaps the given
/// circle, or the number of asteroids if there is none.
pub open spec fn first_overlap(pos: Vec2, radius: i32, asteroids: Seq<Asteroid>, from: int) -> int
    decreases asteroids.len() - from,
{
    if from < 0 || from >= asteroids.len() {
        asteroids.len() as int
    } else if asteroids[from].active && crate::physics::circles_overlap(
        pos,
        radius,
        asteroids[from].pos,
        asteroids[from].radius,
    ) {
        from
    } else {
        first_overlap(pos, radius, asteroids, from + 1)
    }
}

impl Field {
    /// Bullet `i` against the asteroids: the first active asteroid it overlaps
    /// is destroyed with it, and pays the player if the bullet is the player's.
    pub open spec fn bullet_vs_asteroids(self, i: int) -> Field {
        let b = self.bullets[i];
        let j = first_overlap(b.pos, 0, self.asteroids, 0);
        if !b.active || j >= self.asteroids.len() {
            self
        } else {
            let hit = self.spend_bullet(i).emit(Effect::Sound(Cue::Bang));
            let paid = if b.owner == BulletOwner::Player {
                hit.award(ASTEROID_REWARD as int).emit(
                    Effect::Particles(rubble_burst(self.asteroids[j].pos)),
                )
            } else {
                hit
            };
            paid.destroy_asteroid(j)
        }
    }

    /// Bullet `i` against saucer `k`.
    pub open spec fn bullet_vs_ufo(self, i: int, k: int) -> Field {
        let b = self.bullets[i];
        let u = self.ufos[k];
        if u.active && crate::physics::circles_overlap(b.pos, 0, u.pos, u.radius) {
            self.destroy_ufo(k).spend_bullet(i).emit(Effect::Sound(Cue::Bang)).award(
                UFO_REWARD as int,
            ).emit(Effect::Particles(saucer_burst(u.pos)))
        } else {
            self
        }
    }

    /// Bullet `i` against the first `n` saucers, in order.
    pub open spec fn bullet_vs_ufos(self, i: int, n: nat) -> Field
        decreases n,
    {
        if n == 0 {
            self
        } else {
            self.bullet_vs_ufos(i, (n - 1) as nat).bullet_vs_ufo(i, n - 1)
        }
    }

    /// Bullet `i` against the ship.
    pub open spec fn bullet_vs_player(self, i: int) -> Field {
        let b = self.bullets[i];
        if b.active && b.owner == BulletOwner::Ufo && self.player_touches(b.pos, 0) {
            self.spend_bullet(i).hurt_player()
        } else {
            self
        }
    }

    /// Everything bullet `i` can hit: an asteroid first, then, for a bullet of
    /// the player that is still in play, the saucers, and for one of a saucer,
    /// the ship.
    pub open spec fn bullet_step(self, i: int) -> Field {
        let a = self.bullet_vs_asteroids(i);
        let b = if a.bullets[i].active && a.bullets[i].owner == BulletOwner::Player {
            a.bullet_vs_ufos(i, a.ufos.len())
        } else {
            a
        };
        b.bullet_vs_player(i)
    }

    /// The first `n` bullets, in order.
    pub open spec fn bullets_pass(self, n: nat) -> Field
        decreases n,
    {
        if n == 0 {
            self
        } else {
            self.bullets_pass((n - 1) as nat).bullet_step(n - 1)
        }
    }

    /// The ship against asteroid `j`.
    pub open spec fn player_vs_asteroid(self, j: int) -> Field {
        let a = self.asteroids[j];
        if a.active && self.player_touches(a.pos, a.radius) {
            self.hurt_player().destroy_asteroid(j)
        } else {
            self
        }
    }

    /// The ship against the first `n` asteroids, in order.
    pub open spec fn player_vs_asteroids(self, n: nat) -> Field
        decreases n,
    {
        if n == 0 {
            self
        } else {
            self.player_vs_asteroids((n - 1) as nat).player_vs_asteroid(n - 1)
        }
    }

    /// Saucer `k` against asteroid `j`.
    pub open spec fn ufo_vs_asteroid(self, k: int, j: int) -> Field {
        let u = self.ufos[k];
        let a = self.asteroids[j];
        if a.active && crate::physics::circles_overlap(u.pos, u.radius, a.pos, a.radius) {
            self.destroy_ufo(k).destroy_asteroid(j).emit(Effect::Sound(Cue::Bang)).emit(
                Effect::Particles(crash_burst(a.pos)),
            )
        } else {
            self
        }
    }

    /// Saucer `k` against the first `n` asteroids, in order.
    pub open spec fn ufo_vs_asteroids(self, k: int, n: nat) -> Field
        decreases n,
    {
        if n == 0 {
            self
        } else {
            self.ufo_vs_asteroids(k, (n - 1) as nat).ufo_vs_asteroid(k, n - 1)
        }
    }

    /// Saucer `k`, if it is in play, against all asteroids.
    pub open spec fn ufo_step(self, k: int) -> Field {
        if self.ufos[k].active {
            self.ufo_vs_asteroids(k, self.asteroids.len())
        } else {
            self
        }
    }

    /// The first `n` saucers against the asteroids, in order.
    pub open spec fn ufos_pass(self, n: nat) -> Field
        decreases n,
    {
        if n == 0 {
            self
        } else {
            self.ufos_pass((n - 1) as nat).ufo_step(n - 1)
        }
    }

    /// The ship against saucer `k`.
    pub open spec fn player_vs_ufo(self, k: int) -> Field {
        let u = self.ufos[k];
        if u.active && self.player_touches(u.pos, u.radius) {
            self.destroy_ufo(k).hurt_player()
        } else {
            self
        }
    }

    /// The ship against the first `n` saucers, in order.
    pub open spec fn player_vs_ufos(self, n: nat) -> Field
        decreases n,
    {
        if n == 0 {
            self
        } else {
            self.player_vs_ufos((n - 1) as nat).player_vs_ufo(n - 1)
        }
    }

    /// All collisions of one frame: bullets first, then the ship against the
    /// asteroids, the saucers against the asteroids, and the ship against the
    /// saucers.
    pub open spec fn resolve(self) -> Field {
        self.bullets_pass(self.bullets.len()).player_vs_asteroids(
            self.asteroids.len(),
        ).ufos_pass(self.ufos.len()).player_vs_ufos(self.ufos.len())
    }
}

impl Session {
    /// The session as collisions see it.
    pub open spec fn field(&self) -> Field {
        Field {
            player: settled(self.player),
            bullets: self.bullets@,
            asteroids: self.asteroids@,
            ufos: self.ufos@,
            splits: self.pending@.map_values(|s: Split| s.parent),
            effects: self.effects@,
            score: self.score as int,
            lives: self.lives as int,
            game_over: self.game_over,
        }
    }

    /// Every pending piece is a piece of the asteroid it is noted under.
    pub open spec fn pending_ok(&self) -> bool {
        forall|k: int|
            0 <= k < self.pending@.len() ==> {
                &&& child_of((#[trigger] self.pending@[k]).first, self.pending@[k].parent)
                &&& child_of(self.pending@[k].second, self.pending@[k].parent)
            }
    }

    /// What collisions leave alone.
    pub open spec fn same_progress(&self, other: Session) -> bool {
        &&& self.last_extra_life_score == other.last_extra_life_score
        &&& self.level_idx == other.level_idx
        &&& self.game_won == other.game_won
    }
}

} // verus!
