use crate::components::{Asteroid, Bullet, BulletOwner, Player, Ufo};
use crate::physics::{check_collision, circles_overlap, on_screen, Vec2};
use crate::random::draw_between;
use crate::session::{
    child_from_draws, child_of, crash_burst, first_overlap, request_crash_burst, request_rubble,
    request_saucer_burst, request_ship_burst, rubble_burst, Cue, Effect, Field, Session, Split,
    ASTEROID_REWARD, CHILD_SPEED, INVULNERABLE_MS, SPLIT_THRESHOLD, UFO_REWARD,
};
use vstd::prelude::*;

verus! {

/// How a session `after` some collisions relates to the session `before`
/// them, where `target` is what the collisions make of it: everything that
/// collisions decide is as in `target`, the pending pieces are pieces of their
/// asteroids, and the ship is where it was unless it has respawned, and then
/// it is on the screen. With it goes what holds of collisions whatever they
/// decide: `only_marked`.
pub open spec fn resolved(before: Session, after: Session, target: Field, screen: Vec2) -> bool {
    &&& after.field() == target
    &&& after.pending_ok()
    &&& after.same_progress(before)
    &&& ship_kept(before.player, after.player, screen)
    &&& only_marked(before, after)
}

/// What collisions leave of the ship: its shape and heading as they were; its
/// speed and protection either as they were or as a respawn sets them; and
/// its place as it was unless it has respawned, and then on the screen.
pub open spec fn ship_kept(before: Player, after: Player, screen: Vec2) -> bool {
    &&& after.radius == before.radius
    &&& after.heading == before.heading
    &&& after.sides == before.sides
    &&& after.color == before.color
    &&& after.active == before.active
    &&& ({
        ||| {
            &&& after.vel == before.vel
            &&& after.invulnerable == before.invulnerable
            &&& after.invulnerable_timer == before.invulnerable_timer
        }
        ||| {
            &&& after.vel == (Vec2 { x: 0, y: 0 })
            &&& after.invulnerable
            &&& after.invulnerable_timer == INVULNERABLE_MS
        }
    })
    &&& (before.invulnerable ==> after.invulnerable)
    &&& (after.invulnerable == before.invulnerable ==> after.pos == before.pos)
    &&& (after.pos == before.pos || on_screen(after.pos, screen.x, screen.y))
}

/// What holds of every collision: nothing joins or leaves the field, and an
/// entity changes in nothing but in going out of play; the score does not
/// fall, the lives do not rise, and the game is over from the hit that takes
/// the last life; no effect that was asked for is lost.
pub open spec fn only_marked(before: Session, after: Session) -> bool {
    &&& after.bullets@.len() == before.bullets@.len()
    &&& after.asteroids@.len() == before.asteroids@.len()
    &&& after.ufos@.len() == before.ufos@.len()
    &&& (forall|i: int|
        0 <= i < before.bullets@.len() ==> (#[trigger] after.bullets@[i]) == (Bullet {
            active: after.bullets@[i].active && before.bullets@[i].active,
            ..before.bullets@[i]
        }))
    &&& (forall|i: int|
        0 <= i < before.asteroids@.len() ==> (#[trigger] after.asteroids@[i]) == (Asteroid {
            active: after.asteroids@[i].active && before.asteroids@[i].active,
            ..before.asteroids@[i]
        }))
    &&& (forall|i: int|
        0 <= i < before.ufos@.len() ==> (#[trigger] after.ufos@[i]) == (Ufo {
            active: after.ufos@[i].active && before.ufos@[i].active,
            ..before.ufos@[i]
        }))
    &&& after.score >= before.score
    &&& after.lives <= before.lives
    &&& (before.game_over ==> after.game_over)
    &&& (after.game_over ==> before.game_over || after.lives <= 0)
    &&& (before.game_over || before.lives >= 1 ==> after.game_over || after.lives >= 1)
    &&& after.effects@.len() >= before.effects@.len()
}

/// Builds a piece of a breaking asteroid from one set of draws.
pub fn make_child(parent: &Asteroid, vel_x: i32, vel_y: i32, sides: u8) -> (child: Asteroid)
    requires
        parent.radius > SPLIT_THRESHOLD,
    ensures
        child == child_from_draws(*parent, vel_x, vel_y, sides),
{
    Asteroid {
        pos: parent.pos,
        vel: Vec2 { x: vel_x, y: vel_y },
        radius: parent.radius / 2,
        active: true,
        sides,
    }
}

/// Draws one piece of a breaking asteroid.
pub fn spawn_child(parent: &Asteroid) -> (child: Asteroid)
    requires
        parent.radius > SPLIT_THRESHOLD,
    ensures
        child_of(child, *parent),
{
    let vel_x = draw_between(-CHILD_SPEED, CHILD_SPEED);
    let vel_y = draw_between(-CHILD_SPEED, CHILD_SPEED);
    let sides = draw_between(5, 9);
    make_child(parent, vel_x, vel_y, sides as u8)
}

/// Breaks a destroyed asteroid: one that is larger than the threshold leaves
/// two pieces, any other leaves nothing.
pub fn split_asteroid(parent: &Asteroid) -> (pieces: Option<Split>)
    ensures
        pieces is Some <==> parent.radius > SPLIT_THRESHOLD,
        pieces is Some ==> {
            &&& pieces->Some_0.parent == *parent
            &&& child_of(pieces->Some_0.first, *parent)
            &&& child_of(pieces->Some_0.second, *parent)
        },
{
    if parent.radius > SPLIT_THRESHOLD {
        let first = spawn_child(parent);
        let second = spawn_child(parent);
        Some(Split { parent: *parent, first, second })
    } else {
        None
    }
}

/// The pieces of an asteroid do not depend on how it moved.
pub proof fn lemma_child_ignores_parent_velocity(
    parent: Asteroid,
    other_vel: Vec2,
    vel_x: i32,
    vel_y: i32,
    sides: u8,
)
    ensures
        child_from_draws(Asteroid { vel: other_vel, ..parent }, vel_x, vel_y, sides)
            == child_from_draws(parent, vel_x, vel_y, sides),
        child_from_draws(parent, vel_x, vel_y, sides).vel == (Vec2 { x: vel_x, y: vel_y }),
{
}

/// Finds the first active asteroid that overlaps a circle.
pub fn find_first_overlap(pos: Vec2, radius: i32, asteroids: &Vec<Asteroid>) -> (j: usize)
    ensures
        j == first_overlap(pos, radius, asteroids@, 0),
        j <= asteroids@.len(),
        j < asteroids@.len() ==> asteroids@[j as int].active && circles_overlap(
            pos,
            radius,
            asteroids@[j as int].pos,
            asteroids@[j as int].radius,
        ),
{
    let mut j: usize = 0;
    while j < asteroids.len()
        invariant
            j <= asteroids@.len(),
            first_overlap(pos, radius, asteroids@, 0) == first_overlap(
                pos,
                radius,
                asteroids@,
                j as int,
            ),
        decreases asteroids@.len() - j,
    {
        if asteroids[j].active && check_collision(pos, radius, asteroids[j].pos, asteroids[j].radius) {
            return j;
        }
        j += 1;
    }
    j
}

impl Session {
    /// Takes asteroid `j` out of play and breaks it if it is large enough.
    pub fn destroy_asteroid(&mut self, j: usize, screen: Vec2)
        requires
            j < old(self).asteroids@.len(),
            old(self).pending_ok(),
        ensures
            resolved(*old(self), *final(self), old(self).field().destroy_asteroid(j as int), screen),
            final(self).player == old(self).player,
    {
        let parent = self.asteroids[j];
        self.asteroids[j].active = false;
        match split_asteroid(&parent) {
            Some(pieces) => {
                self.pending.push(pieces);
            },
            None => {},
        }
        proof {
            let target = old(self).field().destroy_asteroid(j as int);
            assert(self.field().asteroids =~= target.asteroids);
            assert(self.field().splits =~= target.splits);
        }
    }

    /// The ship is hit.
    pub fn hurt_player(&mut self, screen: Vec2)
        requires
            !old(self).player.invulnerable,
            old(self).lives > i32::MIN,
            old(self).pending_ok(),
            screen.x >= 0,
            screen.y >= 0,
        ensures
            resolved(*old(self), *final(self), old(self).field().hurt_player(), screen),
    {
        self.effects.push(Effect::Sound(Cue::Bang));
        self.lives -= 1;
        self.effects.push(Effect::Particles(request_ship_burst(self.player.pos)));
        if self.lives <= 0 {
            self.game_over = true;
        } else {
            self.player.pos = Vec2 { x: draw_between(0, screen.x), y: draw_between(0, screen.y) };
            self.player.vel = Vec2 { x: 0, y: 0 };
            self.player.invulnerable = true;
            self.player.invulnerable_timer = INVULNERABLE_MS;
        }
        assert(self.field() =~= old(self).field().hurt_player());
    }

    /// Bullet `i` against the asteroids.
    pub fn bullet_vs_asteroids(&mut self, i: usize, screen: Vec2)
        requires
            i < old(self).bullets@.len(),
            old(self).pending_ok(),
            old(self).score + ASTEROID_REWARD <= u32::MAX,
        ensures
            resolved(
                *old(self),
                *final(self),
                old(self).field().bullet_vs_asteroids(i as int),
                screen,
            ),
            final(self).player == old(self).player,
            final(self).lives == old(self).lives,
            old(self).score <= final(self).score <= old(self).score + ASTEROID_REWARD,
            final(self).score > old(self).score ==> !final(self).bullets@[i as int].active,
    {
        if !self.bullets[i].active {
            return ;
        }
        let j = find_first_overlap(self.bullets[i].pos, 0, &self.asteroids);
        if j < self.asteroids.len() {
            let owner = self.bullets[i].owner;
            let at = self.asteroids[j].pos;
            self.bullets[i].active = false;
            self.effects.push(Effect::Sound(Cue::Bang));
            if owner == BulletOwner::Player {
                self.score += ASTEROID_REWARD;
                self.effects.push(Effect::Particles(request_rubble(at)));
            }
            proof {
                let f = old(self).field();
                let hit = f.spend_bullet(i as int).emit(Effect::Sound(Cue::Bang));
                let paid = if owner == BulletOwner::Player {
                    hit.award(ASTEROID_REWARD as int).emit(
                        Effect::Particles(rubble_burst(at)),
                    )
                } else {
                    hit
                };
                assert(self.field() =~= paid);
            }
            self.destroy_asteroid(j, screen);
        }
    }

    /// Bullet `i`, one of the player's that is in play, against the saucers.
    pub fn bullet_vs_ufos(&mut self, i: usize, screen: Vec2)
        requires
            i < old(self).bullets@.len(),
            old(self).pending_ok(),
            old(self).score + UFO_REWARD * old(self).ufos@.len() <= u32::MAX,
        ensures
            resolved(
                *old(self),
                *final(self),
                old(self).field().bullet_vs_ufos(i as int, old(self).ufos@.len()),
                screen,
            ),
            final(self).player == old(self).player,
            final(self).lives == old(self).lives,
            old(self).score <= final(self).score <= old(self).score + UFO_REWARD * old(self).ufos@.len(),
    {
        let mut k: usize = 0;
        while k < self.ufos.len()
            invariant
                i < self.bullets@.len(),
                k <= self.ufos@.len(),
                old(self).score + UFO_REWARD * old(self).ufos@.len() <= u32::MAX,
                resolved(
                    *old(self),
                    *self,
                    old(self).field().bullet_vs_ufos(i as int, k as nat),
                    screen,
                ),
                self.player == old(self).player,
                self.lives == old(self).lives,
                old(self).score <= self.score <= old(self).score + UFO_REWARD * k,
            decreases self.ufos@.len() - k,
        {
            let ghost before = self.field();
            let at = self.ufos[k].pos;
            if self.ufos[k].active && check_collision(
                self.bullets[i].pos,
                0,
                at,
                self.ufos[k].radius,
            ) {
                self.ufos[k].active = false;
                self.bullets[i].active = false;
                self.effects.push(Effect::Sound(Cue::Bang));
                self.score += UFO_REWARD;
                self.effects.push(Effect::Particles(request_saucer_burst(at)));
            }
            assert(self.field() =~= before.bullet_vs_ufo(i as int, k as int));
            k += 1;
        }
    }

    /// Bullet `i` against the ship.
    pub fn bullet_vs_player(&mut self, i: usize, screen: Vec2)
        requires
            i < old(self).bullets@.len(),
            old(self).pending_ok(),
            old(self).lives > i32::MIN,
            screen.x >= 0,
            screen.y >= 0,
        ensures
            resolved(*old(self), *final(self), old(self).field().bullet_vs_player(i as int), screen),
            final(self).score == old(self).score,
            old(self).lives - 1 <= final(self).lives <= old(self).lives,
    {
        proof {
            crate::physics::lemma_overlap_symmetric(
                self.bullets@[i as int].pos,
                0,
                self.player.pos,
                self.player.radius,
            );
        }
        if self.bullets[i].active && self.bullets[i].owner == BulletOwner::Ufo
            && !self.player.invulnerable && check_collision(
            self.bullets[i].pos,
            0,
            self.player.pos,
            self.player.radius,
        ) {
            self.bullets[i].active = false;
            assert(self.field() =~= old(self).field().spend_bullet(i as int));
            self.hurt_player(screen);
        }
    }

    /// Everything bullet `i` can hit.
    pub fn bullet_step(&mut self, i: usize, screen: Vec2)
        requires
            i < old(self).bullets@.len(),
            old(self).pending_ok(),
            old(self).ufos@.len() <= 1,
            old(self).score + UFO_REWARD <= u32::MAX,
            old(self).lives > i32::MIN,
            screen.x >= 0,
            screen.y >= 0,
        ensures
            resolved(*old(self), *final(self), old(self).field().bullet_step(i as int), screen),
            old(self).score <= final(self).score <= old(self).score + UFO_REWARD,
            old(self).lives - 1 <= final(self).lives <= old(self).lives,
    {
        self.bullet_vs_asteroids(i, screen);
        if self.bullets[i].active && self.bullets[i].owner == BulletOwner::Player {
            self.bullet_vs_ufos(i, screen);
        }
        self.bullet_vs_player(i, screen);
    }

    /// All bullets, in order.
    pub fn bullets_pass(&mut self, screen: Vec2)
        requires
            old(self).pending_ok(),
            old(self).ufos@.len() <= 1,
            old(self).score + UFO_REWARD * old(self).bullets@.len() <= u32::MAX,
            old(self).lives - old(self).bullets@.len() >= i32::MIN,
            screen.x >= 0,
            screen.y >= 0,
        ensures
            resolved(
                *old(self),
                *final(self),
                old(self).field().bullets_pass(old(self).bullets@.len()),
                screen,
            ),
            old(self).score <= final(self).score <= old(self).score + UFO_REWARD * old(self).bullets@.len(),
            old(self).lives - old(self).bullets@.len() <= final(self).lives <= old(self).lives,
    {
        let mut i: usize = 0;
        while i < self.bullets.len()
            invariant
                i <= self.bullets@.len(),
                screen.x >= 0,
                screen.y >= 0,
                old(self).score + UFO_REWARD * old(self).bullets@.len() <= u32::MAX,
                old(self).lives - old(self).bullets@.len() >= i32::MIN,
                self.ufos@.len() <= 1,
                resolved(*old(self), *self, old(self).field().bullets_pass(i as nat), screen),
                old(self).score <= self.score <= old(self).score + UFO_REWARD * i,
                old(self).lives - i <= self.lives <= old(self).lives,
            decreases self.bullets@.len() - i,
        {
            self.bullet_step(i, screen);
            i += 1;
        }
    }
    /// The ship against every asteroid, in order.
    pub fn player_vs_asteroids(&mut self, screen: Vec2)
        requires
            old(self).pending_ok(),
            old(self).lives - old(self).asteroids@.len() >= i32::MIN,
            screen.x >= 0,
            screen.y >= 0,
        ensures
            resolved(
                *old(self),
                *final(self),
                old(self).field().player_vs_asteroids(old(self).asteroids@.len()),
                screen,
            ),
            final(self).score == old(self).score,
            old(self).lives - old(self).asteroids@.len() <= final(self).lives <= old(self).lives,
    {
        let mut j: usize = 0;
        while j < self.asteroids.len()
            invariant
                j <= self.asteroids@.len(),
                screen.x >= 0,
                screen.y >= 0,
                old(self).lives - old(self).asteroids@.len() >= i32::MIN,
                resolved(
                    *old(self),
                    *self,
                    old(self).field().player_vs_asteroids(j as nat),
                    screen,
                ),
                self.score == old(self).score,
                old(self).lives - j <= self.lives <= old(self).lives,
            decreases self.asteroids@.len() - j,
        {
            if self.asteroids[j].active && !self.player.invulnerable && check_collision(
                self.player.pos,
                self.player.radius,
                self.asteroids[j].pos,
                self.asteroids[j].radius,
            ) {
                self.hurt_player(screen);
                self.destroy_asteroid(j, screen);
            }
            j += 1;
        }
    }

    /// Saucer `k` against every asteroid, in order.
    pub fn ufo_vs_asteroids(&mut self, k: usize, screen: Vec2)
        requires
            k < old(self).ufos@.len(),
            old(self).pending_ok(),
        ensures
            resolved(
                *old(self),
                *final(self),
                old(self).field().ufo_vs_asteroids(k as int, old(self).asteroids@.len()),
                screen,
            ),
            final(self).score == old(self).score,
            final(self).lives == old(self).lives,
            final(self).player == old(self).player,
    {
        let mut j: usize = 0;
        while j < self.asteroids.len()
            invariant
                j <= self.asteroids@.len(),
                k < self.ufos@.len(),
                resolved(
                    *old(self),
                    *self,
                    old(self).field().ufo_vs_asteroids(k as int, j as nat),
                    screen,
                ),
                self.score == old(self).score,
                self.lives == old(self).lives,
                self.player == old(self).player,
            decreases self.asteroids@.len() - j,
        {
            let ghost before = self.field();
            let at = self.asteroids[j].pos;
            if self.asteroids[j].active && check_collision(
                self.ufos[k].pos,
                self.ufos[k].radius,
                at,
                self.asteroids[j].radius,
            ) {
                self.ufos[k].active = false;
                assert(self.field() =~= before.destroy_ufo(k as int));
                self.destroy_asteroid(j, screen);
                let ghost broken = self.field();
                self.effects.push(Effect::Sound(Cue::Bang));
                self.effects.push(Effect::Particles(request_crash_burst(at)));
                assert(self.field() =~= broken.emit(Effect::Sound(Cue::Bang)).emit(
                    Effect::Particles(crash_burst(at)),
                ));
            }
            j += 1;
        }
    }

    /// Every saucer that is in play against the asteroids, in order.
    pub fn ufos_pass(&mut self, screen: Vec2)
        requires
            old(self).pending_ok(),
        ensures
            resolved(
                *old(self),
                *final(self),
                old(self).field().ufos_pass(old(self).ufos@.len()),
                screen,
            ),
            final(self).score == old(self).score,
            final(self).lives == old(self).lives,
            final(self).player == old(self).player,
    {
        let mut k: usize = 0;
        while k < self.ufos.len()
            invariant
                k <= self.ufos@.len(),
                resolved(*old(self), *self, old(self).field().ufos_pass(k as nat), screen),
                self.score == old(self).score,
                self.lives == old(self).lives,
                self.player == old(self).player,
            decreases self.ufos@.len() - k,
        {
            if self.ufos[k].active {
                self.ufo_vs_asteroids(k, screen);
            }
            k += 1;
        }
    }

    /// The ship against every saucer, in order.
    pub fn player_vs_ufos(&mut self, screen: Vec2)
        requires
            old(self).pending_ok(),
            old(self).lives - old(self).ufos@.len() >= i32::MIN,
            screen.x >= 0,
            screen.y >= 0,
        ensures
            resolved(
                *old(self),
                *final(self),
                old(self).field().player_vs_ufos(old(self).ufos@.len()),
                screen,
            ),
            final(self).score == old(self).score,
            old(self).lives - old(self).ufos@.len() <= final(self).lives <= old(self).lives,
    {
        let mut k: usize = 0;
        while k < self.ufos.len()
            invariant
                k <= self.ufos@.len(),
                screen.x >= 0,
                screen.y >= 0,
                old(self).lives - old(self).ufos@.len() >= i32::MIN,
                resolved(*old(self), *self, old(self).field().player_vs_ufos(k as nat), screen),
                self.score == old(self).score,
                old(self).lives - k <= self.lives <= old(self).lives,
            decreases self.ufos@.len() - k,
        {
            let ghost before = self.field();
            if self.ufos[k].active && !self.player.invulnerable && check_collision(
                self.player.pos,
                self.player.radius,
                self.ufos[k].pos,
                self.ufos[k].radius,
            ) {
                self.ufos[k].active = false;
                assert(self.field() =~= before.destroy_ufo(k as int));
                self.hurt_player(screen);
            }
            k += 1;
        }
    }

    /// What `resolve_collisions` asks of a session: sound pending pieces, at
    /// most one saucer, and room in the score and in the lives for every hit
    /// that the frame can bring.
    pub open spec fn can_resolve(&self) -> bool {
        &&& self.pending_ok()
        &&& self.ufos@.len() <= 1
        &&& self.score + UFO_REWARD * self.bullets@.len() <= u32::MAX
        &&& self.lives - (self.bullets@.len() + self.asteroids@.len() + self.ufos@.len())
            >= i32::MIN
    }

    /// Finds and settles all collisions of one frame. Destroyed entities are
    /// only marked; `cleanup` removes them and lets the pending pieces in.
    pub fn resolve_collisions(&mut self, screen: Vec2)
        requires
            old(self).can_resolve(),
            screen.x >= 0,
            screen.y >= 0,
        ensures
            resolved(*old(self), *final(self), old(self).field().resolve(), screen),
    {
        self.bullets_pass(screen);
        self.player_vs_asteroids(screen);
        self.ufos_pass(screen);
        self.player_vs_ufos(screen);
    }
}

} // verus!
