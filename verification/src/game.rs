use crate::collision::{resolved, ship_kept};
use crate::session::{muzzle_flash, Cue, Effect};
use crate::components::{Asteroid, Bullet, Player, Ufo};
use crate::config::LevelConfig;
use crate::level::{freshly_spawned, load_level};
use crate::particles::is_heading;
use crate::physics::{lemma_scale_within, on_screen, Vec2, EXTRA_LIFE_STEP};
use crate::session::{Session, INVULNERABLE_MS, START_LIVES, UFO_REWARD};
use crate::settings::Difficulty;
use crate::frame::{
    can_thrust, coast_spec, countdown_spec, extra_life_paid, fresh_player, muzzle_fits,
    player_bullet, thrust_spec, THRUST,
};
use crate::store::{asteroid_after, bullet_after, cleaned, update_asteroids, update_bullets};
use crate::ufo::{ufos_updated, CHANGE_DIR_MS, SHOOT_MS, UFO_BULLET_LIFETIME};
use crate::wave::{
    is_playable, level_advanced, playable, played_at, recentred, ufo_spawn_tried,
};
use vstd::prelude::*;

verus! {

/// Greatest width and height of a screen.
pub const SCREEN_MAX: i32 = 1_000_000_000;

/// Greatest radius of the ship and of a saucer.
pub const RADIUS_MAX: i32 = 1_000_000_000;

/// Greatest number of milliseconds in one frame.
pub const TICK_MAX: i32 = 1_000_000_000;

/// Speed along one axis that thrust against friction cannot exceed.
pub const TOP_SPEED: i32 = 7500;

/// What the player does in one frame, and how long the frame lasts.
#[derive(Clone, Copy, Debug, PartialEq, Eq, Structural)]
pub struct FrameInput {
    /// Milliseconds since the last frame.
    pub dt: i32,
    /// The ship's heading after this frame's turning.
    pub heading: Vec2,
    pub thrust: bool,
    pub fire: bool,
    pub hyperspace: bool,
}

/// A bullet between frames: in play, with time left.
pub open spec fn bullet_ok(b: Bullet) -> bool {
    b.active && 0 < b.lifetime <= UFO_BULLET_LIFETIME
}

/// A saucer between frames: in play, of a size that fits, its timers not run
/// over.
pub open spec fn ufo_ok(u: Ufo) -> bool {
    &&& u.active
    &&& 0 <= u.radius <= RADIUS_MAX
    &&& 0 <= u.shoot_timer <= SHOOT_MS
    &&& 0 <= u.change_dir_timer <= CHANGE_DIR_MS
}

/// The ship between frames: on the largest screen, no faster than thrust can
/// make it.
pub open spec fn ship_ok(p: Player) -> bool {
    &&& on_screen(p.pos, SCREEN_MAX, SCREEN_MAX)
    &&& 0 <= p.radius <= RADIUS_MAX
    &&& -TOP_SPEED <= p.vel.x <= TOP_SPEED
    &&& -TOP_SPEED <= p.vel.y <= TOP_SPEED
    &&& is_heading(p.heading)
    &&& -TICK_MAX <= p.invulnerable_timer <= INVULNERABLE_MS
    &&& (p.invulnerable ==> p.invulnerable_timer > 0)
}

/// A bullet within a frame: one in play has time left.
pub open spec fn bullet_in_frame(b: Bullet) -> bool {
    b.lifetime <= UFO_BULLET_LIFETIME && (b.active ==> b.lifetime > 0)
}

/// The ship after the player's steering: its countdown has run on, it heads
/// where the player turned it, and thrust has sped it up.
pub open spec fn steered(p: Player, input: FrameInput) -> Player {
    let turned = Player { heading: input.heading, ..countdown_spec(p, input.dt) };
    if input.thrust {
        thrust_spec(turned)
    } else {
        turned
    }
}

/// How a session `after` the player's input relates to the session `before`
/// it. The ship is steered. Firing adds its bullet behind the others and asks
/// for a sound and a flash; a jump through hyperspace then puts the ship at
/// rest somewhere on the screen and asks for a sound. Nothing else has
/// changed.
pub open spec fn input_taken(before: Session, after: Session, input: FrameInput, screen: Vec2) -> bool {
    let ship = steered(before.player, input);
    let shot = player_bullet(ship);
    let noted = if input.fire {
        before.effects@.push(Effect::Sound(Cue::Shoot)).push(
            Effect::Particles(muzzle_flash(shot.pos)),
        )
    } else {
        before.effects@
    };
    &&& after.bullets@ == (if input.fire { before.bullets@.push(shot) } else { before.bullets@ })
    &&& after.effects@ == (if input.hyperspace { noted.push(Effect::Sound(Cue::Warp)) } else { noted })
    &&& (input.hyperspace ==> {
        &&& on_screen(after.player.pos, screen.x, screen.y)
        &&& after.player == (Player {
            pos: after.player.pos,
            vel: Vec2 { x: 0, y: 0 },
            ..ship
        })
    })
    &&& (!input.hyperspace ==> after.player == ship)
    &&& after.asteroids == before.asteroids
    &&& after.ufos == before.ufos
    &&& after.pending == before.pending
    &&& after.score == before.score
    &&& after.lives == before.lives
    &&& after.last_extra_life_score == before.last_extra_life_score
    &&& after.level_idx == before.level_idx
    &&& after.game_over == before.game_over
    &&& after.game_won == before.game_won
}

/// What `take_input` asks: room for the countdown, for the thrust and for
/// the bullet, and a screen to jump onto.
pub open spec fn input_fits(p: Player, input: FrameInput, screen: Vec2) -> bool {
    &&& i32::MIN <= p.invulnerable_timer - input.dt <= i32::MAX
    &&& (input.thrust ==> can_thrust(Player { heading: input.heading, ..p }))
    &&& (input.fire ==> muzzle_fits(steered(p, input).pos, input.heading, p.radius))
    &&& (input.hyperspace ==> screen.x >= 0 && screen.y >= 0)
}

/// How a session `after` the first half of a frame's rules relates to the
/// session `before` it: the extra-life rule, the spawn rule for the level as
/// it is played, the progression rule and the player's input have been
/// applied, one after the other.
pub open spec fn frame_begun(
    before: Session,
    after: Session,
    input: FrameInput,
    levels: Seq<LevelConfig>,
    difficulty: Difficulty,
    screen: Vec2,
) -> bool {
    exists|paid: Session, met: Session, levelled: Session|
        {
            &&& #[trigger] extra_life_paid(before, paid)
            &&& #[trigger] ufo_spawn_tried(
                paid,
                met,
                played_at(levels[before.level_idx as int], difficulty),
                screen,
            )
            &&& #[trigger] level_advanced(met, levelled, levels, difficulty, screen)
            &&& input_taken(levelled, after, input, screen)
        }
}

/// How a session `coasted` relates to the session `before` it: the ship has
/// coasted, the bullets have moved and aged, the asteroids have moved.
pub open spec fn drifted(before: Session, coasted: Session, dt: i32, screen: Vec2) -> bool {
    &&& coasted.player == coast_spec(before.player, screen)
    &&& coasted.bullets@ == before.bullets@.map_values(|b: Bullet| bullet_after(b, dt, screen))
    &&& coasted.asteroids@ == before.asteroids@.map_values(|a: Asteroid| asteroid_after(a, screen))
    &&& coasted.ufos == before.ufos
    &&& coasted.pending == before.pending
    &&& coasted.effects == before.effects
    &&& coasted.score == before.score
    &&& coasted.lives == before.lives
    &&& coasted.last_extra_life_score == before.last_extra_life_score
    &&& coasted.level_idx == before.level_idx
    &&& coasted.game_over == before.game_over
    &&& coasted.game_won == before.game_won
}

/// How a session `after` the second half of a frame's rules relates to the
/// session `before` it: everything has drifted, and then the saucer has had
/// its frame.
pub open spec fn entities_moved(
    before: Session,
    after: Session,
    dt: i32,
    ufo_speed: i32,
    screen: Vec2,
) -> bool {
    exists|coasted: Session|
        #[trigger] drifted(before, coasted, dt, screen) && ufos_updated(
            coasted,
            after,
            dt,
            ufo_speed,
            screen,
        )
}

/// How a session `after` the end of a frame relates to the session `before`
/// it: the collisions have been settled and the field has been cleaned.
pub open spec fn frame_finished(before: Session, after: Session, screen: Vec2) -> bool {
    exists|settled: Session|
        #[trigger] resolved(before, settled, before.field().resolve(), screen) && cleaned(
            settled,
            after,
        )
}

/// How a session `after` a frame relates to the session `before` it: the
/// two halves of its rules and its end have followed one another.
pub open spec fn stepped(
    before: Session,
    after: Session,
    input: FrameInput,
    levels: Seq<LevelConfig>,
    difficulty: Difficulty,
    screen: Vec2,
) -> bool {
    exists|begun: Session, moved: Session|
        {
            &&& #[trigger] frame_begun(before, begun, input, levels, difficulty, screen)
            &&& #[trigger] entities_moved(
                begun,
                moved,
                input.dt,
                played_at(levels[before.level_idx as int], difficulty).ufo_speed,
                screen,
            )
            &&& frame_finished(moved, after, screen)
        }
}

impl Session {
    /// Takes the player's input of one frame: the countdown of the ship's
    /// protection, its turning, thrust, fire and the jump through hyperspace,
    /// in this order.
    pub fn take_input(&mut self, input: &FrameInput, screen: Vec2)
        requires
            input_fits(old(self).player, *input, screen),
        ensures
            input_taken(*old(self), *final(self), *input, screen),
    {
        self.player.tick_invulnerability(input.dt);
        self.player.heading = input.heading;
        if input.thrust {
            self.player.thrust();
        }
        if input.fire {
            self.fire();
        }
        if input.hyperspace {
            self.hyperspace(screen);
        }
    }

    /// What holds of a session between frames.
    pub open spec fn wf(&self, screen: Vec2) -> bool {
        &&& 0 <= screen.x <= SCREEN_MAX
        &&& 0 <= screen.y <= SCREEN_MAX
        &&& ship_ok(self.player)
        &&& self.ufos@.len() <= 1
        &&& (forall|i: int| 0 <= i < self.ufos@.len() ==> ufo_ok(#[trigger] self.ufos@[i]))
        &&& (forall|i: int| 0 <= i < self.bullets@.len() ==> bullet_ok(#[trigger] self.bullets@[i]))
        &&& self.pending@.len() == 0
        &&& self.last_extra_life_score <= self.score
        &&& (!self.game_over ==> self.lives >= 1)
    }

    /// Whether a frame can be played: the game is on, the input is sound, and
    /// the score and the lives have room for what the frame can bring.
    pub open spec fn can_step(
        &self,
        input: FrameInput,
        levels: Seq<LevelConfig>,
        difficulty: Difficulty,
    ) -> bool {
        &&& !self.game_over
        &&& !self.game_won
        &&& self.level_idx < levels.len()
        &&& playable(levels, difficulty)
        &&& played_at(levels[self.level_idx as int], difficulty).ufo_speed > i32::MIN
        &&& 0 <= input.dt <= TICK_MAX
        &&& is_heading(input.heading)
        &&& self.score + EXTRA_LIFE_STEP + UFO_REWARD * (self.bullets@.len() + 2) <= u32::MAX
        &&& self.lives < i32::MAX
        &&& self.bullets@.len() + self.asteroids@.len() + 3 <= i32::MAX
        &&& forall|i: int|
            0 <= i < levels.len() ==> self.bullets@.len() + (#[trigger] levels[i]).asteroid_count
                + 3 <= i32::MAX
    }

    /// The first half of a frame's rules: extra life, saucer spawn, level
    /// progression, the ship's countdown and the player's input, in this
    /// order. Returns the level as it is played in this frame.
    pub fn begin_frame(
        &mut self,
        input: &FrameInput,
        levels: &Vec<LevelConfig>,
        difficulty: Difficulty,
        screen: Vec2,
    ) -> (effective: LevelConfig)
        requires
            old(self).wf(screen),
            old(self).can_step(*input, levels@, difficulty),
        ensures
            effective == played_at(levels@[old(self).level_idx as int], difficulty),
            frame_begun(*old(self), *final(self), *input, levels@, difficulty, screen),
            on_screen(final(self).player.pos, SCREEN_MAX, SCREEN_MAX),
            final(self).player.radius == old(self).player.radius,
            final(self).player.heading == input.heading,
            -TOP_SPEED - THRUST <= final(self).player.vel.x <= TOP_SPEED + THRUST,
            -TOP_SPEED - THRUST <= final(self).player.vel.y <= TOP_SPEED + THRUST,
            -TICK_MAX <= final(self).player.invulnerable_timer <= INVULNERABLE_MS,
            final(self).player.invulnerable ==> final(self).player.invulnerable_timer > 0,
            final(self).ufos@.len() <= 1,
            forall|i: int| 0 <= i < final(self).ufos@.len() ==> ufo_ok(#[trigger] final(self).ufos@[i]),
            forall|i: int|
                0 <= i < final(self).bullets@.len() ==> bullet_ok(#[trigger] final(self).bullets@[i]),
            final(self).bullets@.len() <= old(self).bullets@.len() + 1,
            !input.fire ==> final(self).bullets@.len() <= old(self).bullets@.len(),
            final(self).bullets@.len() + final(self).asteroids@.len() + 2 <= i32::MAX,
            final(self).pending@.len() == 0,
            final(self).score == old(self).score,
            final(self).last_extra_life_score <= final(self).score,
            1 <= final(self).lives <= old(self).lives + 1,
            final(self).lives >= old(self).lives,
            !final(self).game_over,
            old(self).level_idx <= final(self).level_idx <= old(self).level_idx + 1,
            final(self).game_won <==> final(self).level_idx >= levels@.len(),
            final(self).effects@.len() >= old(self).effects@.len(),
            !input.thrust ==> {
                &&& -TOP_SPEED <= final(self).player.vel.x <= TOP_SPEED
                &&& -TOP_SPEED <= final(self).player.vel.y <= TOP_SPEED
            },
    {
        self.award_extra_life();
        let ghost paid = *self;
        let effective = levels[self.level_idx].scaled(
            difficulty.speed_multiplier(),
            difficulty.spawn_multiplier(),
        );
        self.maybe_spawn_ufo(&effective, screen);
        let ghost met = *self;
        self.advance_level(levels, difficulty, screen);
        let ghost levelled = *self;
        proof {
            lemma_scale_within(
                self.player.radius as int,
                input.heading.x as int,
                self.player.radius as int,
            );
            lemma_scale_within(
                self.player.radius as int,
                input.heading.y as int,
                self.player.radius as int,
            );
        }
        self.take_input(input, screen);
        proof {
            assert(extra_life_paid(*old(self), paid));
            assert(ufo_spawn_tried(paid, met, effective, screen));
            assert(level_advanced(met, levelled, levels@, difficulty, screen));
            assert(input_taken(levelled, *self, *input, screen));
        }
        effective
    }

    /// The second half of a frame's rules: everything moves, the bullets
    /// age, the saucer thinks.
    pub fn move_entities(&mut self, dt: i32, ufo_speed: i32, screen: Vec2)
        requires
            0 <= screen.x <= SCREEN_MAX,
            0 <= screen.y <= SCREEN_MAX,
            0 <= dt <= TICK_MAX,
            ufo_speed > i32::MIN,
            -TOP_SPEED - THRUST <= old(self).player.vel.x <= TOP_SPEED + THRUST,
            -TOP_SPEED - THRUST <= old(self).player.vel.y <= TOP_SPEED + THRUST,
            old(self).ufos@.len() <= 1,
            forall|i: int| 0 <= i < old(self).ufos@.len() ==> ufo_ok(#[trigger] old(self).ufos@[i]),
            forall|i: int|
                0 <= i < old(self).bullets@.len() ==> bullet_ok(#[trigger] old(self).bullets@[i]),
        ensures
            entities_moved(*old(self), *final(self), dt, ufo_speed, screen),
            final(self).player == coast_spec(old(self).player, screen),
            on_screen(final(self).player.pos, screen.x, screen.y),
            -TOP_SPEED <= final(self).player.vel.x <= TOP_SPEED,
            -TOP_SPEED <= final(self).player.vel.y <= TOP_SPEED,
            final(self).ufos@.len() == old(self).ufos@.len(),
            forall|i: int| 0 <= i < final(self).ufos@.len() ==> ufo_ok(#[trigger] final(self).ufos@[i]),
            forall|i: int|
                0 <= i < final(self).bullets@.len() ==> bullet_in_frame(
                    #[trigger] final(self).bullets@[i],
                ),
            old(self).bullets@.len() <= final(self).bullets@.len() <= old(self).bullets@.len() + 1,
            final(self).asteroids@ == old(self).asteroids@.map_values(
                |a: Asteroid| asteroid_after(a, screen),
            ),
            final(self).pending == old(self).pending,
            final(self).score == old(self).score,
            final(self).lives == old(self).lives,
            final(self).last_extra_life_score == old(self).last_extra_life_score,
            final(self).level_idx == old(self).level_idx,
            final(self).game_over == old(self).game_over,
            final(self).game_won == old(self).game_won,
            final(self).effects@.len() >= old(self).effects@.len(),
    {
        self.player.coast(screen);
        update_bullets(&mut self.bullets, dt, screen);
        update_asteroids(&mut self.asteroids, screen);
        let ghost aged = self.bullets@;
        let ghost coasted = *self;
        self.update_ufos(dt, ufo_speed, screen);
        proof {
            assert(drifted(*old(self), coasted, dt, screen));
            assert forall|i: int| 0 <= i < self.bullets@.len() implies bullet_in_frame(
                #[trigger] self.bullets@[i],
            ) by {
                if i < aged.len() {
                    assert(self.bullets@[i] == self.bullets@.drop_last()[i] || self.bullets@[i]
                        == aged[i]);
                    assert(self.bullets@[i] == aged[i]);
                    assert(bullet_ok(old(self).bullets@[i]));
                }
            }
            assert forall|i: int| 0 <= i < self.ufos@.len() implies ufo_ok(
                #[trigger] self.ufos@[i],
            ) by {
                assert(ufo_ok(old(self).ufos@[i]));
            }
        }
    }

    /// The end of a frame: collisions are settled, what is out of play is
    /// removed, and the pieces of broken asteroids join the field.
    pub fn finish_frame(&mut self, screen: Vec2)
        requires
            0 <= screen.x <= SCREEN_MAX,
            0 <= screen.y <= SCREEN_MAX,
            ship_ok(old(self).player),
            old(self).ufos@.len() <= 1,
            forall|i: int| 0 <= i < old(self).ufos@.len() ==> ufo_ok(#[trigger] old(self).ufos@[i]),
            forall|i: int|
                0 <= i < old(self).bullets@.len() ==> bullet_in_frame(
                    #[trigger] old(self).bullets@[i],
                ),
            old(self).pending@.len() == 0,
            old(self).last_extra_life_score <= old(self).score,
            !old(self).game_over ==> old(self).lives >= 1,
            old(self).can_resolve(),
        ensures
            frame_finished(*old(self), *final(self), screen),
            final(self).wf(screen),
            on_screen(old(self).player.pos, screen.x, screen.y) ==> on_screen(
                final(self).player.pos,
                screen.x,
                screen.y,
            ),
            final(self).score >= old(self).score,
            final(self).lives <= old(self).lives,
            final(self).game_over ==> old(self).game_over || final(self).lives <= 0,
            final(self).player.radius == old(self).player.radius,
            final(self).player.heading == old(self).player.heading,
            final(self).level_idx == old(self).level_idx,
            final(self).game_won == old(self).game_won,
            final(self).last_extra_life_score == old(self).last_extra_life_score,
            final(self).effects@.len() >= old(self).effects@.len(),
    {
        self.resolve_collisions(screen);
        let ghost settled = *self;
        assert(resolved(*old(self), settled, old(self).field().resolve(), screen));
        self.cleanup();
        proof {
            assert(cleaned(settled, *self));
            assert(ship_kept(old(self).player, self.player, screen));
            assert(ship_ok(self.player));
            assert forall|i: int| 0 <= i < self.ufos@.len() implies ufo_ok(
                #[trigger] self.ufos@[i],
            ) by {
                let u = self.ufos@[i];
                assert(settled.ufos@.contains(u));
                let j = choose|j: int| 0 <= j < settled.ufos@.len() && settled.ufos@[j] == u;
                assert(ufo_ok(old(self).ufos@[j]));
            }
            assert forall|i: int| 0 <= i < self.bullets@.len() implies bullet_ok(
                #[trigger] self.bullets@[i],
            ) by {
                let b = self.bullets@[i];
                assert(settled.bullets@.contains(b));
                let j = choose|j: int| 0 <= j < settled.bullets@.len() && settled.bullets@[j] == b;
                assert(bullet_in_frame(old(self).bullets@[j]));
            }
        }
    }

    /// Plays one frame: `begin_frame`, `move_entities` and `finish_frame`.
    pub fn step(
        &mut self,
        input: &FrameInput,
        levels: &Vec<LevelConfig>,
        difficulty: Difficulty,
        screen: Vec2,
    )
        requires
            old(self).wf(screen),
            old(self).can_step(*input, levels@, difficulty),
        ensures
            stepped(*old(self), *final(self), *input, levels@, difficulty, screen),
            final(self).wf(screen),
            final(self).score >= old(self).score,
            final(self).lives <= old(self).lives + 1,
            old(self).level_idx <= final(self).level_idx <= old(self).level_idx + 1,
            final(self).game_won <==> final(self).level_idx >= levels@.len(),
            final(self).game_over ==> final(self).lives <= 0,
            final(self).player.heading == input.heading,
            final(self).player.radius == old(self).player.radius,
            on_screen(final(self).player.pos, screen.x, screen.y),
            final(self).effects@.len() >= old(self).effects@.len(),
    {
        let effective = self.begin_frame(input, levels, difficulty, screen);
        let ghost begun = *self;
        self.move_entities(input.dt, effective.ufo_speed, screen);
        let ghost moved = *self;
        self.finish_frame(screen);
        proof {
            assert(frame_begun(*old(self), begun, *input, levels@, difficulty, screen));
            assert(entities_moved(begun, moved, input.dt, effective.ufo_speed, screen));
            assert(frame_finished(moved, *self, screen));
        }
    }
    /// Puts the current level on the field, as it is played at a difficulty.
    pub fn load_current_level(
        &mut self,
        levels: &Vec<LevelConfig>,
        difficulty: Difficulty,
        screen: Vec2,
    )
        requires
            old(self).level_idx < levels@.len(),
            playable(levels@, difficulty),
            screen.x >= 0,
            screen.y >= 0,
        ensures
            final(self).ufos@.len() == 0,
            final(self).asteroids@.len() == levels@[old(self).level_idx as int].asteroid_count,
            forall|i: int|
                0 <= i < final(self).asteroids@.len() ==> freshly_spawned(
                    #[trigger] final(self).asteroids@[i],
                    played_at(levels@[old(self).level_idx as int], difficulty),
                    screen,
                ),
            final(self).player == old(self).player,
            final(self).bullets == old(self).bullets,
            final(self).pending == old(self).pending,
            final(self).effects == old(self).effects,
            final(self).score == old(self).score,
            final(self).lives == old(self).lives,
            final(self).last_extra_life_score == old(self).last_extra_life_score,
            final(self).level_idx == old(self).level_idx,
            final(self).game_over == old(self).game_over,
            final(self).game_won == old(self).game_won,
    {
        let config = levels[self.level_idx].scaled(
            difficulty.speed_multiplier(),
            difficulty.spawn_multiplier(),
        );
        load_level(&config, screen, &mut self.asteroids, &mut self.ufos);
    }

    /// A game at its start, with the first level on the field.
    pub fn start(levels: &Vec<LevelConfig>, difficulty: Difficulty, screen: Vec2) -> (s: Session)
        requires
            levels@.len() > 0,
            playable(levels@, difficulty),
            0 <= screen.x <= SCREEN_MAX,
            0 <= screen.y <= SCREEN_MAX,
        ensures
            s.wf(screen),
            s.player == fresh_player(screen),
            s.bullets@.len() == 0,
            s.ufos@.len() == 0,
            s.asteroids@.len() == levels@[0].asteroid_count,
            forall|i: int|
                0 <= i < s.asteroids@.len() ==> freshly_spawned(
                    #[trigger] s.asteroids@[i],
                    played_at(levels@[0], difficulty),
                    screen,
                ),
            s.effects@.len() == 0,
            s.score == 0,
            s.lives == START_LIVES,
            s.last_extra_life_score == 0,
            s.level_idx == 0,
            !s.game_over,
            !s.game_won,
    {
        let mut s = Session::new(screen);
        s.load_current_level(levels, difficulty, screen);
        s
    }

    /// Starts the game again after it has ended: first level, no score, full
    /// lives, the ship in the middle, at rest and invulnerable for a while.
    pub fn restart(&mut self, levels: &Vec<LevelConfig>, difficulty: Difficulty, screen: Vec2)
        requires
            levels@.len() > 0,
            playable(levels@, difficulty),
            0 <= screen.x <= SCREEN_MAX,
            0 <= screen.y <= SCREEN_MAX,
            0 <= old(self).player.radius <= RADIUS_MAX,
            is_heading(old(self).player.heading),
            old(self).pending@.len() == 0,
        ensures
            final(self).wf(screen),
            final(self).player == (Player {
                active: true,
                invulnerable: true,
                invulnerable_timer: INVULNERABLE_MS,
                ..recentred(old(self).player, screen)
            }),
            final(self).bullets@.len() == 0,
            final(self).ufos@.len() == 0,
            final(self).asteroids@.len() == levels@[0].asteroid_count,
            forall|i: int|
                0 <= i < final(self).asteroids@.len() ==> freshly_spawned(
                    #[trigger] final(self).asteroids@[i],
                    played_at(levels@[0], difficulty),
                    screen,
                ),
            final(self).effects == old(self).effects,
            final(self).score == 0,
            final(self).lives == START_LIVES,
            final(self).last_extra_life_score == 0,
            final(self).level_idx == 0,
            !final(self).game_over,
            !final(self).game_won,
    {
        self.level_idx = 0;
        self.score = 0;
        self.lives = START_LIVES;
        self.last_extra_life_score = 0;
        self.game_over = false;
        self.game_won = false;
        self.player.pos = Vec2 { x: screen.x / 2, y: screen.y / 2 };
        self.player.vel = Vec2 { x: 0, y: 0 };
        self.player.active = true;
        self.player.invulnerable = true;
        self.player.invulnerable_timer = INVULNERABLE_MS;
        self.bullets.clear();
        self.load_current_level(levels, difficulty, screen);
    }
    /// Tells whether the session is as it should be between frames.
    pub fn is_wf(&self, screen: Vec2) -> (ok: bool)
        ensures
            ok == self.wf(screen),
    {
        let p = &self.player;
        let plain = 0 <= screen.x && screen.x <= SCREEN_MAX && 0 <= screen.y && screen.y
            <= SCREEN_MAX && 0 <= p.pos.x && p.pos.x <= SCREEN_MAX && 0 <= p.pos.y && p.pos.y
            <= SCREEN_MAX && 0 <= p.radius && p.radius <= RADIUS_MAX && -TOP_SPEED <= p.vel.x
            && p.vel.x <= TOP_SPEED && -TOP_SPEED <= p.vel.y && p.vel.y <= TOP_SPEED
            && check_heading(p.heading) && -TICK_MAX <= p.invulnerable_timer
            && p.invulnerable_timer <= INVULNERABLE_MS && (!p.invulnerable || p.invulnerable_timer
            > 0) && self.ufos.len() <= 1 && self.pending.len() == 0 && self.last_extra_life_score
            <= self.score && (self.game_over || self.lives >= 1);
        if !plain {
            return false;
        }
        if self.ufos.len() == 1 {
            let u = &self.ufos[0];
            if !(u.active && 0 <= u.radius && u.radius <= RADIUS_MAX && 0 <= u.shoot_timer
                && u.shoot_timer <= SHOOT_MS && 0 <= u.change_dir_timer && u.change_dir_timer
                <= CHANGE_DIR_MS) {
                assert(!ufo_ok(self.ufos@[0]));
                return false;
            }
        }
        let mut i: usize = 0;
        while i < self.bullets.len()
            invariant
                i <= self.bullets@.len(),
                forall|k: int| 0 <= k < i ==> bullet_ok(#[trigger] self.bullets@[k]),
            decreases self.bullets@.len() - i,
        {
            let b = &self.bullets[i];
            if !(b.active && 0 < b.lifetime && b.lifetime <= UFO_BULLET_LIFETIME) {
                assert(!bullet_ok(self.bullets@[i as int]));
                return false;
            }
            i += 1;
        }
        true
    }

    /// Tells whether a frame can be played.
    pub fn check_step(
        &self,
        input: &FrameInput,
        levels: &Vec<LevelConfig>,
        difficulty: Difficulty,
    ) -> (ok: bool)
        ensures
            ok == self.can_step(*input, levels@, difficulty),
    {
        if self.game_over || self.game_won || self.level_idx >= levels.len() {
            return false;
        }
        if !is_playable(levels, difficulty) {
            return false;
        }
        let played = levels[self.level_idx].scaled(
            difficulty.speed_multiplier(),
            difficulty.spawn_multiplier(),
        );
        if !(played.ufo_speed > i32::MIN && 0 <= input.dt && input.dt <= TICK_MAX && check_heading(
            input.heading,
        ) && self.lives < i32::MAX) {
            return false;
        }
        let shots = self.bullets.len() as u128;
        let rocks = self.asteroids.len() as u128;
        if self.score as u128 + EXTRA_LIFE_STEP as u128 + UFO_REWARD as u128 * (shots + 2)
            > u32::MAX as u128 {
            return false;
        }
        if shots + rocks + 3 > i32::MAX as u128 {
            return false;
        }
        let mut i: usize = 0;
        while i < levels.len()
            invariant
                i <= levels@.len(),
                shots == self.bullets@.len(),
                shots <= usize::MAX,
                forall|k: int|
                    0 <= k < i ==> self.bullets@.len() + (#[trigger] levels@[k]).asteroid_count
                        + 3 <= i32::MAX,
            decreases levels@.len() - i,
        {
            if shots + levels[i].asteroid_count as u128 + 3 > i32::MAX as u128 {
                return false;
            }
            i += 1;
        }
        true
    }

    /// Plays one frame if the session and the input allow it, and tells
    /// whether it did; a frame that is not played changes nothing.
    pub fn try_step(
        &mut self,
        input: &FrameInput,
        levels: &Vec<LevelConfig>,
        difficulty: Difficulty,
        screen: Vec2,
    ) -> (played: bool)
        ensures
            played == (old(self).wf(screen) && old(self).can_step(*input, levels@, difficulty)),
            played ==> {
                &&& stepped(*old(self), *final(self), *input, levels@, difficulty, screen)
                &&& final(self).wf(screen)
                &&& final(self).score >= old(self).score
                &&& final(self).lives <= old(self).lives + 1
                &&& old(self).level_idx <= final(self).level_idx <= old(self).level_idx + 1
                &&& (final(self).game_won <==> final(self).level_idx >= levels@.len())
                &&& (final(self).game_over ==> final(self).lives <= 0)
                &&& final(self).player.heading == input.heading
                &&& final(self).player.radius == old(self).player.radius
                &&& on_screen(final(self).player.pos, screen.x, screen.y)
                &&& final(self).effects@.len() >= old(self).effects@.len()
            },
            !played ==> *final(self) == *old(self),
    {
        if self.is_wf(screen) && self.check_step(input, levels, difficulty) {
            self.step(input, levels, difficulty, screen);
            true
        } else {
            false
        }
    }
    /// The frame in which the player pauses the game: the rules that come
    /// before the input are played, nothing moves and nothing collides.
    pub fn pause_frame(
        &mut self,
        dt: i32,
        levels: &Vec<LevelConfig>,
        difficulty: Difficulty,
        screen: Vec2,
    ) -> (played: bool)
        ensures
            played == (old(self).wf(screen) && old(self).can_step(
                idle_input(dt, old(self).player.heading),
                levels@,
                difficulty,
            )),
            played ==> {
                &&& frame_begun(
                    *old(self),
                    *final(self),
                    idle_input(dt, old(self).player.heading),
                    levels@,
                    difficulty,
                    screen,
                )
                &&& final(self).wf(screen)
                &&& final(self).score == old(self).score
                &&& old(self).lives <= final(self).lives <= old(self).lives + 1
                &&& old(self).level_idx <= final(self).level_idx <= old(self).level_idx + 1
                &&& (final(self).game_won <==> final(self).level_idx >= levels@.len())
                &&& !final(self).game_over
                &&& final(self).bullets@.len() <= old(self).bullets@.len()
            },
            !played ==> *final(self) == *old(self),
    {
        let input = FrameInput {
            dt,
            heading: self.player.heading,
            thrust: false,
            fire: false,
            hyperspace: false,
        };
        if self.is_wf(screen) && self.check_step(&input, levels, difficulty) {
            self.begin_frame(&input, levels, difficulty, screen);
            true
        } else {
            false
        }
    }
}

/// The input of a frame in which the player does nothing.
pub open spec fn idle_input(dt: i32, heading: Vec2) -> FrameInput {
    FrameInput { dt, heading, thrust: false, fire: false, hyperspace: false }
}

/// Tells whether a vector is a heading.
pub fn check_heading(dir: Vec2) -> (ok: bool)
    ensures
        ok == is_heading(dir),
{
    -1000 <= dir.x && dir.x <= 1000 && -1000 <= dir.y && dir.y <= 1000
}

} // verus!
