use crate::components::{Player, Ufo};
use crate::config::{levels_spec, LevelConfig, CHANCE_ONE};
use crate::level::{
    freshly_spawned, is_loadable, lemma_largest_radius_decides, load_level, loadable,
    ASTEROID_MAX_RADIUS, ASTEROID_MIN_RADIUS,
};
use crate::physics::{lemma_scale_keeps_order, scale_spec, Vec2};
use crate::random::draw_between;
use crate::session::{Cue, Effect, Session};
use crate::settings::Difficulty;
use vstd::prelude::*;

verus! {

/// Radius of a saucer.
pub const UFO_RADIUS: i32 = 20_000;

/// The saucer that enters at height `y` with the given speed: at the left
/// edge, flying right.
pub open spec fn ufo_entering(y: i32, speed: i32) -> Ufo {
    Ufo {
        pos: Vec2 { x: 0, y },
        vel: Vec2 { x: speed, y: 0 },
        radius: UFO_RADIUS,
        active: true,
        shoot_timer: 0,
        change_dir_timer: 0,
    }
}

/// A saucer appears when the sample, drawn from `0..CHANCE_ONE`, falls below
/// the level's chance.
pub open spec fn spawn_decided(sample: i32, chance: i32) -> bool {
    sample < chance
}

/// The level as it is played at a difficulty.
pub open spec fn played_at(config: LevelConfig, difficulty: Difficulty) -> LevelConfig {
    config.scaled_spec(difficulty.speed_factor(), difficulty.spawn_factor())
}

/// Levels that can all be played at a difficulty: each can be scaled by the
/// difficulty's factors, and as scaled it can be loaded.
pub open spec fn playable(levels: Seq<LevelConfig>, difficulty: Difficulty) -> bool {
    forall|i: int|
        0 <= i < levels.len() ==> {
            &&& (#[trigger] levels[i]).scalable(
                difficulty.speed_factor(),
                difficulty.spawn_factor(),
            )
            &&& loadable(played_at(levels[i], difficulty))
        }
}

/// The ship put back to the middle of the screen, at rest.
pub open spec fn recentred(p: Player, screen: Vec2) -> Player {
    Player {
        pos: Vec2 { x: (screen.x / 2) as i32, y: (screen.y / 2) as i32 },
        vel: Vec2 { x: 0, y: 0 },
        ..p
    }
}

/// Decides from a sample whether a saucer appears.
pub fn decide_spawn(sample: i32, chance: i32) -> (spawn: bool)
    ensures
        spawn == spawn_decided(sample, chance),
{
    sample < chance
}

/// Builds the saucer that enters at height `y`.
pub fn make_ufo(y: i32, speed: i32) -> (ufo: Ufo)
    ensures
        ufo == ufo_entering(y, speed),
{
    Ufo {
        pos: Vec2 { x: 0, y },
        vel: Vec2 { x: speed, y: 0 },
        radius: UFO_RADIUS,
        active: true,
        shoot_timer: 0,
        change_dir_timer: 0,
    }
}

/// The levels of the game can be played at every difficulty.
pub proof fn lemma_shipped_levels_playable(difficulty: Difficulty)
    ensures
        playable(levels_spec(), difficulty),
{
    let levels = levels_spec();
    assert forall|i: int| 0 <= i < levels.len() implies {
        &&& (#[trigger] levels[i]).scalable(difficulty.speed_factor(), difficulty.spawn_factor())
        &&& loadable(played_at(levels[i], difficulty))
    } by {
        assert(levels[0].asteroid_size_mult == 1000);
        assert(levels[1].asteroid_size_mult == 1000);
        assert(levels[2].asteroid_size_mult == 1200);
    }
}

/// A level whose speed range is in order can be played at a difficulty
/// wherever its scaled values and its radii are within the range of a
/// coordinate: scaling keeps the range in order, and neither the number of
/// asteroids nor the spawn chance stands in the way.
pub proof fn lemma_ordered_level_plays(config: LevelConfig, difficulty: Difficulty)
    requires
        config.asteroid_speed_range.0 <= config.asteroid_speed_range.1,
        config.scalable(difficulty.speed_factor(), difficulty.spawn_factor()),
        played_at(config, difficulty).asteroid_speed_range.0 > i32::MIN,
        i32::MIN <= scale_spec(ASTEROID_MAX_RADIUS as int, config.asteroid_size_mult as int)
            <= i32::MAX,
    ensures
        loadable(played_at(config, difficulty)),
{
    lemma_scale_keeps_order(
        config.asteroid_speed_range.0 as int,
        config.asteroid_speed_range.1 as int,
        difficulty.speed_factor() as int,
    );
    assert forall|base: int|
        ASTEROID_MIN_RADIUS <= base <= ASTEROID_MAX_RADIUS implies i32::MIN
        <= #[trigger] scale_spec(base, config.asteroid_size_mult as int) <= i32::MAX by {
        lemma_largest_radius_decides(base, config.asteroid_size_mult as int);
    }
}

/// How a session `after` the spawn rule relates to the session `before` it.
/// No saucer appears while one is about or where the level's chance is
/// nothing, and one does appear where none is about and the chance is
/// certainty. The saucer that appears is the only one, enters at a height on
/// the screen, and a sound is asked for. Nothing else has changed.
pub open spec fn ufo_spawn_tried(
    before: Session,
    after: Session,
    config: LevelConfig,
    screen: Vec2,
) -> bool {
    let spawned = after.ufos@.len() > before.ufos@.len();
    &&& (before.ufos@.len() >= 1 ==> !spawned)
    &&& (config.ufo_spawn_chance <= 0 ==> !spawned)
    &&& (before.ufos@.len() == 0 && config.ufo_spawn_chance >= CHANCE_ONE ==> spawned)
    &&& (spawned ==> {
        &&& after.ufos@.len() == 1
        &&& 0 <= after.ufos@[0].pos.y <= screen.y
        &&& after.ufos@[0] == ufo_entering(after.ufos@[0].pos.y, config.ufo_speed)
        &&& after.effects@ == before.effects@.push(Effect::Sound(Cue::Warp))
    })
    &&& (!spawned ==> after.ufos@ == before.ufos@ && after.effects@ == before.effects@)
    &&& after.player == before.player
    &&& after.bullets == before.bullets
    &&& after.asteroids == before.asteroids
    &&& after.pending == before.pending
    &&& after.score == before.score
    &&& after.lives == before.lives
    &&& after.last_extra_life_score == before.last_extra_life_score
    &&& after.level_idx == before.level_idx
    &&& after.game_over == before.game_over
    &&& after.game_won == before.game_won
}

/// A field without asteroids and saucers.
pub open spec fn field_clear(s: Session) -> bool {
    s.asteroids@.len() == 0 && s.ufos@.len() == 0
}

/// How a session `after` the progression rule relates to the session
/// `before` it. While the field is not clear nothing changes. A clear field
/// moves the level on by one: behind the last level the game is won and
/// nothing else changes; else the ship is back in the middle at rest, no
/// bullet and no saucer is about, and the next level's asteroids are on the
/// field, freshly spawned.
pub open spec fn level_advanced(
    before: Session,
    after: Session,
    levels: Seq<LevelConfig>,
    difficulty: Difficulty,
    screen: Vec2,
) -> bool {
    let cleared = field_clear(before);
    let loaded = cleared && before.level_idx + 1 < levels.len();
    &&& after.level_idx == before.level_idx + (if cleared { 1int } else { 0int })
    &&& after.game_won == (before.game_won || (cleared && !loaded))
    &&& (loaded ==> {
        &&& after.player == recentred(before.player, screen)
        &&& after.bullets@.len() == 0
        &&& after.ufos@.len() == 0
        &&& after.asteroids@.len() == levels[before.level_idx + 1].asteroid_count
        &&& forall|i: int|
            0 <= i < after.asteroids@.len() ==> freshly_spawned(
                #[trigger] after.asteroids@[i],
                played_at(levels[before.level_idx + 1], difficulty),
                screen,
            )
    })
    &&& (!loaded ==> {
        &&& after.player == before.player
        &&& after.bullets@ == before.bullets@
        &&& after.ufos@ == before.ufos@
        &&& after.asteroids@ == before.asteroids@
    })
    &&& after.pending == before.pending
    &&& after.effects == before.effects
    &&& after.score == before.score
    &&& after.lives == before.lives
    &&& after.last_extra_life_score == before.last_extra_life_score
    &&& after.game_over == before.game_over
}

impl Session {
    /// Lets a saucer appear, by chance, while none is about: it enters from
    /// the left at a random height, with a sound.
    pub fn maybe_spawn_ufo(&mut self, config: &LevelConfig, screen: Vec2) -> (spawned: bool)
        requires
            screen.y >= 0,
        ensures
            spawned == (final(self).ufos@.len() > old(self).ufos@.len()),
            ufo_spawn_tried(*old(self), *final(self), *config, screen),
    {
        if self.ufos.len() < 1 && decide_spawn(draw_between(0, CHANCE_ONE), config.ufo_spawn_chance) {
            self.effects.push(Effect::Sound(Cue::Warp));
            let y = draw_between(0, screen.y);
            self.ufos.push(make_ufo(y, config.ufo_speed));
            true
        } else {
            false
        }
    }

    /// Moves on when the field is clear: to the next level, with the ship
    /// back in the middle and no bullets about, or, after the last level, to
    /// victory.
    pub fn advance_level(
        &mut self,
        levels: &Vec<LevelConfig>,
        difficulty: Difficulty,
        screen: Vec2,
    ) -> (cleared: bool)
        requires
            old(self).level_idx < levels@.len(),
            playable(levels@, difficulty),
            screen.x >= 0,
            screen.y >= 0,
        ensures
            cleared == field_clear(*old(self)),
            level_advanced(*old(self), *final(self), levels@, difficulty, screen),
    {
        let count = levels.len();
        if self.asteroids.len() == 0 && self.ufos.len() == 0 {
            self.level_idx += 1;
            if self.level_idx >= count {
                self.game_won = true;
            } else {
                self.player.pos = Vec2 { x: screen.x / 2, y: screen.y / 2 };
                self.player.vel = Vec2 { x: 0, y: 0 };
                self.bullets.clear();
                let next = levels[self.level_idx].scaled(
                    difficulty.speed_multiplier(),
                    difficulty.spawn_multiplier(),
                );
                load_level(&next, screen, &mut self.asteroids, &mut self.ufos);
            }
            true
        } else {
            false
        }
    }
}

/// Tells whether all the levels can be played at a difficulty.
pub fn is_playable(levels: &Vec<LevelConfig>, difficulty: Difficulty) -> (ok: bool)
    ensures
        ok == playable(levels@, difficulty),
{
    let speed = difficulty.speed_multiplier();
    let spawn = difficulty.spawn_multiplier();
    let mut i: usize = 0;
    while i < levels.len()
        invariant
            i <= levels@.len(),
            speed == difficulty.speed_factor(),
            spawn == difficulty.spawn_factor(),
            forall|k: int|
                0 <= k < i ==> {
                    &&& (#[trigger] levels@[k]).scalable(speed, spawn)
                    &&& loadable(played_at(levels@[k], difficulty))
                },
        decreases levels@.len() - i,
    {
        if !levels[i].is_scalable(speed, spawn) {
            return false;
        }
        let played = levels[i].scaled(speed, spawn);
        if !is_loadable(&played) {
            return false;
        }
        i += 1;
    }
    true
}

} // verus!
