use crate::physics::{fits_scaled, scale, scale_spec};
use crate::text::{decimal, push_decimal};
use vstd::prelude::*;
use vstd::string::*;

verus! {

/// Largest spawn chance: certainty, in parts per million.
pub const CHANCE_ONE: i32 = 1_000_000;

/// Settings of one level.
#[derive(Clone, Copy, Debug)]
pub struct LevelConfig {
    /// Number of asteroids spawned when the level starts.
    pub asteroid_count: usize,
    /// Least and greatest asteroid speed along one axis, per frame.
    pub asteroid_speed_range: (i32, i32),
    /// Factor on asteroid radii, in thousandths.
    pub asteroid_size_mult: i32,
    /// Chance per frame that a saucer appears, in parts per million.
    pub ufo_spawn_chance: i32,
    /// Speed of a saucer, per frame.
    pub ufo_speed: i32,
}

/// What can be wrong with a level's settings, in the order in which it is
/// looked for.
#[derive(Clone, Copy, Debug, PartialEq, Eq, Structural)]
pub enum ConfigFault {
    NoAsteroids,
    SpeedRangeInverted,
    SpawnChanceOutOfRange,
}

/// The first fault of a level's settings, if it has one.
pub open spec fn fault_spec(c: LevelConfig) -> Option<ConfigFault> {
    if c.asteroid_count == 0 {
        Some(ConfigFault::NoAsteroids)
    } else if c.asteroid_speed_range.0 > c.asteroid_speed_range.1 {
        Some(ConfigFault::SpeedRangeInverted)
    } else if c.ufo_spawn_chance < 0 || c.ufo_spawn_chance > CHANCE_ONE {
        Some(ConfigFault::SpawnChanceOutOfRange)
    } else {
        None
    }
}

/// The sentence that names a fault.
pub open spec fn fault_text(fault: ConfigFault) -> Seq<char> {
    match fault {
        ConfigFault::NoAsteroids => "Asteroid count must be greater than 0"@,
        ConfigFault::SpeedRangeInverted => "Min asteroid speed cannot be greater than max speed"@,
        ConfigFault::SpawnChanceOutOfRange => "UFO spawn chance must be between 0.0 and 1.0"@,
    }
}

/// The message for a fault of the level at `level_idx`, counted from zero; the
/// message counts levels from one.
pub open spec fn fault_message(level_idx: nat, fault: ConfigFault) -> Seq<char> {
    "Level "@ + decimal(level_idx + 1) + ": "@ + fault_text(fault)
}

/// The levels of the game, in playing order.
pub open spec fn levels_spec() -> Seq<LevelConfig> {
    seq![
        LevelConfig {
            asteroid_count: 4,
            asteroid_speed_range: (1000, 2000),
            asteroid_size_mult: 1000,
            ufo_spawn_chance: 0,
            ufo_speed: 0,
        },
        LevelConfig {
            asteroid_count: 6,
            asteroid_speed_range: (2000, 3500),
            asteroid_size_mult: 1000,
            ufo_spawn_chance: 2000,
            ufo_speed: 2000,
        },
        LevelConfig {
            asteroid_count: 8,
            asteroid_speed_range: (3000, 5000),
            asteroid_size_mult: 1200,
            ufo_spawn_chance: 8000,
            ufo_speed: 3500,
        },
    ]
}

/// Returns the levels of the game.
pub fn get_levels() -> (levels: Vec<LevelConfig>)
    ensures
        levels@ == levels_spec(),
        forall|i: int| 0 <= i < levels@.len() ==> fault_spec(#[trigger] levels@[i]) is None,
{
    let mut levels: Vec<LevelConfig> = Vec::new();
    levels.push(
        LevelConfig {
            asteroid_count: 4,
            asteroid_speed_range: (1000, 2000),
            asteroid_size_mult: 1000,
            ufo_spawn_chance: 0,
            ufo_speed: 0,
        },
    );
    levels.push(
        LevelConfig {
            asteroid_count: 6,
            asteroid_speed_range: (2000, 3500),
            asteroid_size_mult: 1000,
            ufo_spawn_chance: 2000,
            ufo_speed: 2000,
        },
    );
    levels.push(
        LevelConfig {
            asteroid_count: 8,
            asteroid_speed_range: (3000, 5000),
            asteroid_size_mult: 1200,
            ufo_spawn_chance: 8000,
            ufo_speed: 3500,
        },
    );
    assert(levels@ =~= levels_spec());
    levels
}

impl LevelConfig {
    /// A level whose speeds and spawn chance can be scaled by the given factors
    /// without leaving the range of the fields.
    pub open spec fn scalable(self, speed_mult: i32, spawn_mult: i32) -> bool {
        &&& i32::MIN <= scale_spec(self.asteroid_speed_range.0 as int, speed_mult as int)
            <= i32::MAX
        &&& i32::MIN <= scale_spec(self.asteroid_speed_range.1 as int, speed_mult as int)
            <= i32::MAX
        &&& i32::MIN <= scale_spec(self.ufo_speed as int, speed_mult as int) <= i32::MAX
        &&& i32::MIN <= scale_spec(self.ufo_spawn_chance as int, spawn_mult as int) <= i32::MAX
    }

    /// The level with its speeds multiplied by `speed_mult` and its spawn chance
    /// by `spawn_mult`, both in thousandths.
    pub open spec fn scaled_spec(self, speed_mult: i32, spawn_mult: i32) -> LevelConfig {
        LevelConfig {
            asteroid_count: self.asteroid_count,
            asteroid_speed_range: (
                scale_spec(self.asteroid_speed_range.0 as int, speed_mult as int) as i32,
                scale_spec(self.asteroid_speed_range.1 as int, speed_mult as int) as i32,
            ),
            asteroid_size_mult: self.asteroid_size_mult,
            ufo_spawn_chance: scale_spec(self.ufo_spawn_chance as int, spawn_mult as int) as i32,
            ufo_speed: scale_spec(self.ufo_speed as int, speed_mult as int) as i32,
        }
    }

    /// Finds the first fault of the settings.
    pub fn fault(&self) -> (found: Option<ConfigFault>)
        ensures
            found == fault_spec(*self),
    {
        if self.asteroid_count == 0 {
            Some(ConfigFault::NoAsteroids)
        } else if self.asteroid_speed_range.0 > self.asteroid_speed_range.1 {
            Some(ConfigFault::SpeedRangeInverted)
        } else if self.ufo_spawn_chance < 0 || self.ufo_spawn_chance > CHANCE_ONE {
            Some(ConfigFault::SpawnChanceOutOfRange)
        } else {
            None
        }
    }

    /// Validates the settings of the level at `level_idx`.
    pub fn validate(&self, level_idx: usize) -> (checked: Result<(), String>)
        requires
            level_idx < usize::MAX,
        ensures
            checked is Ok <==> fault_spec(*self) is None,
            checked is Err ==> checked->Err_0@ == fault_message(
                level_idx as nat,
                fault_spec(*self)->Some_0,
            ),
    {
        match self.fault() {
            None => Ok(()),
            Some(fault) => {
                let mut message = String::from_str("Level ");
                push_decimal(&mut message, (level_idx + 1) as u64);
                message.append(": ");
                let sentence = match fault {
                    ConfigFault::NoAsteroids => "Asteroid count must be greater than 0",
                    ConfigFault::SpeedRangeInverted => {
                        "Min asteroid speed cannot be greater than max speed"
                    },
                    ConfigFault::SpawnChanceOutOfRange => {
                        "UFO spawn chance must be between 0.0 and 1.0"
                    },
                };
                message.append(sentence);
                Err(message)
            },
        }
    }

    /// Derives the level as it is played at a difficulty; the level itself is
    /// left as it was.
    pub fn scaled(&self, speed_mult: i32, spawn_mult: i32) -> (derived: LevelConfig)
        requires
            self.scalable(speed_mult, spawn_mult),
        ensures
            derived == self.scaled_spec(speed_mult, spawn_mult),
    {
        LevelConfig {
            asteroid_count: self.asteroid_count,
            asteroid_speed_range: (
                scale(self.asteroid_speed_range.0, speed_mult),
                scale(self.asteroid_speed_range.1, speed_mult),
            ),
            asteroid_size_mult: self.asteroid_size_mult,
            ufo_spawn_chance: scale(self.ufo_spawn_chance, spawn_mult),
            ufo_speed: scale(self.ufo_speed, speed_mult),
        }
    }
    /// Tells whether the level can be scaled by the given factors.
    pub fn is_scalable(&self, speed_mult: i32, spawn_mult: i32) -> (fits: bool)
        ensures
            fits == self.scalable(speed_mult, spawn_mult),
    {
        fits_scaled(self.asteroid_speed_range.0, speed_mult) && fits_scaled(
            self.asteroid_speed_range.1,
            speed_mult,
        ) && fits_scaled(self.ufo_speed, speed_mult) && fits_scaled(
            self.ufo_spawn_chance,
            spawn_mult,
        )
    }
}

/// Index of the first level from `from` on that has a fault, or the number of
/// levels if there is none.
pub open spec fn first_faulty(levels: Seq<LevelConfig>, from: int) -> int
    decreases levels.len() - from,
{
    if from < 0 || from >= levels.len() {
        levels.len() as int
    } else if fault_spec(levels[from]) is Some {
        from
    } else {
        first_faulty(levels, from + 1)
    }
}

/// Validates every level, in order, and stops at the first that has a fault.
pub fn validate_levels(levels: &Vec<LevelConfig>) -> (checked: Result<(), String>)
    ensures
        checked is Ok <==> first_faulty(levels@, 0) == levels@.len(),
        checked is Ok <==> forall|i: int|
            0 <= i < levels@.len() ==> fault_spec(#[trigger] levels@[i]) is None,
        checked is Err ==> checked->Err_0@ == fault_message(
            first_faulty(levels@, 0) as nat,
            fault_spec(levels@[first_faulty(levels@, 0)])->Some_0,
        ),
{
    let mut i: usize = 0;
    while i < levels.len()
        invariant
            i <= levels@.len(),
            first_faulty(levels@, 0) == first_faulty(levels@, i as int),
            forall|k: int| 0 <= k < i ==> fault_spec(#[trigger] levels@[k]) is None,
        decreases levels@.len() - i,
    {
        match levels[i].validate(i) {
            Ok(_) => {},
            Err(message) => {
                return Err(message);
            },
        }
        i += 1;
    }
    Ok(())
}

} // verus!
