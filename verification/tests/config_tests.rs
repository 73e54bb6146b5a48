use asteroids_core::config::{get_levels, validate_levels, ConfigFault, LevelConfig};

#[test]
fn test_valid_configs() {
    let levels = get_levels();
    for (i, config) in levels.iter().enumerate() {
        assert!(config.validate(i).is_ok());
    }
}

#[test]
fn test_invalid_config() {
    let bad_config = LevelConfig {
        asteroid_count: 0,
        asteroid_speed_range: (1000, 2000),
        asteroid_size_mult: 1000,
        ufo_spawn_chance: 500_000,
        ufo_speed: 1000,
    };
    assert!(bad_config.validate(0).is_err());
}

fn sound() -> LevelConfig {
    LevelConfig {
        asteroid_count: 1,
        asteroid_speed_range: (1000, 1000),
        asteroid_size_mult: 1000,
        ufo_spawn_chance: 1_000_000,
        ufo_speed: 0,
    }
}

#[test]
fn a_level_without_asteroids_is_rejected_with_its_number() {
    let bad = LevelConfig { asteroid_count: 0, ..sound() };
    assert_eq!(bad.fault(), Some(ConfigFault::NoAsteroids));
    assert_eq!(
        bad.validate(0),
        Err("Level 1: Asteroid count must be greater than 0".to_string())
    );
    assert_eq!(
        bad.validate(11),
        Err("Level 12: Asteroid count must be greater than 0".to_string())
    );
}

#[test]
fn an_inverted_speed_range_is_rejected() {
    let bad = LevelConfig { asteroid_speed_range: (2001, 2000), ..sound() };
    assert_eq!(bad.fault(), Some(ConfigFault::SpeedRangeInverted));
    assert_eq!(
        bad.validate(1),
        Err("Level 2: Min asteroid speed cannot be greater than max speed".to_string())
    );
}

#[test]
fn a_spawn_chance_out_of_range_is_rejected() {
    let above = LevelConfig { ufo_spawn_chance: 1_000_001, ..sound() };
    assert_eq!(above.fault(), Some(ConfigFault::SpawnChanceOutOfRange));
    assert_eq!(
        above.validate(2),
        Err("Level 3: UFO spawn chance must be between 0.0 and 1.0".to_string())
    );
    let below = LevelConfig { ufo_spawn_chance: -1, ..sound() };
    assert_eq!(below.fault(), Some(ConfigFault::SpawnChanceOutOfRange));
}

#[test]
fn the_first_fault_is_the_one_reported() {
    let bad = LevelConfig {
        asteroid_count: 0,
        asteroid_speed_range: (5, 1),
        ufo_spawn_chance: -1,
        ..sound()
    };
    assert_eq!(bad.fault(), Some(ConfigFault::NoAsteroids));
    let bad = LevelConfig { asteroid_speed_range: (5, 1), ufo_spawn_chance: -1, ..sound() };
    assert_eq!(bad.fault(), Some(ConfigFault::SpeedRangeInverted));
}

#[test]
fn the_edges_of_validity_pass() {
    assert_eq!(sound().fault(), None);
    assert_eq!(sound().validate(usize::MAX - 1), Ok(()));
    let zero = LevelConfig { ufo_spawn_chance: 0, ..sound() };
    assert_eq!(zero.fault(), None);
}

#[test]
fn the_levels_are_as_listed() {
    let levels = get_levels();
    assert_eq!(levels.len(), 3);
    assert_eq!(levels[0].asteroid_count, 4);
    assert_eq!(levels[0].asteroid_speed_range, (1000, 2000));
    assert_eq!(levels[0].ufo_spawn_chance, 0);
    assert_eq!(levels[1].asteroid_count, 6);
    assert_eq!(levels[1].asteroid_speed_range, (2000, 3500));
    assert_eq!(levels[1].ufo_spawn_chance, 2000);
    assert_eq!(levels[1].ufo_speed, 2000);
    assert_eq!(levels[2].asteroid_count, 8);
    assert_eq!(levels[2].asteroid_speed_range, (3000, 5000));
    assert_eq!(levels[2].asteroid_size_mult, 1200);
    assert_eq!(levels[2].ufo_spawn_chance, 8000);
    assert_eq!(levels[2].ufo_speed, 3500);
}

#[test]
fn scaling_derives_a_level_and_leaves_the_level_as_it_was() {
    let levels = get_levels();
    let hard = levels[2].scaled(1200, 1300);
    assert_eq!(hard.asteroid_count, 8);
    assert_eq!(hard.asteroid_speed_range, (3600, 6000));
    assert_eq!(hard.asteroid_size_mult, 1200);
    assert_eq!(hard.ufo_spawn_chance, 10_400);
    assert_eq!(hard.ufo_speed, 4200);
    let easy = levels[1].scaled(850, 700);
    assert_eq!(easy.asteroid_speed_range, (1700, 2975));
    assert_eq!(easy.ufo_spawn_chance, 1400);
    assert_eq!(easy.ufo_speed, 1700);
    assert_eq!(levels[2].asteroid_speed_range, (3000, 5000));
    assert_eq!(levels[2].ufo_spawn_chance, 8000);
}

#[test]
fn every_level_is_validated_before_play_and_the_first_fault_is_named() {
    assert_eq!(validate_levels(&get_levels()), Ok(()));
    assert_eq!(validate_levels(&Vec::new()), Ok(()));
    let mut levels = get_levels();
    levels[2].asteroid_count = 0;
    assert_eq!(
        validate_levels(&levels),
        Err("Level 3: Asteroid count must be greater than 0".to_string())
    );
    levels[1].ufo_spawn_chance = 2_000_000;
    assert_eq!(
        validate_levels(&levels),
        Err("Level 2: UFO spawn chance must be between 0.0 and 1.0".to_string())
    );
}
