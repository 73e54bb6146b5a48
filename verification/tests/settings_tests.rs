use asteroids_core::settings::{
    parse_byte, parse_flag, parse_volume, Difficulty, Settings,
};

#[test]
fn test_settings_parse_defaults() {
    let s = Settings::from_str("");
    assert_eq!(s, Settings::default());
}

#[test]
fn test_settings_parse_values() {
    let s = Settings::from_str("volume=0.5\ndifficulty=3\nshow_fps=true\n");
    assert_eq!(s.volume, 500);
    assert_eq!(s.difficulty, Difficulty::Hard);
    assert!(s.show_fps);
}

#[test]
fn test_settings_clamp() {
    let s = Settings::from_str("volume=2.5\n");
    assert_eq!(s.volume, 1000);
}

#[test]
fn test_difficulty_cycle() {
    assert_eq!(Difficulty::Easy.next(), Difficulty::Normal);
    assert_eq!(Difficulty::Normal.next(), Difficulty::Hard);
    assert_eq!(Difficulty::Hard.next(), Difficulty::Easy);

    assert_eq!(Difficulty::Easy.prev(), Difficulty::Hard);
    assert_eq!(Difficulty::Normal.prev(), Difficulty::Easy);
    assert_eq!(Difficulty::Hard.prev(), Difficulty::Normal);
}

#[test]
fn the_defaults_are_as_documented() {
    let s = Settings::default();
    assert_eq!(s.volume, 800);
    assert_eq!(s.difficulty, Difficulty::Normal);
    assert!(!s.show_fps);
}

#[test]
fn difficulty_numbers() {
    assert_eq!(Difficulty::from_u8(1), Difficulty::Easy);
    assert_eq!(Difficulty::from_u8(2), Difficulty::Normal);
    assert_eq!(Difficulty::from_u8(3), Difficulty::Hard);
    assert_eq!(Difficulty::from_u8(0), Difficulty::Normal);
    assert_eq!(Difficulty::from_u8(4), Difficulty::Normal);
    assert_eq!(Difficulty::from_u8(255), Difficulty::Normal);
    assert_eq!(Difficulty::Easy.to_u8(), 1);
    assert_eq!(Difficulty::Normal.to_u8(), 2);
    assert_eq!(Difficulty::Hard.to_u8(), 3);
}

#[test]
fn difficulty_multipliers() {
    assert_eq!(Difficulty::Easy.speed_multiplier(), 850);
    assert_eq!(Difficulty::Normal.speed_multiplier(), 1000);
    assert_eq!(Difficulty::Hard.speed_multiplier(), 1200);
    assert_eq!(Difficulty::Easy.spawn_multiplier(), 700);
    assert_eq!(Difficulty::Normal.spawn_multiplier(), 1000);
    assert_eq!(Difficulty::Hard.spawn_multiplier(), 1300);
}

#[test]
fn unknown_keys_and_malformed_lines_are_skipped() {
    let s = Settings::from_str(
        "# a comment\n\nnothing here\ncolour=red\nvolume=0.25=3\n=\nvolume\n  volume = 0.3  \n",
    );
    assert_eq!(s.volume, 300);
    assert_eq!(s.difficulty, Difficulty::Normal);
    assert!(!s.show_fps);
}

#[test]
fn a_value_that_cannot_be_read_keeps_what_was_set() {
    let s = Settings::from_str("volume=loud\ndifficulty=hard\ndifficulty=256\ndifficulty=-1\n");
    assert_eq!(s, Settings::default());
    let s = Settings::from_str("difficulty=1\ndifficulty=x\nvolume=0.1\nvolume=.\nvolume=1.2.3");
    assert_eq!(s.difficulty, Difficulty::Easy);
    assert_eq!(s.volume, 100);
}

#[test]
fn a_tier_out_of_range_gives_the_default_tier() {
    let s = Settings::from_str("difficulty=1\ndifficulty=7\n");
    assert_eq!(s.difficulty, Difficulty::Normal);
    let s = Settings::from_str("difficulty=+3");
    assert_eq!(s.difficulty, Difficulty::Hard);
    let s = Settings::from_str("difficulty=003");
    assert_eq!(s.difficulty, Difficulty::Hard);
}

#[test]
fn the_flag_words() {
    for word in ["1", "true", "True", "TRUE"] {
        let s = Settings::from_str(&format!("show_fps={}", word));
        assert!(s.show_fps);
    }
    for word in ["0", "false", "tRUE", "yes", "", "11", "true1"] {
        let s = Settings::from_str(&format!("show_fps=true\nshow_fps={}", word));
        assert!(!s.show_fps);
    }
}

#[test]
fn later_lines_win_and_line_ends_may_carry_a_return() {
    let s = Settings::from_str("volume=0.2\r\nvolume=0.4\r\nshow_fps=1\r\n");
    assert_eq!(s.volume, 400);
    assert!(s.show_fps);
}

#[test]
fn wide_white_space_is_trimmed() {
    let s = Settings::from_str("\u{3000}volume\u{a0}=\u{2003}0.75\u{85}\n");
    assert_eq!(s.volume, 750);
}

#[test]
fn volumes_are_read_to_the_thousandth_and_clamped() {
    let read = |text: &str| {
        let chars: Vec<char> = text.chars().collect();
        parse_volume(&chars, 0, chars.len())
    };
    assert_eq!(read("0"), Some(0));
    assert_eq!(read("1"), Some(1000));
    assert_eq!(read("0.8"), Some(800));
    assert_eq!(read("0.05"), Some(50));
    assert_eq!(read("0.1239"), Some(123));
    assert_eq!(read(".5"), Some(500));
    assert_eq!(read("5."), Some(1000));
    assert_eq!(read("+0.5"), Some(500));
    assert_eq!(read("-0.5"), Some(0));
    assert_eq!(read("000000000000000000000000.999"), Some(999));
    assert_eq!(read("99999999999999999999999999"), Some(1000));
    assert_eq!(read(""), None);
    assert_eq!(read("."), None);
    assert_eq!(read("-"), None);
    assert_eq!(read("0.5x"), None);
    assert_eq!(read("--1"), None);
    assert_eq!(read("+-1"), None);
    assert_eq!(read("1.2.3"), None);
}

#[test]
fn volumes_are_read_with_an_exponent_of_ten() {
    let read = |text: &str| {
        let chars: Vec<char> = text.chars().collect();
        parse_volume(&chars, 0, chars.len())
    };
    assert_eq!(read("1e-1"), Some(100));
    assert_eq!(read("5e-1"), Some(500));
    assert_eq!(read("5E-1"), Some(500));
    assert_eq!(read("0.5e0"), Some(500));
    assert_eq!(read("0.5e+0"), Some(500));
    assert_eq!(read("0.05e1"), Some(500));
    assert_eq!(read("0.05e+1"), Some(500));
    assert_eq!(read(".5e0"), Some(500));
    assert_eq!(read("5.e-1"), Some(500));
    assert_eq!(read("123e-3"), Some(123));
    assert_eq!(read("1234e-4"), Some(123));
    assert_eq!(read("999e-6"), Some(0));
    assert_eq!(read("1e-3"), Some(1));
    assert_eq!(read("1e-4"), Some(0));
    assert_eq!(read("0.0001e3"), Some(100));
    assert_eq!(read("0.0001e4"), Some(1000));
    assert_eq!(read("0.00009e4"), Some(900));
    assert_eq!(read("1e3"), Some(1000));
    assert_eq!(read("0e3"), Some(0));
    assert_eq!(read("0.000e99999999999999999999999999999999999999"), Some(0));
    assert_eq!(read("0.001e99999999999999999999999999999999999999"), Some(1000));
    assert_eq!(read("1e340282366920938463463374607431768211456"), Some(1000));
    assert_eq!(read("9e-340282366920938463463374607431768211456"), Some(0));
    assert_eq!(read("-5e-1"), Some(0));
    assert_eq!(read("+5e-1"), Some(500));
    assert_eq!(read("1e"), None);
    assert_eq!(read("1e+"), None);
    assert_eq!(read("1e-"), None);
    assert_eq!(read("e5"), None);
    assert_eq!(read(".e5"), None);
    assert_eq!(read("1e5.0"), None);
    assert_eq!(read("1e1e1"), None);
    assert_eq!(read("1e 1"), None);
    assert_eq!(read("1x1"), None);
}

#[test]
fn infinity_is_a_volume_beyond_every_number() {
    let read = |text: &str| {
        let chars: Vec<char> = text.chars().collect();
        parse_volume(&chars, 0, chars.len())
    };
    for word in ["inf", "INF", "Inf", "+inf", "infinity", "Infinity", "INFINITY", "+iNfInItY"] {
        assert_eq!(read(word), Some(1000));
    }
    assert_eq!(read("-inf"), Some(0));
    assert_eq!(read("-Infinity"), Some(0));
    for word in ["in", "infi", "infinit", "infinityy", "inf1", "1inf", "info", "nan", "NaN", "-nan", ""] {
        assert_eq!(read(word), None);
    }
    let s = Settings::from_str("volume=0.3\nvolume=nan\n");
    assert_eq!(s.volume, 300);
    let s = Settings::from_str("volume=0.3\nvolume=inf\n");
    assert_eq!(s.volume, 1000);
    let s = Settings::from_str("volume=-inf\n");
    assert_eq!(s.volume, 0);
    let s = Settings::from_str("volume = 25e-2 \n");
    assert_eq!(s.volume, 250);
}

#[test]
fn bytes_are_read_up_to_255() {
    let read = |text: &str| {
        let chars: Vec<char> = text.chars().collect();
        parse_byte(&chars, 0, chars.len())
    };
    assert_eq!(read("0"), Some(0));
    assert_eq!(read("255"), Some(255));
    assert_eq!(read("256"), None);
    assert_eq!(read("+7"), Some(7));
    assert_eq!(read("-7"), None);
    assert_eq!(read("+"), None);
    assert_eq!(read(""), None);
    assert_eq!(read("99999999999999999999"), None);
    let chars: Vec<char> = "x12y".chars().collect();
    assert_eq!(parse_byte(&chars, 1, 3), Some(12));
    assert!(parse_flag(&"a1b".chars().collect(), 1, 2));
}

#[test]
fn settings_are_written_as_lines() {
    let s = Settings { volume: 800, difficulty: Difficulty::Normal, show_fps: false };
    assert_eq!(s.to_string(), "volume=0.8\ndifficulty=2\nshow_fps=0\n");
    let s = Settings { volume: 1000, difficulty: Difficulty::Hard, show_fps: true };
    assert_eq!(s.to_string(), "volume=1\ndifficulty=3\nshow_fps=1\n");
    let s = Settings { volume: 55, difficulty: Difficulty::Easy, show_fps: true };
    assert_eq!(s.to_string(), "volume=0.055\ndifficulty=1\nshow_fps=1\n");
    let s = Settings { volume: 750, difficulty: Difficulty::Easy, show_fps: true };
    assert_eq!(s.to_string(), "volume=0.75\ndifficulty=1\nshow_fps=1\n");
    let s = Settings { volume: -1500, difficulty: Difficulty::Easy, show_fps: true };
    assert_eq!(s.to_string(), "volume=-1.5\ndifficulty=1\nshow_fps=1\n");
    let s = Settings { volume: i32::MIN, difficulty: Difficulty::Easy, show_fps: true };
    assert_eq!(s.to_string(), "volume=-2147483.648\ndifficulty=1\nshow_fps=1\n");
}

#[test]
fn what_is_written_is_read_back() {
    for volume in [0, 1, 10, 55, 100, 500, 750, 800, 999, 1000] {
        for difficulty in [Difficulty::Easy, Difficulty::Normal, Difficulty::Hard] {
            for show_fps in [false, true] {
                let s = Settings { volume, difficulty, show_fps };
                assert_eq!(Settings::from_str(&s.to_string()), s);
            }
        }
    }
}

#[test]
fn clamp_brings_the_volume_into_range() {
    let mut s = Settings { volume: 1500, difficulty: Difficulty::Hard, show_fps: true };
    s.clamp();
    assert_eq!(s, Settings { volume: 1000, difficulty: Difficulty::Hard, show_fps: true });
    s.volume = -3;
    s.clamp();
    assert_eq!(s.volume, 0);
    s.volume = 640;
    s.clamp();
    assert_eq!(s.volume, 640);
}
