use beepsong::Note;
use beepsong::parser::parse_melody;
use beepsong::presets::{
    happy_birthday, imperial_march, jingle_bells, nokia_tune, super_mario, tetris_theme,
};

fn lines(xs: &[&str]) -> Vec<Vec<u8>> {
    xs.iter().map(|s| s.as_bytes().to_vec()).collect()
}

#[test]
fn preset_lengths() {
    assert_eq!(tetris_theme().len(), 40);
    assert_eq!(jingle_bells().len(), 36);
    assert_eq!(imperial_march().len(), 18);
    assert_eq!(nokia_tune().len(), 13);
    assert_eq!(super_mario().len(), 33);
    assert_eq!(happy_birthday().len(), 25);
}

#[test]
fn tetris_first_and_last() {
    let t = tetris_theme();
    assert_eq!(t[0], Note { frequency: 659, duration_ms: 250 });
    assert_eq!(t[t.len() - 1], Note { frequency: 0, duration_ms: 250 });
}

#[test]
fn nokia_ends_on_a_long_a4() {
    let t = nokia_tune();
    assert_eq!(t[12], Note { frequency: 440, duration_ms: 380 });
}

#[test]
fn imperial_march_uses_the_lowered_third() {
    let t = imperial_march();
    assert_eq!(t[3], Note { frequency: 247, duration_ms: 250 });
    assert_eq!(t[12], Note { frequency: 494, duration_ms: 250 });
}

#[test]
fn jingle_bells_round_trips_through_the_parser() {
    let score = [
        "E4 Q", "E4 Q", "E4 H",
        "E4 Q", "E4 Q", "E4 H",
        "E4 Q", "G4 Q", "C4 Q", "D4 Q",
        "E4 W",
        "F4 Q", "F4 Q", "F4 Q", "F4 Q",
        "F4 Q", "E4 Q", "E4 Q", "E4 Q",
        "E4 Q", "D4 Q", "D4 Q", "E4 Q",
        "D4 H", "G4 H",
        "E4 Q", "E4 Q", "E4 H",
        "E4 Q", "E4 Q", "E4 H",
        "E4 Q", "G4 Q", "C4 Q", "D4 Q",
        "E4 W",
    ];
    let parsed = parse_melody(&lines(&score));
    assert!(parsed.warnings.is_empty());
    assert_eq!(parsed.events, jingle_bells());
}
