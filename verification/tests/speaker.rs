use beepsong::speaker::speaker_tone_arg;

#[test]
fn zero_frequency_silences() {
    assert_eq!(speaker_tone_arg(0, 250), 0);
    assert_eq!(speaker_tone_arg(0, 0), 0);
}

#[test]
fn tone_arg_packs_divisor_and_duration() {
    // 1193180 / 440 = 2711; 500 ms in the high 16 bits.
    assert_eq!(speaker_tone_arg(440, 500), 2711 + 500 * 65536);
    // 1193180 / 262 = 4554.
    assert_eq!(speaker_tone_arg(262, 250), 4554 + 250 * 65536);
}

#[test]
fn oversized_duration_keeps_its_low_sixteen_bits() {
    // 70000 ms wraps to 4464 in the 16 bits the argument can carry.
    assert_eq!(speaker_tone_arg(1000, 70000), 1193 + 4464 * 65536);
}
