use vstd::prelude::*;

verus! {

/// The PC speaker's input clock rate in hertz.
pub const SPEAKER_CLOCK_HZ: u32 = 1193180;

/// The console tone argument for one tone event. Zero means silence.
/// Otherwise the low 16 bits hold the speaker clock divided by the
/// frequency, and the high 16 bits hold the duration in milliseconds —
/// only its low 16 bits, which is all the argument can carry.
pub open spec fn spec_speaker_tone_arg(frequency: u32, duration_ms: u32) -> u32 {
    if frequency == 0 {
        0
    } else {
        ((SPEAKER_CLOCK_HZ / frequency) % 65536 + (duration_ms % 65536) * 65536) as u32
    }
}

/// Computes the console tone argument for a tone event.
pub fn speaker_tone_arg(frequency: u32, duration_ms: u32) -> (arg: u32)
    ensures
        arg == spec_speaker_tone_arg(frequency, duration_ms),
        frequency == 0 ==> arg == 0,
        frequency != 0 ==> arg % 65536 == (SPEAKER_CLOCK_HZ / frequency) % 65536 && arg / 65536
            == duration_ms % 65536,
{
    if frequency == 0 {
        0
    } else {
        let low = (SPEAKER_CLOCK_HZ / frequency) % 65536;
        let high = (duration_ms % 65536) * 65536;
        assert(low + high <= 0xffffffffu32) by {
            assert(low < 65536);
            assert(duration_ms % 65536 < 65536);
        }
        let arg = low + high;
        assert(arg % 65536 == low && arg / 65536 == duration_ms % 65536) by {
            assert(low < 65536);
            assert(duration_ms % 65536 < 65536);
        }
        arg
    }
}

} // verus!
