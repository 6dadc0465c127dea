use vstd::prelude::*;

verus! {

// Note frequencies in hertz, by octave.
pub const NOTE_C3: u32 = 131;
pub const NOTE_CS3: u32 = 139;
pub const NOTE_D3: u32 = 147;
pub const NOTE_DS3: u32 = 156;
pub const NOTE_E3: u32 = 165;
pub const NOTE_F3: u32 = 175;
pub const NOTE_FS3: u32 = 185;
pub const NOTE_G3: u32 = 196;
pub const NOTE_GS3: u32 = 208;
pub const NOTE_A3: u32 = 220;
pub const NOTE_AS3: u32 = 233;
pub const NOTE_B3: u32 = 247;

pub const NOTE_C4: u32 = 262;
pub const NOTE_CS4: u32 = 277;
pub const NOTE_D4: u32 = 294;
pub const NOTE_DS4: u32 = 311;
pub const NOTE_E4: u32 = 330;
pub const NOTE_F4: u32 = 349;
pub const NOTE_FS4: u32 = 370;
pub const NOTE_G4: u32 = 392;
pub const NOTE_GS4: u32 = 415;
pub const NOTE_A4: u32 = 440;
pub const NOTE_AS4: u32 = 466;
pub const NOTE_B4: u32 = 494;

pub const NOTE_C5: u32 = 523;
pub const NOTE_CS5: u32 = 554;
pub const NOTE_D5: u32 = 587;
pub const NOTE_DS5: u32 = 622;
pub const NOTE_E5: u32 = 659;
pub const NOTE_F5: u32 = 698;
pub const NOTE_FS5: u32 = 740;
pub const NOTE_G5: u32 = 784;
pub const NOTE_GS5: u32 = 831;
pub const NOTE_A5: u32 = 880;
pub const NOTE_AS5: u32 = 932;
pub const NOTE_B5: u32 = 988;

/// `REST` plays as silence.
pub const NOTE_REST: u32 = 0;

// Duration codes in milliseconds: a whole note is the base unit of 1000 ms,
// halving per step.
pub const WHOLE: u32 = 1000;
pub const HALF: u32 = 500;
pub const QUARTER: u32 = 250;
pub const EIGHTH: u32 = 125;
pub const SIXTEENTH: u32 = 63;

// ASCII byte values that the tables and the parser match on.
pub const UC_A: u8 = 65;
pub const UC_B: u8 = 66;
pub const UC_C: u8 = 67;
pub const UC_D: u8 = 68;
pub const UC_E: u8 = 69;
pub const UC_F: u8 = 70;
pub const UC_G: u8 = 71;
pub const UC_H: u8 = 72;
pub const UC_Q: u8 = 81;
pub const UC_R: u8 = 82;
pub const UC_S: u8 = 83;
pub const UC_T: u8 = 84;
pub const UC_W: u8 = 87;
pub const LC_A: u8 = 97;
pub const LC_Z: u8 = 122;
pub const DIGIT_0: u8 = 48;
pub const DIGIT_3: u8 = 51;
pub const DIGIT_4: u8 = 52;
pub const DIGIT_5: u8 = 53;
pub const DIGIT_9: u8 = 57;
pub const PLUS_BYTE: u8 = 43;
pub const HASH_BYTE: u8 = 35;

/// ASCII uppercasing of a single byte.
pub open spec fn spec_upper_byte(b: u8) -> u8 {
    if LC_A <= b && b <= LC_Z {
        (b - 32) as u8
    } else {
        b
    }
}

/// ASCII uppercasing of a byte string.
pub open spec fn spec_upper(s: Seq<u8>) -> Seq<u8> {
    s.map_values(|b: u8| spec_upper_byte(b))
}

/// ASCII uppercase of a token, byte by byte.
pub fn to_upper(s: &Vec<u8>) -> (r: Vec<u8>)
    ensures
        r@ == spec_upper(s@),
{
    let mut r: Vec<u8> = Vec::new();
    let mut i: usize = 0;
    while i < s.len()
        invariant
            i <= s.len(),
            r@ == spec_upper(s@).take(i as int),
        decreases s.len() - i,
    {
        let b = s[i];
        if LC_A <= b && b <= LC_Z {
            r.push(b - 32);
        } else {
            r.push(b);
        }
        i = i + 1;
        assert(r@ =~= spec_upper(s@).take(i as int));
    }
    assert(r@ =~= spec_upper(s@));
    r
}

/// The frequency of an unsharpened note name: letter then octave digit.
pub open spec fn spec_plain_note_freq(letter: u8, octave: u8) -> Option<u32> {
    if octave == DIGIT_3 {
        if letter == UC_C {
            Some(NOTE_C3)
        } else if letter == UC_D {
            Some(NOTE_D3)
        } else if letter == UC_E {
            Some(NOTE_E3)
        } else if letter == UC_F {
            Some(NOTE_F3)
        } else if letter == UC_G {
            Some(NOTE_G3)
        } else if letter == UC_A {
            Some(NOTE_A3)
        } else if letter == UC_B {
            Some(NOTE_B3)
        } else {
            None
        }
    } else if octave == DIGIT_4 {
        if letter == UC_C {
            Some(NOTE_C4)
        } else if letter == UC_D {
            Some(NOTE_D4)
        } else if letter == UC_E {
            Some(NOTE_E4)
        } else if letter == UC_F {
            Some(NOTE_F4)
        } else if letter == UC_G {
            Some(NOTE_G4)
        } else if letter == UC_A {
            Some(NOTE_A4)
        } else if letter == UC_B {
            Some(NOTE_B4)
        } else {
            None
        }
    } else if octave == DIGIT_5 {
        if letter == UC_C {
            Some(NOTE_C5)
        } else if letter == UC_D {
            Some(NOTE_D5)
        } else if letter == UC_E {
            Some(NOTE_E5)
        } else if letter == UC_F {
            Some(NOTE_F5)
        } else if letter == UC_G {
            Some(NOTE_G5)
        } else if letter == UC_A {
            Some(NOTE_A5)
        } else if letter == UC_B {
            Some(NOTE_B5)
        } else {
            None
        }
    } else {
        None
    }
}

/// The frequency of a sharpened note name: letter, `S`, octave digit.
/// Only C, D, F, G and A have sharp entries in the table.
pub open spec fn spec_sharp_note_freq(letter: u8, octave: u8) -> Option<u32> {
    if octave == DIGIT_3 {
        if letter == UC_C {
            Some(NOTE_CS3)
        } else if letter == UC_D {
            Some(NOTE_DS3)
        } else if letter == UC_F {
            Some(NOTE_FS3)
        } else if letter == UC_G {
            Some(NOTE_GS3)
        } else if letter == UC_A {
            Some(NOTE_AS3)
        } else {
            None
        }
    } else if octave == DIGIT_4 {
        if letter == UC_C {
            Some(NOTE_CS4)
        } else if letter == UC_D {
            Some(NOTE_DS4)
        } else if letter == UC_F {
            Some(NOTE_FS4)
        } else if letter == UC_G {
            Some(NOTE_GS4)
        } else if letter == UC_A {
            Some(NOTE_AS4)
        } else {
            None
        }
    } else if octave == DIGIT_5 {
        if letter == UC_C {
            Some(NOTE_CS5)
        } else if letter == UC_D {
            Some(NOTE_DS5)
        } else if letter == UC_F {
            Some(NOTE_FS5)
        } else if letter == UC_G {
            Some(NOTE_GS5)
        } else if letter == UC_A {
            Some(NOTE_AS5)
        } else {
            None
        }
    } else {
        None
    }
}

/// The symbolic note table, keyed by an already-uppercased token.
/// Keys are `REST` and octave-qualified note names such as `C4` or `FS5`.
pub open spec fn spec_note_table(t: Seq<u8>) -> Option<u32> {
    if t.len() == 4 && t[0] == UC_R && t[1] == UC_E && t[2] == UC_S && t[3] == UC_T {
        Some(NOTE_REST)
    } else if t.len() == 2 {
        spec_plain_note_freq(t[0], t[1])
    } else if t.len() == 3 && t[1] == UC_S {
        spec_sharp_note_freq(t[0], t[2])
    } else {
        None
    }
}

/// The symbolic duration table, keyed by an already-uppercased token.
pub open spec fn spec_duration_table(t: Seq<u8>) -> Option<u32> {
    if t.len() == 1 {
        if t[0] == UC_W {
            Some(WHOLE)
        } else if t[0] == UC_H {
            Some(HALF)
        } else if t[0] == UC_Q {
            Some(QUARTER)
        } else if t[0] == UC_E {
            Some(EIGHTH)
        } else if t[0] == UC_S {
            Some(SIXTEENTH)
        } else {
            None
        }
    } else {
        None
    }
}

/// Looks an uppercased token up in the symbolic note table.
pub fn note_table_lookup(t: &Vec<u8>) -> (r: Option<u32>)
    ensures
        r == spec_note_table(t@),
{
    if t.len() == 4 && t[0] == UC_R && t[1] == UC_E && t[2] == UC_S && t[3] == UC_T {
        Some(NOTE_REST)
    } else if t.len() == 2 {
        plain_note_lookup(t[0], t[1])
    } else if t.len() == 3 && t[1] == UC_S {
        sharp_note_lookup(t[0], t[2])
    } else {
        None
    }
}

fn plain_note_lookup(letter: u8, octave: u8) -> (r: Option<u32>)
    ensures
        r == spec_plain_note_freq(letter, octave),
{
    if octave == DIGIT_3 {
        if letter == UC_C {
            Some(NOTE_C3)
        } else if letter == UC_D {
            Some(NOTE_D3)
        } else if letter == UC_E {
            Some(NOTE_E3)
        } else if letter == UC_F {
            Some(NOTE_F3)
        } else if letter == UC_G {
            Some(NOTE_G3)
        } else if letter == UC_A {
            Some(NOTE_A3)
        } else if letter == UC_B {
            Some(NOTE_B3)
        } else {
            None
        }
    } else if octave == DIGIT_4 {
        if letter == UC_C {
            Some(NOTE_C4)
        } else if letter == UC_D {
            Some(NOTE_D4)
        } else if letter == UC_E {
            Some(NOTE_E4)
        } else if letter == UC_F {
            Some(NOTE_F4)
        } else if letter == UC_G {
            Some(NOTE_G4)
        } else if letter == UC_A {
            Some(NOTE_A4)
        } else if letter == UC_B {
            Some(NOTE_B4)
        } else {
            None
        }
    } else if octave == DIGIT_5 {
        if letter == UC_C {
            Some(NOTE_C5)
        } else if letter == UC_D {
            Some(NOTE_D5)
        } else if letter == UC_E {
            Some(NOTE_E5)
        } else if letter == UC_F {
            Some(NOTE_F5)
        } else if letter == UC_G {
            Some(NOTE_G5)
        } else if letter == UC_A {
            Some(NOTE_A5)
        } else if letter == UC_B {
            Some(NOTE_B5)
        } else {
            None
        }
    } else {
        None
    }
}

fn sharp_note_lookup(letter: u8, octave: u8) -> (r: Option<u32>)
    ensures
        r == spec_sharp_note_freq(letter, octave),
{
    if octave == DIGIT_3 {
        if letter == UC_C {
            Some(NOTE_CS3)
        } else if letter == UC_D {
            Some(NOTE_DS3)
        } else if letter == UC_F {
            Some(NOTE_FS3)
        } else if letter == UC_G {
            Some(NOTE_GS3)
        } else if letter == UC_A {
            Some(NOTE_AS3)
        } else {
            None
        }
    } else if octave == DIGIT_4 {
        if letter == UC_C {
            Some(NOTE_CS4)
        } else if letter == UC_D {
            Some(NOTE_DS4)
        } else if letter == UC_F {
            Some(NOTE_FS4)
        } else if letter == UC_G {
            Some(NOTE_GS4)
        } else if letter == UC_A {
            Some(NOTE_AS4)
        } else {
            None
        }
    } else if octave == DIGIT_5 {
        if letter == UC_C {
            Some(NOTE_CS5)
        } else if letter == UC_D {
            Some(NOTE_DS5)
        } else if letter == UC_F {
            Some(NOTE_FS5)
        } else if letter == UC_G {
            Some(NOTE_GS5)
        } else if letter == UC_A {
            Some(NOTE_AS5)
        } else {
            None
        }
    } else {
        None
    }
}

/// Looks an uppercased token up in the symbolic duration table.
pub fn duration_table_lookup(t: &Vec<u8>) -> (r: Option<u32>)
    ensures
        r == spec_duration_table(t@),
{
    if t.len() == 1 {
        if t[0] == UC_W {
            Some(WHOLE)
        } else if t[0] == UC_H {
            Some(HALF)
        } else if t[0] == UC_Q {
            Some(QUARTER)
        } else if t[0] == UC_E {
            Some(EIGHTH)
        } else if t[0] == UC_S {
            Some(SIXTEENTH)
        } else {
            None
        }
    } else {
        None
    }
}

/// The value of a digit string, most significant digit first. Bytes are
/// taken at face value; callers guard with `spec_all_digits`.
pub open spec fn spec_digits_val(s: Seq<u8>) -> int
    decreases s.len(),
{
    if s.len() == 0 {
        0
    } else {
        spec_digits_val(s.drop_last()) * 10 + (s.last() - DIGIT_0)
    }
}

pub open spec fn spec_all_digits(s: Seq<u8>) -> bool {
    forall|i: int| 0 <= i < s.len() ==> DIGIT_0 <= s[i] && s[i] <= DIGIT_9
}

/// The digit part of a numeric token: a single leading `+` sign is allowed.
pub open spec fn spec_digit_body(t: Seq<u8>) -> Seq<u8> {
    if t.len() > 0 && t[0] == PLUS_BYTE {
        t.drop_first()
    } else {
        t
    }
}

/// Decimal parsing with the same acceptance as `u32` parsing in std:
/// an optional leading `+`, then one or more ASCII digits, and a value
/// that fits in `u32`.
pub open spec fn spec_parse_u32(t: Seq<u8>) -> Option<u32> {
    let d = spec_digit_body(t);
    if d.len() > 0 && spec_all_digits(d) && spec_digits_val(d) <= u32::MAX {
        Some(spec_digits_val(d) as u32)
    } else {
        None
    }
}

proof fn lemma_digits_val_nonneg(s: Seq<u8>)
    requires
        spec_all_digits(s),
    ensures
        spec_digits_val(s) >= 0,
    decreases s.len(),
{
    if s.len() > 0 {
        assert(spec_all_digits(s.drop_last()));
        lemma_digits_val_nonneg(s.drop_last());
    }
}

/// Extending a digit string to the right never shrinks its value.
proof fn lemma_digits_val_take_monotone(s: Seq<u8>, i: int)
    requires
        0 <= i <= s.len(),
        spec_all_digits(s),
    ensures
        spec_digits_val(s.take(i)) <= spec_digits_val(s),
    decreases s.len() - i,
{
    if i == s.len() {
        assert(s.take(i) =~= s);
    } else {
        assert(s.take(i + 1).drop_last() =~= s.take(i));
        assert(spec_all_digits(s.take(i)));
        lemma_digits_val_nonneg(s.take(i));
        assert(spec_digits_val(s.take(i + 1)) == spec_digits_val(s.take(i)) * 10 + (s[i]
            - DIGIT_0));
        lemma_digits_val_take_monotone(s, i + 1);
    }
}

/// Parses a token as an unsigned decimal number, as `u32` parsing in std
/// accepts it: optional `+`, digits, in-range value.
pub fn parse_u32_token(t: &Vec<u8>) -> (r: Option<u32>)
    ensures
        r == spec_parse_u32(t@),
{
    let ghost d: Seq<u8> = spec_digit_body(t@);
    let start: usize = if t.len() > 0 && t[0] == PLUS_BYTE {
        1
    } else {
        0
    };
    proof {
        assert(d =~= t@.subrange(start as int, t@.len() as int));
    }
    if t.len() == start {
        return None;
    }
    let mut acc: u64 = 0;
    let mut i: usize = start;
    while i < t.len()
        invariant
            start <= i <= t.len(),
            start <= t.len(),
            d == spec_digit_body(t@),
            d =~= t@.subrange(start as int, t@.len() as int),
            spec_all_digits(d.take(i - start)),
            acc == spec_digits_val(d.take(i - start)),
            acc <= u32::MAX,
        decreases t.len() - i,
    {
        let b = t[i];
        if b < DIGIT_0 || b > DIGIT_9 {
            assert(d[i - start] == b);
            assert(!spec_all_digits(d));
            return None;
        }
        let ghost n: int = i - start;
        acc = acc * 10 + ((b - DIGIT_0) as u64);
        proof {
            assert(d.take(n + 1).drop_last() =~= d.take(n));
            assert(d.take(n + 1).last() == b);
            assert(acc == spec_digits_val(d.take(n + 1)));
        }
        if acc > (u32::MAX as u64) {
            proof {
                if spec_all_digits(d) {
                    lemma_digits_val_take_monotone(d, n + 1);
                }
            }
            return None;
        }
        i = i + 1;
    }
    proof {
        assert(d.take(i - start) =~= d);
    }
    Some(acc as u32)
}

/// Note-token resolution: case-insensitive symbolic lookup first, then a
/// literal unsigned parse of the uppercased token as a frequency in hertz.
pub open spec fn spec_resolve_frequency(tok: Seq<u8>) -> Option<u32> {
    let up = spec_upper(tok);
    if spec_note_table(up) is Some {
        spec_note_table(up)
    } else {
        spec_parse_u32(up)
    }
}

/// Duration-token resolution: case-insensitive symbolic lookup first, then
/// a literal unsigned parse of the original token as milliseconds. A
/// literal zero is a failed resolution: a melody event's duration is never
/// zero, though its frequency may be (a rest).
pub open spec fn spec_resolve_duration(tok: Seq<u8>) -> Option<u32> {
    let up = spec_upper(tok);
    if spec_duration_table(up) is Some {
        spec_duration_table(up)
    } else {
        match spec_parse_u32(tok) {
            Option::Some(d) => if d > 0 {
                Option::Some(d)
            } else {
                Option::None
            },
            Option::None => Option::None,
        }
    }
}

/// Resolves a note token to a frequency, or `None` for an unknown note.
pub fn resolve_frequency(tok: &Vec<u8>) -> (r: Option<u32>)
    ensures
        r == spec_resolve_frequency(tok@),
{
    let up = to_upper(tok);
    match note_table_lookup(&up) {
        Some(f) => Some(f),
        None => parse_u32_token(&up),
    }
}

/// Resolves a duration token to milliseconds, or `None` for an unknown or
/// zero duration.
pub fn resolve_duration(tok: &Vec<u8>) -> (r: Option<u32>)
    ensures
        r == spec_resolve_duration(tok@),
{
    let up = to_upper(tok);
    match duration_table_lookup(&up) {
        Some(d) => Some(d),
        None => match parse_u32_token(tok) {
            Some(d) => if d > 0 {
                Some(d)
            } else {
                None
            },
            None => None,
        },
    }
}

/// A duration that resolves at all is positive: the table holds only
/// positive lengths, and the literal fallback rejects zero.
pub proof fn lemma_resolved_duration_positive(tok: Seq<u8>)
    ensures
        spec_resolve_duration(tok) is Some ==> spec_resolve_duration(tok)->Some_0 > 0,
{
}

} // verus!
