use vstd::prelude::*;

use crate::Note;
use crate::notes::EIGHTH;
use crate::notes::HALF;
use crate::notes::NOTE_A4;
use crate::notes::NOTE_A5;
use crate::notes::NOTE_AS4;
use crate::notes::NOTE_B4;
use crate::notes::NOTE_C4;
use crate::notes::NOTE_C5;
use crate::notes::NOTE_CS4;
use crate::notes::NOTE_CS5;
use crate::notes::NOTE_D4;
use crate::notes::NOTE_D5;
use crate::notes::NOTE_E4;
use crate::notes::NOTE_E5;
use crate::notes::NOTE_F4;
use crate::notes::NOTE_F5;
use crate::notes::NOTE_FS4;
use crate::notes::NOTE_G4;
use crate::notes::NOTE_G5;
use crate::notes::NOTE_GS4;
use crate::notes::NOTE_REST;
use crate::notes::QUARTER;
use crate::notes::WHOLE;

verus! {

/// Sixteenth-note timing used by the Nokia tune, with its double and its
/// quadruple.
pub const NOKIA_SIXTEENTH: u32 = 95;

pub const NOKIA_EIGHTH: u32 = 190;

pub const NOKIA_QUARTER: u32 = 380;

/// The classic Nokia ringtone (Gran Vals), as tone events.
pub open spec fn spec_nokia_tune() -> Seq<Note> {
    seq![
        (Note { frequency: NOTE_E5, duration_ms: NOKIA_SIXTEENTH }),
        (Note { frequency: NOTE_D5, duration_ms: NOKIA_SIXTEENTH }),
        (Note { frequency: NOTE_FS4, duration_ms: NOKIA_EIGHTH }),
        (Note { frequency: NOTE_GS4, duration_ms: NOKIA_EIGHTH }),
        (Note { frequency: NOTE_CS5, duration_ms: NOKIA_SIXTEENTH }),
        (Note { frequency: NOTE_B4, duration_ms: NOKIA_SIXTEENTH }),
        (Note { frequency: NOTE_D4, duration_ms: NOKIA_EIGHTH }),
        (Note { frequency: NOTE_E4, duration_ms: NOKIA_EIGHTH }),
        (Note { frequency: NOTE_B4, duration_ms: NOKIA_SIXTEENTH }),
        (Note { frequency: NOTE_A4, duration_ms: NOKIA_SIXTEENTH }),
        (Note { frequency: NOTE_CS4, duration_ms: NOKIA_EIGHTH }),
        (Note { frequency: NOTE_E4, duration_ms: NOKIA_EIGHTH }),
        (Note { frequency: NOTE_A4, duration_ms: NOKIA_QUARTER }),
    ]
}

/// Builds the Nokia tune preset.
pub fn nokia_tune() -> (r: Vec<Note>)
    ensures
        r@ == spec_nokia_tune(),
{
    let r: Vec<Note> = vec![
        Note::new(NOTE_E5, NOKIA_SIXTEENTH),
        Note::new(NOTE_D5, NOKIA_SIXTEENTH),
        Note::new(NOTE_FS4, NOKIA_EIGHTH),
        Note::new(NOTE_GS4, NOKIA_EIGHTH),
        Note::new(NOTE_CS5, NOKIA_SIXTEENTH),
        Note::new(NOTE_B4, NOKIA_SIXTEENTH),
        Note::new(NOTE_D4, NOKIA_EIGHTH),
        Note::new(NOTE_E4, NOKIA_EIGHTH),
        Note::new(NOTE_B4, NOKIA_SIXTEENTH),
        Note::new(NOTE_A4, NOKIA_SIXTEENTH),
        Note::new(NOTE_CS4, NOKIA_EIGHTH),
        Note::new(NOTE_E4, NOKIA_EIGHTH),
        Note::new(NOTE_A4, NOKIA_QUARTER),
    ];
    proof {
        assert(r@ =~= spec_nokia_tune());
    }
    r
}

/// The Tetris theme (Korobeiniki), as tone events.
pub open spec fn spec_tetris_theme() -> Seq<Note> {
    seq![
        (Note { frequency: NOTE_E5, duration_ms: QUARTER }),
        (Note { frequency: NOTE_B4, duration_ms: EIGHTH }),
        (Note { frequency: NOTE_C5, duration_ms: EIGHTH }),
        (Note { frequency: NOTE_D5, duration_ms: QUARTER }),
        (Note { frequency: NOTE_C5, duration_ms: EIGHTH }),
        (Note { frequency: NOTE_B4, duration_ms: EIGHTH }),
        (Note { frequency: NOTE_A4, duration_ms: QUARTER }),
        (Note { frequency: NOTE_A4, duration_ms: EIGHTH }),
        (Note { frequency: NOTE_C5, duration_ms: EIGHTH }),
        (Note { frequency: NOTE_E5, duration_ms: QUARTER }),
        (Note { frequency: NOTE_D5, duration_ms: EIGHTH }),
        (Note { frequency: NOTE_C5, duration_ms: EIGHTH }),
        (Note { frequency: NOTE_B4, duration_ms: QUARTER }),
        (Note { frequency: NOTE_B4, duration_ms: EIGHTH }),
        (Note { frequency: NOTE_C5, duration_ms: EIGHTH }),
        (Note { frequency: NOTE_D5, duration_ms: QUARTER }),
        (Note { frequency: NOTE_E5, duration_ms: QUARTER }),
        (Note { frequency: NOTE_C5, duration_ms: QUARTER }),
        (Note { frequency: NOTE_A4, duration_ms: QUARTER }),
        (Note { frequency: NOTE_A4, duration_ms: QUARTER }),
        (Note { frequency: NOTE_REST, duration_ms: QUARTER }),
        (Note { frequency: NOTE_D5, duration_ms: QUARTER }),
        (Note { frequency: NOTE_F5, duration_ms: EIGHTH }),
        (Note { frequency: NOTE_A5, duration_ms: QUARTER }),
        (Note { frequency: NOTE_G5, duration_ms: EIGHTH }),
        (Note { frequency: NOTE_F5, duration_ms: EIGHTH }),
        (Note { frequency: NOTE_E5, duration_ms: QUARTER }),
        (Note { frequency: NOTE_C5, duration_ms: EIGHTH }),
        (Note { frequency: NOTE_E5, duration_ms: QUARTER }),
        (Note { frequency: NOTE_D5, duration_ms: EIGHTH }),
        (Note { frequency: NOTE_C5, duration_ms: EIGHTH }),
        (Note { frequency: NOTE_B4, duration_ms: QUARTER }),
        (Note { frequency: NOTE_B4, duration_ms: EIGHTH }),
        (Note { frequency: NOTE_C5, duration_ms: EIGHTH }),
        (Note { frequency: NOTE_D5, duration_ms: QUARTER }),
        (Note { frequency: NOTE_E5, duration_ms: QUARTER }),
        (Note { frequency: NOTE_C5, duration_ms: QUARTER }),
        (Note { frequency: NOTE_A4, duration_ms: QUARTER }),
        (Note { frequency: NOTE_A4, duration_ms: QUARTER }),
        (Note { frequency: NOTE_REST, duration_ms: QUARTER }),
    ]
}

/// Builds the Tetris theme preset.
pub fn tetris_theme() -> (r: Vec<Note>)
    ensures
        r@ == spec_tetris_theme(),
{
    let r: Vec<Note> = vec![
        Note::new(NOTE_E5, QUARTER),
        Note::new(NOTE_B4, EIGHTH),
        Note::new(NOTE_C5, EIGHTH),
        Note::new(NOTE_D5, QUARTER),
        Note::new(NOTE_C5, EIGHTH),
        Note::new(NOTE_B4, EIGHTH),
        Note::new(NOTE_A4, QUARTER),
        Note::new(NOTE_A4, EIGHTH),
        Note::new(NOTE_C5, EIGHTH),
        Note::new(NOTE_E5, QUARTER),
        Note::new(NOTE_D5, EIGHTH),
        Note::new(NOTE_C5, EIGHTH),
        Note::new(NOTE_B4, QUARTER),
        Note::new(NOTE_B4, EIGHTH),
        Note::new(NOTE_C5, EIGHTH),
        Note::new(NOTE_D5, QUARTER),
        Note::new(NOTE_E5, QUARTER),
        Note::new(NOTE_C5, QUARTER),
        Note::new(NOTE_A4, QUARTER),
        Note::new(NOTE_A4, QUARTER),
        Note::new(NOTE_REST, QUARTER),
        Note::new(NOTE_D5, QUARTER),
        Note::new(NOTE_F5, EIGHTH),
        Note::new(NOTE_A5, QUARTER),
        Note::new(NOTE_G5, EIGHTH),
        Note::new(NOTE_F5, EIGHTH),
        Note::new(NOTE_E5, QUARTER),
        Note::new(NOTE_C5, EIGHTH),
        Note::new(NOTE_E5, QUARTER),
        Note::new(NOTE_D5, EIGHTH),
        Note::new(NOTE_C5, EIGHTH),
        Note::new(NOTE_B4, QUARTER),
        Note::new(NOTE_B4, EIGHTH),
        Note::new(NOTE_C5, EIGHTH),
        Note::new(NOTE_D5, QUARTER),
        Note::new(NOTE_E5, QUARTER),
        Note::new(NOTE_C5, QUARTER),
        Note::new(NOTE_A4, QUARTER),
        Note::new(NOTE_A4, QUARTER),
        Note::new(NOTE_REST, QUARTER),
    ];
    proof {
        assert(r@ =~= spec_tetris_theme());
    }
    r
}

/// Jingle Bells, as tone events.
pub open spec fn spec_jingle_bells() -> Seq<Note> {
    seq![
        (Note { frequency: NOTE_E4, duration_ms: QUARTER }),
        (Note { frequency: NOTE_E4, duration_ms: QUARTER }),
        (Note { frequency: NOTE_E4, duration_ms: HALF }),
        (Note { frequency: NOTE_E4, duration_ms: QUARTER }),
        (Note { frequency: NOTE_E4, duration_ms: QUARTER }),
        (Note { frequency: NOTE_E4, duration_ms: HALF }),
        (Note { frequency: NOTE_E4, duration_ms: QUARTER }),
        (Note { frequency: NOTE_G4, duration_ms: QUARTER }),
        (Note { frequency: NOTE_C4, duration_ms: QUARTER }),
        (Note { frequency: NOTE_D4, duration_ms: QUARTER }),
        (Note { frequency: NOTE_E4, duration_ms: WHOLE }),
        (Note { frequency: NOTE_F4, duration_ms: QUARTER }),
        (Note { frequency: NOTE_F4, duration_ms: QUARTER }),
        (Note { frequency: NOTE_F4, duration_ms: QUARTER }),
        (Note { frequency: NOTE_F4, duration_ms: QUARTER }),
        (Note { frequency: NOTE_F4, duration_ms: QUARTER }),
        (Note { frequency: NOTE_E4, duration_ms: QUARTER }),
        (Note { frequency: NOTE_E4, duration_ms: QUARTER }),
        (Note { frequency: NOTE_E4, duration_ms: QUARTER }),
        (Note { frequency: NOTE_E4, duration_ms: QUARTER }),
        (Note { frequency: NOTE_D4, duration_ms: QUARTER }),
        (Note { frequency: NOTE_D4, duration_ms: QUARTER }),
        (Note { frequency: NOTE_E4, duration_ms: QUARTER }),
        (Note { frequency: NOTE_D4, duration_ms: HALF }),
        (Note { frequency: NOTE_G4, duration_ms: HALF }),
        (Note { frequency: NOTE_E4, duration_ms: QUARTER }),
        (Note { frequency: NOTE_E4, duration_ms: QUARTER }),
        (Note { frequency: NOTE_E4, duration_ms: HALF }),
        (Note { frequency: NOTE_E4, duration_ms: QUARTER }),
        (Note { frequency: NOTE_E4, duration_ms: QUARTER }),
        (Note { frequency: NOTE_E4, duration_ms: HALF }),
        (Note { frequency: NOTE_E4, duration_ms: QUARTER }),
        (Note { frequency: NOTE_G4, duration_ms: QUARTER }),
        (Note { frequency: NOTE_C4, duration_ms: QUARTER }),
        (Note { frequency: NOTE_D4, duration_ms: QUARTER }),
        (Note { frequency: NOTE_E4, duration_ms: WHOLE }),
    ]
}

/// Builds the Jingle Bells preset.
pub fn jingle_bells() -> (r: Vec<Note>)
    ensures
        r@ == spec_jingle_bells(),
{
    let r: Vec<Note> = vec![
        Note::new(NOTE_E4, QUARTER),
        Note::new(NOTE_E4, QUARTER),
        Note::new(NOTE_E4, HALF),
        Note::new(NOTE_E4, QUARTER),
        Note::new(NOTE_E4, QUARTER),
        Note::new(NOTE_E4, HALF),
        Note::new(NOTE_E4, QUARTER),
        Note::new(NOTE_G4, QUARTER),
        Note::new(NOTE_C4, QUARTER),
        Note::new(NOTE_D4, QUARTER),
        Note::new(NOTE_E4, WHOLE),
        Note::new(NOTE_F4, QUARTER),
        Note::new(NOTE_F4, QUARTER),
        Note::new(NOTE_F4, QUARTER),
        Note::new(NOTE_F4, QUARTER),
        Note::new(NOTE_F4, QUARTER),
        Note::new(NOTE_E4, QUARTER),
        Note::new(NOTE_E4, QUARTER),
        Note::new(NOTE_E4, QUARTER),
        Note::new(NOTE_E4, QUARTER),
        Note::new(NOTE_D4, QUARTER),
        Note::new(NOTE_D4, QUARTER),
        Note::new(NOTE_E4, QUARTER),
        Note::new(NOTE_D4, HALF),
        Note::new(NOTE_G4, HALF),
        Note::new(NOTE_E4, QUARTER),
        Note::new(NOTE_E4, QUARTER),
        Note::new(NOTE_E4, HALF),
        Note::new(NOTE_E4, QUARTER),
        Note::new(NOTE_E4, QUARTER),
        Note::new(NOTE_E4, HALF),
        Note::new(NOTE_E4, QUARTER),
        Note::new(NOTE_G4, QUARTER),
        Note::new(NOTE_C4, QUARTER),
        Note::new(NOTE_D4, QUARTER),
        Note::new(NOTE_E4, WHOLE),
    ];
    proof {
        assert(r@ =~= spec_jingle_bells());
    }
    r
}

/// Three quarters of E4 and of E5, the lowered tones the march is scored
/// with here.
pub const THREE_QUARTERS_E4: u32 = 247;

pub const THREE_QUARTERS_E5: u32 = 494;

/// The Imperial March, as tone events.
pub open spec fn spec_imperial_march() -> Seq<Note> {
    seq![
        (Note { frequency: NOTE_G4, duration_ms: QUARTER }),
        (Note { frequency: NOTE_G4, duration_ms: QUARTER }),
        (Note { frequency: NOTE_G4, duration_ms: QUARTER }),
        (Note { frequency: THREE_QUARTERS_E4, duration_ms: QUARTER }),
        (Note { frequency: NOTE_B4, duration_ms: EIGHTH }),
        (Note { frequency: NOTE_G4, duration_ms: QUARTER }),
        (Note { frequency: THREE_QUARTERS_E4, duration_ms: QUARTER }),
        (Note { frequency: NOTE_B4, duration_ms: EIGHTH }),
        (Note { frequency: NOTE_G4, duration_ms: HALF }),
        (Note { frequency: NOTE_D5, duration_ms: QUARTER }),
        (Note { frequency: NOTE_D5, duration_ms: QUARTER }),
        (Note { frequency: NOTE_D5, duration_ms: QUARTER }),
        (Note { frequency: THREE_QUARTERS_E5, duration_ms: QUARTER }),
        (Note { frequency: NOTE_B4, duration_ms: EIGHTH }),
        (Note { frequency: NOTE_G4, duration_ms: QUARTER }),
        (Note { frequency: THREE_QUARTERS_E4, duration_ms: QUARTER }),
        (Note { frequency: NOTE_B4, duration_ms: EIGHTH }),
        (Note { frequency: NOTE_G4, duration_ms: HALF }),
    ]
}

/// Builds the Imperial March preset.
pub fn imperial_march() -> (r: Vec<Note>)
    ensures
        r@ == spec_imperial_march(),
{
    let r: Vec<Note> = vec![
        Note::new(NOTE_G4, QUARTER),
        Note::new(NOTE_G4, QUARTER),
        Note::new(NOTE_G4, QUARTER),
        Note::new(THREE_QUARTERS_E4, QUARTER),
        Note::new(NOTE_B4, EIGHTH),
        Note::new(NOTE_G4, QUARTER),
        Note::new(THREE_QUARTERS_E4, QUARTER),
        Note::new(NOTE_B4, EIGHTH),
        Note::new(NOTE_G4, HALF),
        Note::new(NOTE_D5, QUARTER),
        Note::new(NOTE_D5, QUARTER),
        Note::new(NOTE_D5, QUARTER),
        Note::new(THREE_QUARTERS_E5, QUARTER),
        Note::new(NOTE_B4, EIGHTH),
        Note::new(NOTE_G4, QUARTER),
        Note::new(THREE_QUARTERS_E4, QUARTER),
        Note::new(NOTE_B4, EIGHTH),
        Note::new(NOTE_G4, HALF),
    ];
    proof {
        assert(r@ =~= spec_imperial_march());
    }
    r
}

/// Super Mario timing: a quarter and an eighth shortened by the 1.2 tempo
/// factor and rounded down, and three of those eighths.
pub const MARIO_QUARTER: u32 = 208;

pub const MARIO_EIGHTH: u32 = 104;

pub const MARIO_THREE_EIGHTHS: u32 = 312;

/// The Super Mario Bros theme — intro, then main theme — as tone events.
pub open spec fn spec_super_mario() -> Seq<Note> {
    seq![
        (Note { frequency: NOTE_E5, duration_ms: MARIO_EIGHTH }),
        (Note { frequency: NOTE_E5, duration_ms: MARIO_EIGHTH }),
        (Note { frequency: NOTE_REST, duration_ms: MARIO_EIGHTH }),
        (Note { frequency: NOTE_E5, duration_ms: MARIO_EIGHTH }),
        (Note { frequency: NOTE_REST, duration_ms: MARIO_EIGHTH }),
        (Note { frequency: NOTE_C5, duration_ms: MARIO_EIGHTH }),
        (Note { frequency: NOTE_E5, duration_ms: MARIO_QUARTER }),
        (Note { frequency: NOTE_G5, duration_ms: MARIO_QUARTER }),
        (Note { frequency: NOTE_REST, duration_ms: MARIO_QUARTER }),
        (Note { frequency: NOTE_G4, duration_ms: MARIO_QUARTER }),
        (Note { frequency: NOTE_REST, duration_ms: MARIO_QUARTER }),
        (Note { frequency: NOTE_C5, duration_ms: MARIO_QUARTER }),
        (Note { frequency: NOTE_REST, duration_ms: MARIO_EIGHTH }),
        (Note { frequency: NOTE_G4, duration_ms: MARIO_EIGHTH }),
        (Note { frequency: NOTE_REST, duration_ms: MARIO_QUARTER }),
        (Note { frequency: NOTE_E4, duration_ms: MARIO_QUARTER }),
        (Note { frequency: NOTE_REST, duration_ms: MARIO_EIGHTH }),
        (Note { frequency: NOTE_A4, duration_ms: MARIO_QUARTER }),
        (Note { frequency: NOTE_B4, duration_ms: MARIO_QUARTER }),
        (Note { frequency: NOTE_AS4, duration_ms: MARIO_EIGHTH }),
        (Note { frequency: NOTE_A4, duration_ms: MARIO_QUARTER }),
        (Note { frequency: NOTE_G4, duration_ms: MARIO_THREE_EIGHTHS }),
        (Note { frequency: NOTE_E5, duration_ms: MARIO_THREE_EIGHTHS }),
        (Note { frequency: NOTE_G5, duration_ms: MARIO_THREE_EIGHTHS }),
        (Note { frequency: NOTE_A5, duration_ms: MARIO_QUARTER }),
        (Note { frequency: NOTE_F5, duration_ms: MARIO_EIGHTH }),
        (Note { frequency: NOTE_G5, duration_ms: MARIO_EIGHTH }),
        (Note { frequency: NOTE_REST, duration_ms: MARIO_EIGHTH }),
        (Note { frequency: NOTE_E5, duration_ms: MARIO_QUARTER }),
        (Note { frequency: NOTE_C5, duration_ms: MARIO_EIGHTH }),
        (Note { frequency: NOTE_D5, duration_ms: MARIO_EIGHTH }),
        (Note { frequency: NOTE_B4, duration_ms: MARIO_QUARTER }),
        (Note { frequency: NOTE_REST, duration_ms: MARIO_QUARTER }),
    ]
}

/// Builds the Super Mario Bros theme preset.
pub fn super_mario() -> (r: Vec<Note>)
    ensures
        r@ == spec_super_mario(),
{
    let r: Vec<Note> = vec![
        Note::new(NOTE_E5, MARIO_EIGHTH),
        Note::new(NOTE_E5, MARIO_EIGHTH),
        Note::new(NOTE_REST, MARIO_EIGHTH),
        Note::new(NOTE_E5, MARIO_EIGHTH),
        Note::new(NOTE_REST, MARIO_EIGHTH),
        Note::new(NOTE_C5, MARIO_EIGHTH),
        Note::new(NOTE_E5, MARIO_QUARTER),
        Note::new(NOTE_G5, MARIO_QUARTER),
        Note::new(NOTE_REST, MARIO_QUARTER),
        Note::new(NOTE_G4, MARIO_QUARTER),
        Note::new(NOTE_REST, MARIO_QUARTER),
        Note::new(NOTE_C5, MARIO_QUARTER),
        Note::new(NOTE_REST, MARIO_EIGHTH),
        Note::new(NOTE_G4, MARIO_EIGHTH),
        Note::new(NOTE_REST, MARIO_QUARTER),
        Note::new(NOTE_E4, MARIO_QUARTER),
        Note::new(NOTE_REST, MARIO_EIGHTH),
        Note::new(NOTE_A4, MARIO_QUARTER),
        Note::new(NOTE_B4, MARIO_QUARTER),
        Note::new(NOTE_AS4, MARIO_EIGHTH),
        Note::new(NOTE_A4, MARIO_QUARTER),
        Note::new(NOTE_G4, MARIO_THREE_EIGHTHS),
        Note::new(NOTE_E5, MARIO_THREE_EIGHTHS),
        Note::new(NOTE_G5, MARIO_THREE_EIGHTHS),
        Note::new(NOTE_A5, MARIO_QUARTER),
        Note::new(NOTE_F5, MARIO_EIGHTH),
        Note::new(NOTE_G5, MARIO_EIGHTH),
        Note::new(NOTE_REST, MARIO_EIGHTH),
        Note::new(NOTE_E5, MARIO_QUARTER),
        Note::new(NOTE_C5, MARIO_EIGHTH),
        Note::new(NOTE_D5, MARIO_EIGHTH),
        Note::new(NOTE_B4, MARIO_QUARTER),
        Note::new(NOTE_REST, MARIO_QUARTER),
    ];
    proof {
        assert(r@ =~= spec_super_mario());
    }
    r
}

/// A dotted quarter: a quarter plus an eighth.
pub const DOTTED_QUARTER: u32 = 375;

/// Happy Birthday, as tone events.
pub open spec fn spec_happy_birthday() -> Seq<Note> {
    seq![
        (Note { frequency: NOTE_C4, duration_ms: QUARTER }),
        (Note { frequency: NOTE_C4, duration_ms: EIGHTH }),
        (Note { frequency: NOTE_D4, duration_ms: DOTTED_QUARTER }),
        (Note { frequency: NOTE_C4, duration_ms: QUARTER }),
        (Note { frequency: NOTE_F4, duration_ms: QUARTER }),
        (Note { frequency: NOTE_E4, duration_ms: HALF }),
        (Note { frequency: NOTE_C4, duration_ms: QUARTER }),
        (Note { frequency: NOTE_C4, duration_ms: EIGHTH }),
        (Note { frequency: NOTE_D4, duration_ms: DOTTED_QUARTER }),
        (Note { frequency: NOTE_C4, duration_ms: QUARTER }),
        (Note { frequency: NOTE_G4, duration_ms: QUARTER }),
        (Note { frequency: NOTE_F4, duration_ms: HALF }),
        (Note { frequency: NOTE_C4, duration_ms: QUARTER }),
        (Note { frequency: NOTE_C4, duration_ms: EIGHTH }),
        (Note { frequency: NOTE_C5, duration_ms: DOTTED_QUARTER }),
        (Note { frequency: NOTE_A4, duration_ms: QUARTER }),
        (Note { frequency: NOTE_F4, duration_ms: QUARTER }),
        (Note { frequency: NOTE_E4, duration_ms: QUARTER }),
        (Note { frequency: NOTE_D4, duration_ms: QUARTER }),
        (Note { frequency: NOTE_AS4, duration_ms: QUARTER }),
        (Note { frequency: NOTE_AS4, duration_ms: EIGHTH }),
        (Note { frequency: NOTE_A4, duration_ms: DOTTED_QUARTER }),
        (Note { frequency: NOTE_F4, duration_ms: QUARTER }),
        (Note { frequency: NOTE_G4, duration_ms: QUARTER }),
        (Note { frequency: NOTE_F4, duration_ms: HALF }),
    ]
}

/// Builds the Happy Birthday preset.
pub fn happy_birthday() -> (r: Vec<Note>)
    ensures
        r@ == spec_happy_birthday(),
{
    let r: Vec<Note> = vec![
        Note::new(NOTE_C4, QUARTER),
        Note::new(NOTE_C4, EIGHTH),
        Note::new(NOTE_D4, DOTTED_QUARTER),
        Note::new(NOTE_C4, QUARTER),
        Note::new(NOTE_F4, QUARTER),
        Note::new(NOTE_E4, HALF),
        Note::new(NOTE_C4, QUARTER),
        Note::new(NOTE_C4, EIGHTH),
        Note::new(NOTE_D4, DOTTED_QUARTER),
        Note::new(NOTE_C4, QUARTER),
        Note::new(NOTE_G4, QUARTER),
        Note::new(NOTE_F4, HALF),
        Note::new(NOTE_C4, QUARTER),
        Note::new(NOTE_C4, EIGHTH),
        Note::new(NOTE_C5, DOTTED_QUARTER),
        Note::new(NOTE_A4, QUARTER),
        Note::new(NOTE_F4, QUARTER),
        Note::new(NOTE_E4, QUARTER),
        Note::new(NOTE_D4, QUARTER),
        Note::new(NOTE_AS4, QUARTER),
        Note::new(NOTE_AS4, EIGHTH),
        Note::new(NOTE_A4, DOTTED_QUARTER),
        Note::new(NOTE_F4, QUARTER),
        Note::new(NOTE_G4, QUARTER),
        Note::new(NOTE_F4, HALF),
    ];
    proof {
        assert(r@ =~= spec_happy_birthday());
    }
    r
}

} // verus!
