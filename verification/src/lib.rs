pub mod laws;
pub mod notes;
pub mod presets;
pub mod speaker;
pub mod parser;

use vstd::prelude::*;

verus! {

/// A single tone: a frequency in hertz (0 means silence) and a length in
/// milliseconds.
#[derive(Clone, Copy, PartialEq, Eq, Structural, Debug)]
pub struct Note {
    pub frequency: u32,
    pub duration_ms: u32,
}

impl Note {
    pub fn new(frequency: u32, duration_ms: u32) -> (n: Note)
        ensures
            n == (Note { frequency, duration_ms }),
    {
        Note { frequency, duration_ms }
    }
}

} // verus!
