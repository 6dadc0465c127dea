use vstd::prelude::*;

use crate::notes::HASH_BYTE;
use crate::Note;
use crate::notes::lemma_resolved_duration_positive;
use crate::notes::spec_resolve_duration;
use crate::notes::spec_resolve_frequency;
use crate::notes::spec_upper;
use crate::notes::resolve_duration;
use crate::notes::resolve_frequency;
use crate::notes::to_upper;

verus! {

/// ASCII whitespace, as `char` whitespace restricts to one byte:
/// space, tab, line feed, vertical tab, form feed, carriage return.
pub open spec fn spec_is_space(b: u8) -> bool {
    b == 32 || (9 <= b && b <= 13)
}

fn is_space(b: u8) -> (r: bool)
    ensures
        r == spec_is_space(b),
{
    b == 32 || (9 <= b && b <= 13)
}

/// The first index at or after `i` that does not hold whitespace, or the
/// length of `s`.
pub open spec fn spec_space_run(s: Seq<u8>, i: int) -> int
    decreases s.len() - i, when 0 <= i <= s.len()
{
    if i >= s.len() || !spec_is_space(s[i]) {
        i
    } else {
        spec_space_run(s, i + 1)
    }
}

/// The first index at or after `i` that holds whitespace, or the length of
/// `s`.
pub open spec fn spec_token_run(s: Seq<u8>, i: int) -> int
    decreases s.len() - i, when 0 <= i <= s.len()
{
    if i >= s.len() || spec_is_space(s[i]) {
        i
    } else {
        spec_token_run(s, i + 1)
    }
}

pub proof fn lemma_space_run_bounds(s: Seq<u8>, i: int)
    requires
        0 <= i <= s.len(),
    ensures
        i <= spec_space_run(s, i) <= s.len(),
        spec_space_run(s, i) < s.len() ==> !spec_is_space(s[spec_space_run(s, i)]),
    decreases s.len() - i,
{
    if i < s.len() && spec_is_space(s[i]) {
        lemma_space_run_bounds(s, i + 1);
    }
}

pub proof fn lemma_token_run_bounds(s: Seq<u8>, i: int)
    requires
        0 <= i <= s.len(),
    ensures
        i <= spec_token_run(s, i) <= s.len(),
        i < s.len() && !spec_is_space(s[i]) ==> i + 1 <= spec_token_run(s, i),
    decreases s.len() - i,
{
    if i < s.len() && !spec_is_space(s[i]) {
        lemma_token_run_bounds(s, i + 1);
    }
}

/// The whitespace-separated tokens of `s` from index `i` on.
pub open spec fn spec_tokens_from(s: Seq<u8>, i: int) -> Seq<Seq<u8>>
    decreases s.len() - i, when 0 <= i <= s.len() via spec_tokens_from_decreases
{
    let j = spec_space_run(s, i);
    if j >= s.len() {
        seq![]
    } else {
        let k = spec_token_run(s, j);
        seq![s.subrange(j, k)] + spec_tokens_from(s, k)
    }
}

#[via_fn]
proof fn spec_tokens_from_decreases(s: Seq<u8>, i: int) {
    lemma_space_run_bounds(s, i);
    let j = spec_space_run(s, i);
    if j < s.len() {
        lemma_token_run_bounds(s, j);
    }
}

/// The tokens that splitting `s` on runs of whitespace yields, in order.
pub open spec fn spec_tokens(s: Seq<u8>) -> Seq<Seq<u8>> {
    spec_tokens_from(s, 0)
}

/// Splits a line on runs of whitespace.
pub fn split_tokens(line: &Vec<u8>) -> (toks: Vec<Vec<u8>>)
    ensures
        toks.deep_view() == spec_tokens(line@),
{
    let ghost s: Seq<u8> = line@;
    let mut toks: Vec<Vec<u8>> = Vec::new();
    let mut i: usize = 0;
    proof {
        assert(toks.deep_view() + spec_tokens_from(s, 0) =~= spec_tokens(s));
    }
    while i < line.len()
        invariant
            s == line@,
            i <= line.len(),
            toks.deep_view() + spec_tokens_from(s, i as int) == spec_tokens(s),
        decreases line.len() - i,
    {
        if is_space(line[i]) {
            assert(spec_tokens_from(s, i as int) == spec_tokens_from(s, i + 1));
            i = i + 1;
        } else {
            let tok_start = i;
            let mut j = i;
            let mut tok: Vec<u8> = Vec::new();
            proof {
                assert(tok@ =~= s.subrange(tok_start as int, j as int));
            }
            while j < line.len()
                invariant
                    s == line@,
                    tok_start <= j <= line.len(),
                    spec_token_run(s, tok_start as int) == spec_token_run(s, j as int),
                    tok@ == s.subrange(tok_start as int, j as int),
                ensures
                    s == line@,
                    tok_start <= j <= line.len(),
                    spec_token_run(s, tok_start as int) == j,
                    tok@ == s.subrange(tok_start as int, j as int),
                decreases line.len() - j,
            {
                let c = line[j];
                if is_space(c) {
                    proof {
                        assert(spec_token_run(s, j as int) == j);
                    }
                    break ;
                }
                tok.push(c);
                j = j + 1;
                assert(tok@ =~= s.subrange(tok_start as int, j as int));
            }
            let ghost prev = toks.deep_view();
            toks.push(tok);
            proof {
                assert(toks.deep_view() =~~= prev.push(tok@));
                assert(spec_space_run(s, i as int) == i);
                assert(spec_tokens_from(s, i as int) == seq![s.subrange(i as int, j as int)]
                    + spec_tokens_from(s, j as int));
                assert(toks.deep_view() + spec_tokens_from(s, j as int) =~~= spec_tokens(s));
            }
            i = j;
        }
    }
    proof {
        assert(spec_tokens_from(s, i as int) =~= Seq::<Seq<u8>>::empty());
        assert(toks.deep_view() =~~= spec_tokens(s));
    }
    toks
}

/// One past the last index below `i` that holds a byte other than
/// whitespace, or zero.
pub open spec fn spec_trim_end_idx(s: Seq<u8>, i: int) -> int
    decreases i, when 0 <= i <= s.len()
{
    if i <= 0 {
        0
    } else if spec_is_space(s[i - 1]) {
        spec_trim_end_idx(s, i - 1)
    } else {
        i
    }
}

/// The line with leading and trailing whitespace removed.
pub open spec fn spec_trim(s: Seq<u8>) -> Seq<u8> {
    let a = spec_space_run(s, 0);
    let b = spec_trim_end_idx(s, s.len() as int);
    if a >= b {
        seq![]
    } else {
        s.subrange(a, b)
    }
}

/// Removes leading and trailing whitespace from a line.
pub fn trim(line: &Vec<u8>) -> (r: Vec<u8>)
    ensures
        r@ == spec_trim(line@),
{
    let ghost s: Seq<u8> = line@;
    let mut a: usize = 0;
    while a < line.len()
        invariant
            s == line@,
            a <= line.len(),
            spec_space_run(s, 0) == spec_space_run(s, a as int),
        ensures
            s == line@,
            a <= line.len(),
            spec_space_run(s, 0) == a,
        decreases line.len() - a,
    {
        if !is_space(line[a]) {
            proof {
                assert(spec_space_run(s, a as int) == a);
            }
            break ;
        }
        a = a + 1;
    }
    let mut b: usize = line.len();
    while b > 0
        invariant
            s == line@,
            b <= line.len(),
            spec_trim_end_idx(s, s.len() as int) == spec_trim_end_idx(s, b as int),
        ensures
            s == line@,
            b <= line.len(),
            spec_trim_end_idx(s, s.len() as int) == b,
        decreases b,
    {
        if !is_space(line[b - 1]) {
            proof {
                assert(spec_trim_end_idx(s, b as int) == b);
            }
            break ;
        }
        b = b - 1;
    }
    let mut r: Vec<u8> = Vec::new();
    let mut k = a;
    proof {
        if a < b {
            assert(r@ =~= s.subrange(a as int, k as int));
        }
    }
    while k < b
        invariant
            s == line@,
            a <= k,
            k <= b || k == a,
            b <= line.len(),
            r@ == if a < b {
                s.subrange(a as int, k as int)
            } else {
                Seq::<u8>::empty()
            },
        decreases b - k,
    {
        r.push(line[k]);
        k = k + 1;
        assert(r@ =~= s.subrange(a as int, k as int));
    }
    proof {
        if a < b {
            assert(r@ =~= spec_trim(s));
        } else {
            assert(r@ =~= spec_trim(s));
        }
    }
    r
}

/// A recoverable per-line failure, reported to the user and never fatal.
pub enum WarningView {
    /// The line does not hold exactly two tokens; carries the trimmed line.
    InvalidFormat { line: Seq<u8> },
    /// The note token resolved to nothing; carries the uppercased token.
    UnknownNote { token: Seq<u8> },
    /// The duration token resolved to nothing; carries the original token.
    UnknownDuration { token: Seq<u8> },
}

/// A recoverable per-line failure, with the text that triggered it.
#[derive(Clone, PartialEq, Eq, Debug)]
pub enum Warning {
    InvalidFormat { line: Vec<u8> },
    UnknownNote { token: Vec<u8> },
    UnknownDuration { token: Vec<u8> },
}

impl View for Warning {
    type V = WarningView;

    open spec fn view(&self) -> WarningView {
        match self {
            Warning::InvalidFormat { line } => WarningView::InvalidFormat { line: line@ },
            Warning::UnknownNote { token } => WarningView::UnknownNote { token: token@ },
            Warning::UnknownDuration { token } => WarningView::UnknownDuration { token: token@ },
        }
    }
}

/// What one source line contributes: nothing, a warning, or a tone.
pub enum LineActionView {
    Ignore,
    Warn(WarningView),
    Play(Note),
}

/// What one source line contributes: nothing, a warning, or a tone.
#[derive(Clone, PartialEq, Eq, Debug)]
pub enum LineAction {
    Ignore,
    Warn(Warning),
    Play(Note),
}

impl View for LineAction {
    type V = LineActionView;

    open spec fn view(&self) -> LineActionView {
        match self {
            LineAction::Ignore => LineActionView::Ignore,
            LineAction::Warn(w) => LineActionView::Warn(w@),
            LineAction::Play(n) => LineActionView::Play(*n),
        }
    }
}

/// How one line parses. Blank lines and `#` comments are ignored; a line
/// other than `<note> <duration>` warns; unresolvable tokens warn, the note
/// token first; otherwise the line plays one tone. Lines are bytes: runs
/// of ASCII whitespace separate the tokens and case folding is ASCII-only,
/// so any other byte passes through its token unchanged and resolves to
/// nothing.
pub open spec fn spec_line_action(line: Seq<u8>) -> LineActionView {
    let t = spec_trim(line);
    if t.len() == 0 || t[0] == HASH_BYTE {
        LineActionView::Ignore
    } else {
        let toks = spec_tokens(t);
        if toks.len() != 2 {
            LineActionView::Warn(WarningView::InvalidFormat { line: t })
        } else {
            match spec_resolve_frequency(toks[0]) {
                Option::None => LineActionView::Warn(
                    WarningView::UnknownNote { token: spec_upper(toks[0]) },
                ),
                Option::Some(f) => match spec_resolve_duration(toks[1]) {
                    Option::None => LineActionView::Warn(
                        WarningView::UnknownDuration { token: toks[1] },
                    ),
                    Option::Some(d) => LineActionView::Play(
                        (Note { frequency: f, duration_ms: d }),
                    ),
                },
            }
        }
    }
}

/// Parses one source line into its action.
pub fn parse_line(line: &Vec<u8>) -> (r: LineAction)
    ensures
        r@ == spec_line_action(line@),
{
    let t = trim(line);
    if t.len() == 0 {
        return LineAction::Ignore;
    }
    if t[0] == HASH_BYTE {
        return LineAction::Ignore;
    }
    let mut toks = split_tokens(&t);
    if toks.len() != 2 {
        return LineAction::Warn(Warning::InvalidFormat { line: t });
    }
    let dur_tok = toks.pop().unwrap();
    let note_tok = toks.pop().unwrap();
    proof {
        assert(note_tok@ == spec_tokens(t@)[0]);
        assert(dur_tok@ == spec_tokens(t@)[1]);
    }
    match resolve_frequency(&note_tok) {
        Option::None => {
            let up = to_upper(&note_tok);
            LineAction::Warn(Warning::UnknownNote { token: up })
        },
        Option::Some(f) => match resolve_duration(&dur_tok) {
            Option::None => LineAction::Warn(Warning::UnknownDuration { token: dur_tok }),
            Option::Some(d) => LineAction::Play(Note { frequency: f, duration_ms: d }),
        },
    }
}

/// A line that plays contributes a positive duration: symbolic codes map
/// to positive lengths and a literal zero never resolves.
pub proof fn lemma_line_event_duration_positive(line: Seq<u8>)
    ensures
        spec_line_action(line) is Play ==> spec_line_action(line)->Play_0.duration_ms > 0,
{
    if spec_line_action(line) is Play {
        let toks = spec_tokens(spec_trim(line));
        lemma_resolved_duration_positive(toks[1]);
    }
}

/// The tones that one line contributes to the melody.
pub open spec fn spec_line_events(line: Seq<u8>) -> Seq<Note> {
    match spec_line_action(line) {
        LineActionView::Play(n) => seq![n],
        _ => seq![],
    }
}

/// The warnings that one line contributes.
pub open spec fn spec_line_warnings(line: Seq<u8>) -> Seq<WarningView> {
    match spec_line_action(line) {
        LineActionView::Warn(w) => seq![w],
        _ => seq![],
    }
}

/// The melody that a source parses to: each line's tones, in line order.
pub open spec fn spec_melody_events(lines: Seq<Seq<u8>>) -> Seq<Note>
    decreases lines.len(),
{
    if lines.len() == 0 {
        seq![]
    } else {
        spec_melody_events(lines.drop_last()) + spec_line_events(lines.last())
    }
}

/// The warnings that a source parses to, in line order.
pub open spec fn spec_melody_warnings(lines: Seq<Seq<u8>>) -> Seq<WarningView>
    decreases lines.len(),
{
    if lines.len() == 0 {
        seq![]
    } else {
        spec_melody_warnings(lines.drop_last()) + spec_line_warnings(lines.last())
    }
}

/// The outcome of a parse: the playable tones in line order, and the
/// warnings for the skipped lines.
pub struct ParseResult {
    pub events: Vec<Note>,
    pub warnings: Vec<Warning>,
}

impl ParseResult {
    /// The warnings as their mathematical views, in order.
    pub open spec fn warnings_view(&self) -> Seq<WarningView> {
        self.warnings@.map_values(|w: Warning| w@)
    }

    /// False exactly on the distinct empty outcome: a parse that yielded no
    /// playable notes, after which no playback must be attempted.
    pub fn has_playable_notes(&self) -> (b: bool)
        ensures
            b <==> self.events@.len() > 0,
    {
        self.events.len() > 0
    }
}

/// Parses a melody source, line by line. A malformed line warns and is
/// skipped; parsing never fails on content. Every event of the resulting
/// sequence has a positive duration; its frequency may be zero (a rest).
/// Lines are bytes: token separation and case folding are ASCII-only.
pub fn parse_melody(lines: &Vec<Vec<u8>>) -> (r: ParseResult)
    ensures
        r.events@ == spec_melody_events(lines.deep_view()),
        r.warnings_view() == spec_melody_warnings(lines.deep_view()),
        forall|k: int|
            0 <= k < r.events@.len() ==> (#[trigger] r.events@[k]).duration_ms > 0,
{
    let ghost ls: Seq<Seq<u8>> = lines.deep_view();
    let mut events: Vec<Note> = Vec::new();
    let mut warnings: Vec<Warning> = Vec::new();
    let mut i: usize = 0;
    proof {
        assert(events@ =~= spec_melody_events(ls.take(0)));
        assert(warnings@.map_values(|w: Warning| w@) =~= spec_melody_warnings(ls.take(0)));
    }
    while i < lines.len()
        invariant
            ls == lines.deep_view(),
            i <= lines.len(),
            events@ == spec_melody_events(ls.take(i as int)),
            warnings@.map_values(|w: Warning| w@) == spec_melody_warnings(ls.take(i as int)),
            forall|k: int| 0 <= k < events@.len() ==> (#[trigger] events@[k]).duration_ms > 0,
        decreases lines.len() - i,
    {
        proof {
            assert(lines@[i as int]@ == ls[i as int]);
        }
        let act = parse_line(&lines[i]);
        let ghost prev_events = events@;
        let ghost prev_warnings = warnings@;
        match act {
            LineAction::Ignore => {},
            LineAction::Warn(w) => {
                warnings.push(w);
            },
            LineAction::Play(n) => {
                proof {
                    lemma_line_event_duration_positive(ls[i as int]);
                }
                events.push(n);
            },
        }
        proof {
            assert(ls.take(i + 1).drop_last() =~= ls.take(i as int));
            assert(ls.take(i + 1).last() == ls[i as int]);
            assert(events@ =~= spec_melody_events(ls.take(i + 1)));
            assert(warnings@.map_values(|w: Warning| w@) =~= spec_melody_warnings(
                ls.take(i + 1),
            ));
        }
        i = i + 1;
    }
    proof {
        assert(ls.take(i as int) =~= ls);
    }
    ParseResult { events, warnings }
}

} // verus!
