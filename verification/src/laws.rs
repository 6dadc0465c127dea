use vstd::prelude::*;

use crate::Note;
use crate::notes::DIGIT_0;
use crate::notes::DIGIT_9;
use crate::notes::HASH_BYTE;
use crate::notes::PLUS_BYTE;
use crate::notes::spec_all_digits;
use crate::notes::spec_digit_body;
use crate::notes::spec_duration_table;
use crate::notes::spec_note_table;
use crate::notes::spec_parse_u32;
use crate::notes::spec_resolve_duration;
use crate::notes::spec_resolve_frequency;
use crate::notes::spec_upper;
use crate::notes::spec_upper_byte;
use crate::parser::LineActionView;
use crate::parser::WarningView;
use crate::parser::lemma_line_event_duration_positive;
use crate::parser::spec_line_action;
use crate::parser::spec_line_events;
use crate::parser::spec_melody_events;
use crate::parser::spec_tokens;
use crate::parser::spec_trim;

verus! {

/// Parsing is deterministic: the same line always yields the same action,
/// and hence the same tone event when it plays.
pub proof fn lemma_parse_deterministic(a: Seq<u8>, b: Seq<u8>)
    requires
        a == b,
    ensures
        spec_line_action(a) == spec_line_action(b),
{
}

proof fn lemma_upper_idempotent(t: Seq<u8>)
    ensures
        spec_upper(spec_upper(t)) == spec_upper(t),
{
    assert forall|i: int| 0 <= i < t.len() implies spec_upper_byte(spec_upper_byte(t[i]))
        == spec_upper_byte(t[i]) by {}
    assert(spec_upper(spec_upper(t)) =~= spec_upper(t));
}

proof fn lemma_parse_u32_case_insensitive(t: Seq<u8>)
    ensures
        spec_parse_u32(spec_upper(t)) == spec_parse_u32(t),
{
    let d = spec_digit_body(t);
    let du = spec_digit_body(spec_upper(t));
    assert(du =~= spec_upper(d));
    if spec_all_digits(d) {
        assert(spec_upper(d) =~= d);
    } else {
        let i = choose|i: int| 0 <= i < d.len() && !(DIGIT_0 <= d[i] && d[i] <= DIGIT_9);
        assert(!(DIGIT_0 <= du[i] && du[i] <= DIGIT_9));
        assert(!spec_all_digits(du));
    }
}

/// Token resolution is case-insensitive: a token and its uppercased form
/// resolve to the same frequency and the same duration.
pub proof fn lemma_resolution_case_insensitive(tok: Seq<u8>)
    ensures
        spec_resolve_frequency(spec_upper(tok)) == spec_resolve_frequency(tok),
        spec_resolve_duration(spec_upper(tok)) == spec_resolve_duration(tok),
{
    lemma_upper_idempotent(tok);
    lemma_parse_u32_case_insensitive(tok);
}

/// A token that parses as a bare unsigned number never collides with a
/// symbolic table key: both resolvers hand the literal value through —
/// the duration resolver only for a positive value, since a zero duration
/// never resolves.
pub proof fn lemma_numeric_token_resolves_literally(tok: Seq<u8>)
    requires
        spec_parse_u32(tok) is Some,
    ensures
        spec_resolve_frequency(tok) == spec_parse_u32(tok),
        spec_parse_u32(tok)->Some_0 > 0 ==> spec_resolve_duration(tok) == spec_parse_u32(tok),
        spec_parse_u32(tok)->Some_0 == 0 ==> spec_resolve_duration(tok) is None,
{
    let d = spec_digit_body(tok);
    assert(tok.len() > 0);
    assert forall|i: int| 0 <= i < tok.len() implies spec_upper_byte(tok[i]) == tok[i] by {
        if tok.len() > 0 && tok[0] == PLUS_BYTE {
            if i > 0 {
                assert(tok[i] == d[i - 1]);
            }
        } else {
            assert(tok[i] == d[i]);
        }
    }
    assert(spec_upper(tok) =~= tok);
    assert(spec_note_table(tok) is None);
    assert(spec_duration_table(tok) is None);
}

/// Every tone event of a parsed melody has a positive duration; the
/// frequency may be zero — a rest — but the duration may not. A line
/// whose duration token resolves to zero warns and is skipped like any
/// other unresolvable token.
pub proof fn lemma_melody_durations_positive(lines: Seq<Seq<u8>>)
    ensures
        forall|i: int|
            0 <= i < spec_melody_events(lines).len() ==> (#[trigger] spec_melody_events(
                lines,
            )[i]).duration_ms > 0,
    decreases lines.len(),
{
    if lines.len() > 0 {
        lemma_melody_durations_positive(lines.drop_last());
        lemma_line_event_duration_positive(lines.last());
        let prefix = spec_melody_events(lines.drop_last());
        let tail = spec_line_events(lines.last());
        assert forall|i: int|
            0 <= i < spec_melody_events(lines).len() implies (#[trigger] spec_melody_events(
            lines,
        )[i]).duration_ms > 0 by {
            if i < prefix.len() {
                assert(spec_melody_events(lines)[i] == prefix[i]);
            } else {
                assert(spec_melody_events(lines)[i] == tail[i - prefix.len()]);
            }
        }
    }
}

/// A blank line, or one whose first non-whitespace byte begins a `#`
/// comment, contributes neither an event nor a warning.
pub proof fn lemma_blank_and_comment_lines_ignored(line: Seq<u8>)
    requires
        spec_trim(line).len() == 0 || spec_trim(line)[0] == HASH_BYTE,
    ensures
        spec_line_action(line) == LineActionView::Ignore,
{
}

/// A line that does not hold exactly two tokens is skipped with a warning
/// that carries the trimmed line.
pub proof fn lemma_wrong_token_count_warns(line: Seq<u8>)
    requires
        spec_trim(line).len() > 0,
        spec_trim(line)[0] != HASH_BYTE,
        spec_tokens(spec_trim(line)).len() != 2,
    ensures
        spec_line_action(line) == LineActionView::Warn(
            WarningView::InvalidFormat { line: spec_trim(line) },
        ),
{
}

/// A line that plays no tone — ignored or warned — leaves the melody
/// unchanged wherever it stands: the surrounding lines still parse to
/// exactly the same sequence.
pub proof fn lemma_skipped_line_leaves_melody_unchanged(lines: Seq<Seq<u8>>, i: int, l: Seq<u8>)
    requires
        0 <= i <= lines.len(),
        !(spec_line_action(l) is Play),
    ensures
        spec_melody_events(lines.insert(i, l)) == spec_melody_events(lines),
    decreases lines.len(),
{
    assert(spec_line_events(l) =~= Seq::<Note>::empty());
    if i == lines.len() {
        assert(lines.insert(i, l).drop_last() =~= lines);
        assert(lines.insert(i, l).last() == l);
        assert(spec_melody_events(lines.insert(i, l)) =~= spec_melody_events(lines));
    } else {
        let ins = lines.insert(i, l);
        assert(ins.last() == lines.last());
        assert(ins.drop_last() =~= lines.drop_last().insert(i, l));
        lemma_skipped_line_leaves_melody_unchanged(lines.drop_last(), i, l);
    }
}

/// The empty outcome is exact: a source parses to no playable notes if and
/// only if no line of it plays a tone.
pub proof fn lemma_empty_result_iff_no_playable_line(lines: Seq<Seq<u8>>)
    ensures
        spec_melody_events(lines).len() == 0 <==> (forall|i: int|
            0 <= i < lines.len() ==> !(#[trigger] spec_line_action(lines[i]) is Play)),
    decreases lines.len(),
{
    if lines.len() > 0 {
        lemma_empty_result_iff_no_playable_line(lines.drop_last());
        assert(forall|i: int|
            0 <= i < lines.len() - 1 ==> lines.drop_last()[i] == lines[i]);
        assert(lines.last() == lines[lines.len() - 1]);
        if spec_line_action(lines.last()) is Play {
            assert(spec_line_events(lines.last()).len() == 1);
        } else {
            assert(spec_line_events(lines.last()).len() == 0);
        }
    }
}

} // verus!
