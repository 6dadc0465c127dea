use beepsong::Note;
use beepsong::parser::{LineAction, Warning, parse_line, parse_melody, split_tokens, trim};
use beepsong::notes::{parse_u32_token, resolve_duration, resolve_frequency};

fn lines(xs: &[&str]) -> Vec<Vec<u8>> {
    xs.iter().map(|s| s.as_bytes().to_vec()).collect()
}

fn line(s: &str) -> Vec<u8> {
    s.as_bytes().to_vec()
}

#[test]
fn parsing_is_deterministic() {
    let a = parse_line(&line("A4 Q"));
    let b = parse_line(&line("A4 Q"));
    assert_eq!(a, b);
    assert_eq!(a, LineAction::Play(Note { frequency: 440, duration_ms: 250 }));
}

#[test]
fn case_insensitive_lookup() {
    for text in ["c4 q", "C4 Q", "C4 q", "c4 Q"] {
        let r = parse_melody(&lines(&[text]));
        assert_eq!(r.events, vec![Note { frequency: 262, duration_ms: 250 }]);
        assert!(r.warnings.is_empty());
    }
}

#[test]
fn numeric_fallback() {
    let r = parse_melody(&lines(&["440 100"]));
    assert_eq!(r.events, vec![Note { frequency: 440, duration_ms: 100 }]);
    assert!(r.warnings.is_empty());
}

#[test]
fn unknown_note_warns_and_later_lines_still_parse() {
    let r = parse_melody(&lines(&["ZZ4 Q", "C4 Q"]));
    assert_eq!(r.events, vec![Note { frequency: 262, duration_ms: 250 }]);
    assert_eq!(r.warnings, vec![Warning::UnknownNote { token: line("ZZ4") }]);
}

#[test]
fn unknown_note_warning_carries_uppercased_token() {
    let r = parse_melody(&lines(&["zz4 Q"]));
    assert!(r.events.is_empty());
    assert_eq!(r.warnings, vec![Warning::UnknownNote { token: line("ZZ4") }]);
}

#[test]
fn unknown_duration_warning_carries_raw_token() {
    let r = parse_melody(&lines(&["C4 xx"]));
    assert!(r.events.is_empty());
    assert_eq!(r.warnings, vec![Warning::UnknownDuration { token: line("xx") }]);
}

#[test]
fn blank_and_comment_lines_produce_nothing() {
    let r = parse_melody(&lines(&["", "   ", "\t", "# a comment", "   # indented comment"]));
    assert!(r.events.is_empty());
    assert!(r.warnings.is_empty());
}

#[test]
fn wrong_token_count_warns_and_skips() {
    let r = parse_melody(&lines(&["C4", "C4 Q E", "E4 Q"]));
    assert_eq!(r.events, vec![Note { frequency: 330, duration_ms: 250 }]);
    assert_eq!(
        r.warnings,
        vec![
            Warning::InvalidFormat { line: line("C4") },
            Warning::InvalidFormat { line: line("C4 Q E") },
        ]
    );
}

#[test]
fn invalid_format_warning_carries_trimmed_line() {
    let r = parse_melody(&lines(&["   C4 Q E  "]));
    assert_eq!(r.warnings, vec![Warning::InvalidFormat { line: line("C4 Q E") }]);
}

#[test]
fn comments_only_is_the_empty_outcome() {
    let r = parse_melody(&lines(&["# only", "# comments", "  ", ""]));
    assert!(!r.has_playable_notes());
    assert!(r.warnings.is_empty());
}

#[test]
fn example_three_lines() {
    let r = parse_melody(&lines(&["E4 Q", "REST Q", "440 H"]));
    assert_eq!(
        r.events,
        vec![
            Note { frequency: 330, duration_ms: 250 },
            Note { frequency: 0, duration_ms: 250 },
            Note { frequency: 440, duration_ms: 500 },
        ]
    );
    assert!(r.warnings.is_empty());
}

#[test]
fn rest_is_case_insensitive_too() {
    let r = parse_melody(&lines(&["rest w"]));
    assert_eq!(r.events, vec![Note { frequency: 0, duration_ms: 1000 }]);
}

#[test]
fn zero_duration_warns_and_is_skipped() {
    let r = parse_melody(&lines(&["C4 0", "C4 Q"]));
    assert_eq!(r.events, vec![Note { frequency: 262, duration_ms: 250 }]);
    assert_eq!(r.warnings, vec![Warning::UnknownDuration { token: line("0") }]);
}

#[test]
fn zero_frequency_is_a_rest() {
    let r = parse_melody(&lines(&["0 100"]));
    assert_eq!(r.events, vec![Note { frequency: 0, duration_ms: 100 }]);
    assert!(r.warnings.is_empty());
}

#[test]
fn resolve_frequency_symbolic_and_numeric() {
    assert_eq!(resolve_frequency(&line("fs5")), Some(740));
    assert_eq!(resolve_frequency(&line("REST")), Some(0));
    assert_eq!(resolve_frequency(&line("880")), Some(880));
    assert_eq!(resolve_frequency(&line("H")), None);
    assert_eq!(resolve_frequency(&line("C6")), None);
}

#[test]
fn resolve_duration_symbolic_and_numeric() {
    assert_eq!(resolve_duration(&line("w")), Some(1000));
    assert_eq!(resolve_duration(&line("S")), Some(63));
    assert_eq!(resolve_duration(&line("125")), Some(125));
    assert_eq!(resolve_duration(&line("0")), None);
    assert_eq!(resolve_duration(&line("C4")), None);
}

#[test]
fn numeric_parse_accepts_what_u32_parsing_accepts() {
    assert_eq!(parse_u32_token(&line("123")), Some(123));
    assert_eq!(parse_u32_token(&line("+123")), Some(123));
    assert_eq!(parse_u32_token(&line("007")), Some(7));
    assert_eq!(parse_u32_token(&line("4294967295")), Some(u32::MAX));
    assert_eq!(parse_u32_token(&line("4294967296")), None);
    assert_eq!(parse_u32_token(&line("")), None);
    assert_eq!(parse_u32_token(&line("+")), None);
    assert_eq!(parse_u32_token(&line("12a")), None);
    assert_eq!(parse_u32_token(&line("-5")), None);
}

#[test]
fn tokens_split_on_whitespace_runs() {
    let toks = split_tokens(&line("  C4\t  Q "));
    assert_eq!(toks, vec![line("C4"), line("Q")]);
    let none: Vec<Vec<u8>> = Vec::new();
    assert_eq!(split_tokens(&line("   ")), none);
}

#[test]
fn trim_strips_both_ends() {
    assert_eq!(trim(&line("  C4 Q \t")), line("C4 Q"));
    assert_eq!(trim(&line("")), line(""));
    assert_eq!(trim(&line(" \t ")), line(""));
}
