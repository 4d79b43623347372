//! Stream accumulation, line parsing, and the fuzzy matcher.

use wherehouse::fuzz;
use wherehouse::levenshtein_distance;
use wherehouse::package_manager::drain_lines;
use wherehouse::package_manager::parse_lines;
use wherehouse::package_manager::push_line;

#[test]
fn parse_lines_splits_and_drops_blanks() {
    assert_eq!(parse_lines("wget\n"), vec!["wget".to_string()]);
    assert_eq!(parse_lines(""), Vec::<String>::new());
    assert_eq!(parse_lines("\n\n"), Vec::<String>::new());
    assert_eq!(parse_lines("a\nb\n"), vec!["a".to_string(), "b".to_string()]);
    assert_eq!(parse_lines("a\n\nb"), vec!["a".to_string(), "b".to_string()]);
    assert_eq!(
        parse_lines("wget\nwget2\nwgetpaste\n"),
        vec!["wget".to_string(), "wget2".to_string(), "wgetpaste".to_string()]
    );
}

#[test]
fn push_line_keeps_the_newline() {
    let mut acc = String::new();
    push_line(&mut acc, "first");
    push_line(&mut acc, "second");
    assert_eq!(acc, "first\nsecond\n");
}

#[test]
fn drain_lines_joins_with_newlines() {
    let lines = vec!["Please note:".to_string(), "all good".to_string()];
    assert_eq!(drain_lines(&lines), "Please note:\nall good\n");
    assert_eq!(drain_lines(&Vec::new()), "");
}

#[test]
fn accumulated_output_parses_back_to_its_lines() {
    let lines = vec!["wget".to_string(), "curl".to_string(), "httpie".to_string()];
    assert_eq!(parse_lines(&drain_lines(&lines)), lines);
}

#[test]
fn levenshtein_distance_matches_known_values() {
    assert_eq!(levenshtein_distance("kitten", "sitting"), 3);
    assert_eq!(levenshtein_distance("", "abc"), 3);
    assert_eq!(levenshtein_distance("abc", ""), 3);
    assert_eq!(levenshtein_distance("same", "same"), 0);
    assert_eq!(levenshtein_distance("flaw", "lawn"), 2);
}

#[test]
fn fuzz_keeps_words_near_the_query() {
    let words = vec![
        "wget".to_string(),
        "wget2".to_string(),
        "forget".to_string(),
        "curl".to_string(),
    ];
    let close = fuzz(words.clone(), "wget".to_string(), 3);
    assert_eq!(close, vec!["wget".to_string(), "wget2".to_string()]);

    // "forget" is exactly three edits away, so a wider threshold admits it.
    let wider = fuzz(words, "wget".to_string(), 4);
    assert_eq!(wider, vec!["wget".to_string(), "wget2".to_string(), "forget".to_string()]);

    let none = fuzz(vec!["curl".to_string()], "wget".to_string(), 1);
    assert_eq!(none, Vec::<String>::new());
}
