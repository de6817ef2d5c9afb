use kebda::pipeline::{parse_command, parse_line};
use kebda::text::{is_space_char, split_on, split_tokens};

#[test]
fn tokens_skip_runs_of_space() {
    assert_eq!(split_tokens("  ls   -l\t/tmp  "), vec!["ls", "-l", "/tmp"]);
    assert!(split_tokens(" \t \n").is_empty());
    assert!(split_tokens("").is_empty());
}

#[test]
fn tokens_split_on_unicode_space() {
    assert_eq!(split_tokens("a\u{3000}b\u{a0}c"), vec!["a", "b", "c"]);
    assert!(is_space_char('\u{2009}'));
    assert!(!is_space_char('x'));
}

#[test]
fn split_keeps_empty_pieces() {
    assert_eq!(split_on("/a::/b", ':'), vec!["/a", "", "/b"]);
    assert_eq!(split_on("", ':'), vec![""]);
    assert_eq!(split_on("a|", '|'), vec!["a", ""]);
}

#[test]
fn command_name_and_arguments() {
    let (cmd, args) = parse_command("  grep -n  foo ");
    assert_eq!(cmd, "grep");
    assert_eq!(args, vec!["-n", "foo"]);
    let (cmd, args) = parse_command("   ");
    assert_eq!(cmd, "");
    assert!(args.is_empty());
}

#[test]
fn whitespace_line_has_no_stages() {
    assert!(parse_line("").is_empty());
    assert!(parse_line(" \t ").is_empty());
}

#[test]
fn line_splits_into_stages() {
    let stages = parse_line("cat file.txt | sort -r|uniq");
    assert_eq!(stages.len(), 3);
    assert_eq!(stages[0].command, "cat");
    assert_eq!(stages[0].args, vec!["file.txt"]);
    assert_eq!(stages[1].command, "sort");
    assert_eq!(stages[1].args, vec!["-r"]);
    assert_eq!(stages[2].command, "uniq");
    assert!(stages[2].args.is_empty());
}

#[test]
fn empty_stage_keeps_its_place() {
    let stages = parse_line("ls | ");
    assert_eq!(stages.len(), 2);
    assert_eq!(stages[1].command, "");
}
