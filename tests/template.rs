use build_runner::cmd::{plan_template, CommandError};
use build_runner::template::{split_command, transform_args};

#[test]
fn split_command_takes_first_word_as_program() {
    let (cmd, args) = split_command("bash ./test/test.sh {0}").unwrap();
    assert_eq!(cmd, "bash");
    assert_eq!(args, vec!["./test/test.sh", "{0}"]);
}

#[test]
fn split_command_collapses_whitespace_runs() {
    let (cmd, args) = split_command("  git\t clone \n url  name ").unwrap();
    assert_eq!(cmd, "git");
    assert_eq!(args, vec!["clone", "url", "name"]);
}

#[test]
fn split_command_of_blank_is_none() {
    assert!(split_command("").is_none());
    assert!(split_command(" \t\n ").is_none());
    assert!(split_command("\u{3000}\u{a0}").is_none());
}

#[test]
fn split_command_single_word_has_no_args() {
    let (cmd, args) = split_command("mvn").unwrap();
    assert_eq!(cmd, "mvn");
    assert!(args.is_empty());
}

#[test]
fn transform_args_replaces_valid_placeholder() {
    let out = transform_args(vec!["{0}", "{1}"], &["target", "other"]);
    assert_eq!(out, vec!["target", "other"]);
}

#[test]
fn transform_args_keeps_out_of_range_and_unparsable() {
    let out = transform_args(vec!["{2}", "{x}", "{}", "}{0", "plain", "{-1}"], &["a", "b"]);
    assert_eq!(out, vec!["{2}", "{x}", "{}", "}{0", "plain", "{-1}"]);
}

#[test]
fn transform_args_replaces_whole_token() {
    let out = transform_args(vec!["pre{1}post", "--out={0}"], &["a", "b"]);
    assert_eq!(out, vec!["b", "a"]);
}

#[test]
fn transform_args_reads_index_as_usize_parse_does() {
    let out = transform_args(vec!["{+1}", "{007}", "{99999999999999999999999}"], &["a", "b"]);
    assert_eq!(out, vec!["b", "{007}", "{99999999999999999999999}"]);
    let subs: Vec<&str> = (0..8).map(|_| "z").collect();
    let out = transform_args(vec!["{007}"], &subs);
    assert_eq!(out, vec!["z"]);
}

#[test]
fn plan_template_resolves_program_and_args() {
    let line = plan_template("bash ./test/test.sh {0}", &["target"]).unwrap();
    assert_eq!(line.program, "bash");
    assert_eq!(line.args, vec!["./test/test.sh".to_string(), "target".to_string()]);
}

#[test]
fn plan_template_of_blank_is_missing_command() {
    assert!(matches!(plan_template("", &[]), Err(CommandError::MissingCommand)));
    assert!(matches!(plan_template("   \t ", &["x"]), Err(CommandError::MissingCommand)));
}

#[test]
fn plan_template_keeps_n_minus_one_args() {
    let line = plan_template("a b {5} d", &["x"]).unwrap();
    assert_eq!(line.program, "a");
    assert_eq!(line.args, vec!["b".to_string(), "{5}".to_string(), "d".to_string()]);
}
