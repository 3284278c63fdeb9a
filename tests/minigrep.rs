use worker_pool::minigrep::{contains, lines, numbered, search, search_insensitive, CommandConfig};

#[test]
fn lib_it_work_with_case_sensitive() {
    let query = "duct";
    let contents = "\
Rust:
safe, fast, productive.
Pick three.
Duct tape.";

    assert_eq!(vec!["safe, fast, productive."], search(query, contents));
}

#[test]
fn lib_it_work_with_case_insensitive() {
    let query = "rUsT";
    let contents = "\
Rust:
safe, fast, productive.
Pick three.
Trust me.";
    let result = search_insensitive(query, contents);
    assert_eq!(vec!["Rust:", "Trust me."], result);
}

#[test]
fn it_work_with_case_sensitive() {
    let query = "duct";
    let contents = "\
Rust:
safe, fast, productive.
Pick three.
Duct tape.";

    assert_eq!(vec!["safe, fast, productive."], search(query, contents));
}

#[test]
fn it_work_with_case_insensitive() {
    let query = "rUsT";
    let contents = "\
Rust:
safe, fast, productive.
Pick three.
Trust me.";
    let result = search_insensitive(query, contents);
    assert_eq!(vec!["Rust:", "Trust me."], result);
}

#[test]
fn lines_follow_str_lines() {
    let samples = ["", "\n", "a", "a\n", "a\r\nb", "a\n\nb\n", "foo\r\nbar\n\nbaz\r", "\r\n", "x\ry\n"];
    for s in samples {
        assert_eq!(lines(s), s.lines().collect::<Vec<&str>>(), "text {:?}", s);
    }
}

#[test]
fn contains_finds_runs() {
    assert!(contains("productive", "duct"));
    assert!(contains("abc", ""));
    assert!(contains("", ""));
    assert!(!contains("", "a"));
    assert!(!contains("Duct tape", "duct"));
    assert!(contains("안녕하세요", "하세"));
}

#[test]
fn empty_query_matches_every_line() {
    assert_eq!(search("", "a\nb\n"), vec!["a", "b"]);
}

#[test]
fn insensitive_search_folds_non_ascii() {
    assert_eq!(search_insensitive("ÉTÉ", "l'été\nhiver"), vec!["l'été"]);
}

fn args(words: &[&str]) -> Vec<String> {
    words.iter().map(|w| w.to_string()).collect()
}

#[test]
fn build_needs_three_arguments() {
    let r = CommandConfig::build(&args(&["grep", "q"]), false);
    assert_eq!(r.err(), Some("need more arguments"));
}

#[test]
fn build_reads_query_and_path() {
    let c = CommandConfig::build(&args(&["grep", "to", "poem.txt"]), false).unwrap();
    assert_eq!(c.query, "to");
    assert_eq!(c.file_path, "poem.txt");
    assert!(!c.ignore_case);
}

#[test]
fn build_ignores_case_on_request() {
    let c = CommandConfig::build(&args(&["grep", "to", "poem.txt", "IGNORE_CASE"]), false).unwrap();
    assert!(c.ignore_case);
    let c = CommandConfig::build(&args(&["grep", "to", "poem.txt"]), true).unwrap();
    assert!(c.ignore_case);
    let c = CommandConfig::build(&args(&["grep", "IGNORE_CASE", "poem.txt"]), false).unwrap();
    assert!(!c.ignore_case);
}

#[test]
fn search_in_follows_the_configuration() {
    let c = CommandConfig::build(&args(&["grep", "RUST", "f", "IGNORE_CASE"]), false).unwrap();
    assert_eq!(c.search_in("Rust\nno\ntrust"), vec!["Rust", "trust"]);
    let c = CommandConfig::build(&args(&["grep", "RUST", "f"]), false).unwrap();
    assert_eq!(c.search_in("Rust\nno\ntrust"), Vec::<&str>::new());
}

#[test]
fn results_are_numbered_from_zero() {
    let r = numbered(&vec!["first", "second"]);
    assert_eq!(r, vec!["[0]: first".to_string(), "[1]: second".to_string()]);
}
