use rust_book::minigrep::{isearch, search, select, Config};

#[test]
fn search_one_result() {
    let query = "duct";
    let contents = "\
Rust:
safe, fast, productive.
Pick three.
Duct tape.";

    assert_eq!(vec!["safe, fast, productive."], search(query, contents),);
}

#[test]
fn isearch_two_results() {
    let query = "rUsT";
    let contents = "\
Rust:
safe, fast, productive.
Pick three.
Trust me.";

    assert_eq!(vec!["Rust:", "Trust me."], isearch(query, contents),);
}

#[test]
fn new_config_ok() {
    let args = ["/minigrep", "query", "contents"].iter().map(|s| s.to_string());
    let cfg = Config::new(args.collect(), true).unwrap();
    assert_eq!(cfg.query, "query");
    assert_eq!(cfg.filename, "contents");
}

#[test]
#[should_panic(expected = "Expected: filename")]
fn new_config_fail() {
    let args = ["query", "contents"].iter().map(|s| s.to_string());
    Config::new(args.collect(), true).unwrap();
    panic!("It should have panicked!");
}

#[test]
fn config_names_what_is_missing() {
    assert_eq!(Config::new(vec![], true).unwrap_err(), "Expected: query string.");
    assert_eq!(
        Config::new(vec![String::from("minigrep")], true).unwrap_err(),
        "Expected: query string."
    );
    assert_eq!(
        Config::new(vec![String::from("minigrep"), String::from("q")], false).unwrap_err(),
        "Expected: filename."
    );
}

#[test]
fn config_ignores_further_arguments_and_keeps_the_case_flag() {
    let args = ["bin", "needle", "haystack.txt", "extra", "more"].iter().map(|s| s.to_string());
    let cfg = Config::new(args.collect(), false).unwrap();
    assert_eq!(cfg.query, "needle");
    assert_eq!(cfg.filename, "haystack.txt");
    assert!(!cfg.case_sensitive);
}

#[test]
fn lines_end_at_line_feeds_with_or_without_carriage_return() {
    let contents = "one\r\ntwo\n\nthree\r";
    assert_eq!(search("", contents), vec!["one", "two", "", "three\r"]);
    assert_eq!(search("\r", contents), vec!["three\r"]);
    assert_eq!(search("o", "one\ntwo\n"), vec!["one", "two"]);
    assert_eq!(search("x", ""), Vec::<&str>::new());
    assert_eq!(search("", "\n"), vec![""]);
}

#[test]
fn search_keeps_the_order_and_the_case() {
    let contents = "alpha\nBeta\nalphabet\ngamma";
    assert_eq!(search("alpha", contents), vec!["alpha", "alphabet"]);
    assert_eq!(search("beta", contents), Vec::<&str>::new());
    assert_eq!(isearch("BETA", contents), vec!["Beta"]);
    assert_eq!(isearch("ÄPFEL", "Äpfel und Birnen\nbirnen"), vec!["Äpfel und Birnen"]);
}

#[test]
fn select_follows_the_configuration() {
    let contents = "Rust:\nTrust me.";
    let sensitive =
        Config { query: String::from("rust"), filename: String::new(), case_sensitive: true };
    assert_eq!(select(&sensitive, contents), vec!["Trust me."]);
    let insensitive =
        Config { query: String::from("rust"), filename: String::new(), case_sensitive: false };
    assert_eq!(select(&insensitive, contents), vec!["Rust:", "Trust me."]);
}
