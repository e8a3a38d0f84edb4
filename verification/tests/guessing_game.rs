use rust_book::guessing_game::{compare, judge, secret_number, turn, Guess, Turn, Verdict};

#[test]
fn new_valid() {
    let g: Guess = Guess::new(5);
    assert_eq!(5, g.value());
}

#[test]
fn guesses_at_both_ends_of_the_range() {
    assert_eq!(Guess::new(1).value(), 1);
    assert_eq!(Guess::new(100).value(), 100);
}

#[test]
fn secret_number_lies_between_1_and_100() {
    let mut seen_different = false;
    let first = secret_number();
    for _ in 0..1000 {
        let secret = secret_number();
        assert!((1..=100).contains(&secret));
        seen_different = seen_different || secret != first;
    }
    assert!(seen_different);
}

#[test]
fn compare_tells_the_three_cases_apart() {
    assert_eq!(compare(49, 50), Verdict::TooSmall);
    assert_eq!(compare(51, 50), Verdict::TooBig);
    assert_eq!(compare(50, 50), Verdict::Win);
    assert_eq!(compare(i32::MIN, i32::MAX), Verdict::TooSmall);
}

#[test]
fn judge_checks_the_range_before_it_compares() {
    assert_eq!(judge(None, 50), Turn::Ignored);
    assert_eq!(judge(Some(0), 50), Turn::OutOfRange);
    assert_eq!(judge(Some(101), 50), Turn::OutOfRange);
    assert_eq!(judge(Some(-7), 50), Turn::OutOfRange);
    assert_eq!(judge(Some(1), 50), Turn::Guessed(1, Verdict::TooSmall));
    assert_eq!(judge(Some(100), 50), Turn::Guessed(100, Verdict::TooBig));
    assert_eq!(judge(Some(50), 50), Turn::Guessed(50, Verdict::Win));
}

#[test]
fn turn_trims_and_parses_the_line() {
    assert_eq!(turn("42\n", 42), Turn::Guessed(42, Verdict::Win));
    assert_eq!(turn("  7 \r\n", 42), Turn::Guessed(7, Verdict::TooSmall));
    assert_eq!(turn("+99", 42), Turn::Guessed(99, Verdict::TooBig));
    assert_eq!(turn("007", 42), Turn::Guessed(7, Verdict::TooSmall));
    assert_eq!(turn("-3", 42), Turn::OutOfRange);
    assert_eq!(turn("101", 42), Turn::OutOfRange);
    assert_eq!(turn("0", 42), Turn::OutOfRange);
}

#[test]
fn turn_passes_over_what_is_no_number() {
    for line in ["", "\n", "forty", "4 2", "42.0", "+", "-", "--5", "1_0", "99999999999", "٤٢"] {
        assert_eq!(turn(line, 42), Turn::Ignored);
    }
}
