use rust_basics::guess_text::{parse_number, read_guess, trim_text, GuessError, GUESS_BOUND};
use rust_basics::guessing_game::{compare, judge_line, play, Outcome, Session, Signal};

fn lines(v: &[&str]) -> Vec<String> {
    v.iter().map(|s| s.to_string()).collect()
}

#[test]
fn secret_42_small_malformed_win() {
    let out = play(42, &lines(&["10", "abc", "42"]));
    assert_eq!(
        out,
        vec![
            Signal::Judged(Outcome::Less),
            Signal::Malformed(GuessError::InvalidDigit),
            Signal::Judged(Outcome::Equal),
        ]
    );
}

#[test]
fn secret_1_first_guess_wins() {
    let out = play(1, &lines(&["1", "5", "0"]));
    assert_eq!(out, vec![Signal::Judged(Outcome::Equal)]);
}

#[test]
fn malformed_line_keeps_session_going() {
    let mut s = Session::new(7);
    let sig = s.step("abc");
    assert_eq!(sig, Signal::Malformed(GuessError::InvalidDigit));
    assert_eq!(s.secret(), 7);
    assert!(!s.is_finished());
    assert_eq!(s.step(" 7\n"), Signal::Judged(Outcome::Equal));
    assert!(s.is_finished());
}

#[test]
fn one_answer_per_candidate() {
    let out = play(50, &lines(&["3", "99", "49", "51", "50", "50", "1"]));
    assert_eq!(
        out,
        vec![
            Signal::Judged(Outcome::Less),
            Signal::Judged(Outcome::Greater),
            Signal::Judged(Outcome::Less),
            Signal::Judged(Outcome::Greater),
            Signal::Judged(Outcome::Equal),
        ]
    );
}

#[test]
fn no_win_reads_every_line() {
    let out = play(100, &lines(&["1", "x", "101"]));
    assert_eq!(out.len(), 3);
    assert_eq!(out[1], Signal::Malformed(GuessError::InvalidDigit));
    assert_eq!(out[2], Signal::Judged(Outcome::Greater));
}

#[test]
fn empty_input_gives_no_answers() {
    assert!(play(9, &Vec::new()).is_empty());
}

#[test]
fn started_sessions_draw_in_range() {
    for _ in 0..200 {
        let s = Session::start();
        assert!(1 <= s.secret() && s.secret() <= 100);
        assert!(!s.is_finished());
    }
}

#[test]
fn compare_orders() {
    assert_eq!(compare(1, 2), Outcome::Less);
    assert_eq!(compare(3, 2), Outcome::Greater);
    assert_eq!(compare(2, 2), Outcome::Equal);
}

#[test]
fn judge_line_trims_newline() {
    assert_eq!(judge_line(20, "25\r\n"), Signal::Judged(Outcome::Greater));
}

#[test]
fn trim_both_ends() {
    assert_eq!(trim_text("  ab c \t\n"), "ab c");
    assert_eq!(trim_text("\u{3000}x\u{a0}"), "x");
    assert_eq!(trim_text("   "), "");
    assert_eq!(trim_text(""), "");
}

#[test]
fn negative_and_huge_guesses_are_compared() {
    let out = play(42, &lines(&["-5", "99999999999", "+42"]));
    assert_eq!(
        out,
        vec![
            Signal::Judged(Outcome::Less),
            Signal::Judged(Outcome::Greater),
            Signal::Judged(Outcome::Equal),
        ]
    );
    assert_eq!(judge_line(1, "0"), Signal::Judged(Outcome::Less));
    assert_eq!(judge_line(1, "-99999999999999999999999"), Signal::Judged(Outcome::Less));
    assert_eq!(judge_line(100, "4294967296"), Signal::Judged(Outcome::Greater));
}

#[test]
fn parse_errors() {
    assert_eq!(parse_number(""), Err(GuessError::Empty));
    assert_eq!(parse_number("+"), Err(GuessError::InvalidDigit));
    assert_eq!(parse_number("-"), Err(GuessError::InvalidDigit));
    assert_eq!(parse_number("12a"), Err(GuessError::InvalidDigit));
    assert_eq!(parse_number("--5"), Err(GuessError::InvalidDigit));
    assert_eq!(parse_number("+-1"), Err(GuessError::InvalidDigit));
    assert_eq!(parse_number("4 2"), Err(GuessError::InvalidDigit));
}

#[test]
fn parse_values() {
    assert_eq!(parse_number("0"), Ok(0));
    assert_eq!(parse_number("-0"), Ok(0));
    assert_eq!(parse_number("+17"), Ok(17));
    assert_eq!(parse_number("-5"), Ok(-5));
    assert_eq!(parse_number("007"), Ok(7));
    assert_eq!(parse_number("4294967295"), Ok(4294967295));
    assert_eq!(parse_number("4294967296"), Ok(GUESS_BOUND));
    assert_eq!(parse_number("99999999999"), Ok(GUESS_BOUND));
    assert_eq!(parse_number("-99999999999"), Ok(-GUESS_BOUND));
}

#[test]
fn parse_agrees_with_std_within_bound() {
    let cases = ["", "+", "-", "-0", "+0", "42", "-42", " 42", "4294967296", "-4294967296", "12a", "a12", "00000000004294967295", "+-1"];
    for c in cases {
        assert_eq!(parse_number(c).ok(), c.parse::<i64>().ok(), "{:?}", c);
    }
}

#[test]
fn read_guess_on_blank_line() {
    assert_eq!(read_guess(" \n"), Err(GuessError::Empty));
    assert_eq!(read_guess("\t 64 \n"), Ok(64));
    assert_eq!(read_guess(" -3\n"), Ok(-3));
}
