//! The rules of a number guessing game: a secret between 1 and 100, and what
//! each line that the player types amounts to.

use rand::Rng;
use vstd::prelude::*;

verus! {

/// The smallest secret number.
pub const LOWEST: i32 = 1;

/// The largest secret number.
pub const HIGHEST: i32 = 100;

/// A guess that is known to lie between 1 and 100.
pub struct Guess {
    value: i32,
}

impl View for Guess {
    type V = int;

    closed spec fn view(&self) -> int {
        self.value as int
    }
}

impl Guess {
    #[verifier::type_invariant]
    spec fn in_range(self) -> bool {
        LOWEST <= self.value <= HIGHEST
    }

    /// Wraps a value between 1 and 100; other values are no guesses.
    pub fn new(value: i32) -> (guess: Guess)
        requires
            LOWEST <= value <= HIGHEST,
        ensures
            guess@ == value,
    {
        Guess { value }
    }

    /// The value guessed, which lies between 1 and 100.
    pub fn value(&self) -> (value: i32)
        ensures
            value == self@,
            LOWEST <= value <= HIGHEST,
    {
        proof {
            use_type_invariant(self);
        }
        self.value
    }
}

/// How a guess compares with the secret.
#[derive(Clone, Copy, Debug, PartialEq, Eq, Structural)]
pub enum Verdict {
    TooSmall,
    TooBig,
    Win,
}

/// What a line typed by the player amounts to.
#[derive(Clone, Copy, Debug, PartialEq, Eq, Structural)]
pub enum Turn {
    /// Not a number: the line is passed over without a word.
    Ignored,
    /// A number outside 1 to 100: the player is reminded of the range.
    OutOfRange,
    /// A guess, and how it compares with the secret.
    Guessed(i32, Verdict),
}

/// The text that is left of a line when the whitespace at its two ends is
/// taken away, whitespace being what Unicode calls so.
pub uninterp spec fn trimmed(line: Seq<char>) -> Seq<char>;

/// The value of an ASCII decimal digit, or `None` for any other character.
pub open spec fn digit_of(c: char) -> Option<int> {
    if '0' <= c <= '9' {
        Some(c as int - '0' as int)
    } else {
        None
    }
}

/// The number that a run of decimal digits stands for, or `None` where some
/// character is no digit. The empty run stands for zero.
pub open spec fn digits_value(digits: Seq<char>) -> Option<int>
    decreases digits.len(),
{
    if digits.len() == 0 {
        Some(0)
    } else {
        match (digits_value(digits.drop_last()), digit_of(digits.last())) {
            (Some(front), Some(last)) => Some(10 * front + last),
            _ => None,
        }
    }
}

/// The number that a text stands for as a 32-bit decimal integer: an
/// optional sign, `+` or `-`, and then at least one digit and nothing but
/// digits, the whole within the range of `i32`.
pub open spec fn integer_of(text: Seq<char>) -> Option<i32> {
    let negative = text.len() > 0 && text[0] == '-';
    let signed = text.len() > 0 && (text[0] == '-' || text[0] == '+');
    let digits = if signed {
        text.drop_first()
    } else {
        text
    };
    if digits.len() == 0 {
        None
    } else {
        match digits_value(digits) {
            None => None,
            Some(magnitude) => {
                let number = if negative {
                    -magnitude
                } else {
                    magnitude
                };
                if i32::MIN <= number <= i32::MAX {
                    Some(number as i32)
                } else {
                    None
                }
            },
        }
    }
}

/// How `guess` compares with `secret`.
pub open spec fn verdict_of(guess: i32, secret: i32) -> Verdict {
    if guess < secret {
        Verdict::TooSmall
    } else if guess > secret {
        Verdict::TooBig
    } else {
        Verdict::Win
    }
}

/// What a line amounts to, given the number it was read as.
pub open spec fn turn_of(number: Option<i32>, secret: i32) -> Turn {
    match number {
        None => Turn::Ignored,
        Some(guess) => if guess < LOWEST || guess > HIGHEST {
            Turn::OutOfRange
        } else {
            Turn::Guessed(guess, verdict_of(guess, secret))
        },
    }
}

/// Draws a number from the generator that `rand` keeps for the calling
/// thread, by `thread_rng` and `Rng::gen_range`.
///
/// Trusted: the number lies in the half-open range from `low` to `high`.
/// Which number it is depends on chance. The generator seeds itself from the
/// operating system on its first use in a thread and panics where that
/// fails.
#[verifier::external_body]
fn random_between(low: i32, high: i32) -> (number: i32)
    requires
        low < high,
    ensures
        low <= number < high,
{
    rand::thread_rng().gen_range(low, high)
}

/// Calls `str::trim`.
///
/// Trusted: the result depends on the line alone; it is given the name
/// `trimmed` and nothing else is claimed of it.
#[verifier::external_body]
fn trim(line: &str) -> (text: &str)
    ensures
        text@ == trimmed(line@),
{
    line.trim()
}

/// Calls `str::parse` for `i32` and drops the error's detail.
///
/// Trusted: the text is read as `integer_of` says, which restates what the
/// standard library documents for parsing an `i32` from decimal digits.
#[verifier::external_body]
fn parse(text: &str) -> (number: Option<i32>)
    ensures
        number == integer_of(text@),
{
    text.parse::<i32>().ok()
}

/// Picks the secret number of a new game: some number from 1 to 100.
pub fn secret_number() -> (secret: i32)
    ensures
        LOWEST <= secret <= HIGHEST,
{
    random_between(LOWEST, HIGHEST + 1)
}

/// Compares a guess with the secret.
pub fn compare(guess: i32, secret: i32) -> (verdict: Verdict)
    ensures
        verdict == verdict_of(guess, secret),
{
    if guess < secret {
        Verdict::TooSmall
    } else if guess > secret {
        Verdict::TooBig
    } else {
        Verdict::Win
    }
}

/// Judges what was read from a line: nothing, a number out of range, or a
/// guess that is compared with the secret.
pub fn judge(number: Option<i32>, secret: i32) -> (turn: Turn)
    ensures
        turn == turn_of(number, secret),
{
    match number {
        None => Turn::Ignored,
        Some(guess) => {
            if guess < LOWEST || guess > HIGHEST {
                Turn::OutOfRange
            } else {
                Turn::Guessed(guess, compare(guess, secret))
            }
        },
    }
}

/// Plays one line of input against the secret: the line is trimmed, read as
/// a number and judged.
pub fn turn(line: &str, secret: i32) -> (turn: Turn)
    ensures
        turn == turn_of(integer_of(trimmed(line@)), secret),
{
    judge(parse(trim(line)), secret)
}

} // verus!
