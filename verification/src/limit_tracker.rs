//! Tracks a value against a quota and tells a messenger when the quota is
//! nearly used up, used up, or exceeded.

use vstd::prelude::*;
use vstd::string::StrSliceExecFns;
use vstd::string::StringExecFns;

verus! {

/// Where messages about the quota are sent. How a message is delivered is up
/// to the implementation.
pub trait Messenger {
    fn send(&self, msg: &str);
}

/// How much of a quota is used.
#[derive(Clone, Copy, Debug, PartialEq, Eq, Structural)]
pub enum QuotaLevel {
    /// Less than three quarters.
    Comfortable,
    /// At least three quarters, less than nine tenths.
    Warning,
    /// At least nine tenths, but not more than the quota.
    Urgent,
    /// More than the quota.
    Exceeded,
}

/// The level that `value` reaches of a quota of `max`, by exact arithmetic.
/// Nothing is used of a quota of zero unless it is exceeded.
pub open spec fn level_of(value: nat, max: nat) -> QuotaLevel {
    if value > max {
        QuotaLevel::Exceeded
    } else if max > 0 && 10 * value >= 9 * max {
        QuotaLevel::Urgent
    } else if max > 0 && 4 * value >= 3 * max {
        QuotaLevel::Warning
    } else {
        QuotaLevel::Comfortable
    }
}

/// The ten decimal digits.
pub open spec fn digits() -> Seq<char> {
    seq!['0', '1', '2', '3', '4', '5', '6', '7', '8', '9']
}

/// `n` written in decimal, without leading zeros.
pub open spec fn decimal_of(n: nat) -> Seq<char>
    decreases n,
{
    if n < 10 {
        seq![digits()[n as int]]
    } else {
        decimal_of(n / 10).push(digits()[(n % 10) as int])
    }
}

/// The message for a level, or `None` where the level calls for none.
pub open spec fn message_of(level: QuotaLevel, value: nat, max: nat) -> Option<Seq<char>> {
    let usage = decimal_of(value) + seq!['/'] + decimal_of(max);
    match level {
        QuotaLevel::Comfortable => None,
        QuotaLevel::Warning => Some("Warning: You've used up over 75% of your quota! "@ + usage),
        QuotaLevel::Urgent => Some(
            "Urgent warning: You've used up over 90% of your quota! "@ + usage,
        ),
        QuotaLevel::Exceeded => Some("Error: you are over your quota! "@ + usage),
    }
}

/// Writes `n` in decimal.
pub fn decimal(n: usize) -> (text: String)
    ensures
        text@ == decimal_of(n as nat),
    decreases n,
{
    proof {
        reveal_strlit("0123456789");
    }
    let last = n % 10;
    let digit = "0123456789".substring_char(last, last + 1);
    assert(digit@ =~= seq![digits()[last as int]]);
    if n < 10 {
        String::from_str(digit)
    } else {
        let mut text = decimal(n / 10);
        text.append(digit);
        assert(text@ =~= decimal_of(n as nat));
        text
    }
}

/// Classifies `value` against a quota of `max`.
pub fn quota_level(value: usize, max: usize) -> (level: QuotaLevel)
    ensures
        level == level_of(value as nat, max as nat),
{
    let value = value as u128;
    let max = max as u128;
    if value > max {
        QuotaLevel::Exceeded
    } else if max > 0 && 10 * value >= 9 * max {
        QuotaLevel::Urgent
    } else if max > 0 && 4 * value >= 3 * max {
        QuotaLevel::Warning
    } else {
        QuotaLevel::Comfortable
    }
}

/// The message to send when `value` is set against a quota of `max`, if any.
pub fn quota_message(value: usize, max: usize) -> (message: Option<String>)
    ensures
        match message {
            Some(text) => message_of(level_of(value as nat, max as nat), value as nat, max as nat)
                == Some(text@),
            None => message_of(level_of(value as nat, max as nat), value as nat, max as nat)
                is None,
        },
{
    let mut text = match quota_level(value, max) {
        QuotaLevel::Comfortable => { return None; },
        QuotaLevel::Warning => String::from_str("Warning: You've used up over 75% of your quota! "),
        QuotaLevel::Urgent => String::from_str(
            "Urgent warning: You've used up over 90% of your quota! ",
        ),
        QuotaLevel::Exceeded => String::from_str("Error: you are over your quota! "),
    };
    proof {
        reveal_strlit("/");
    }
    let ghost head = text@;
    let value_text = decimal(value);
    let max_text = decimal(max);
    text.append(value_text.as_str());
    text.append("/");
    text.append(max_text.as_str());
    assert(text@ =~= head + (decimal_of(value as nat) + seq!['/'] + decimal_of(max as nat)));
    Some(text)
}

pub struct LimitTracker<'a, T: Messenger> {
    messenger: &'a T,
    value: usize,
    max: usize,
}

impl<'a, T: Messenger> LimitTracker<'a, T> {
    /// The value last set.
    pub closed spec fn value(&self) -> usize {
        self.value
    }

    /// The quota.
    pub closed spec fn max(&self) -> usize {
        self.max
    }

    /// The messenger that is told about the quota.
    pub closed spec fn messenger(&self) -> &'a T {
        self.messenger
    }

    /// A tracker for a quota of `max`, with nothing used yet.
    pub fn new(messenger: &'a T, max: usize) -> (tracker: LimitTracker<'a, T>)
        ensures
            tracker.value() == 0,
            tracker.max() == max,
            tracker.messenger() == messenger,
    {
        LimitTracker { messenger, max, value: 0 }
    }

    /// Sets the value and sends the messenger the message that
    /// `quota_message` gives for it, if it gives one.
    pub fn set_value(&mut self, value: usize)
        ensures
            final(self).value() == value,
            final(self).max() == old(self).max(),
            final(self).messenger() == old(self).messenger(),
    {
        self.value = value;
        match quota_message(value, self.max) {
            Some(text) => {
                self.messenger.send(text.as_str());
            },
            None => {},
        }
    }
}

} // verus!
