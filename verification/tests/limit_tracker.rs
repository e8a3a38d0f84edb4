use std::cell::RefCell;

use rust_book::limit_tracker::{decimal, quota_level, quota_message, LimitTracker, Messenger, QuotaLevel};

struct MockMessenger {
    sent_messages: RefCell<Vec<String>>,
}

impl MockMessenger {
    fn new() -> MockMessenger {
        MockMessenger { sent_messages: RefCell::new(vec![]) }
    }
}

impl Messenger for MockMessenger {
    fn send(&self, msg: &str) {
        self.sent_messages.borrow_mut().push(String::from(msg));
    }
}

#[test]
fn when_over_75_percent_should_warn() {
    let mock_messenger = MockMessenger::new();
    let mut limit_tracker = LimitTracker::new(&mock_messenger, 100);

    limit_tracker.set_value(80);

    assert_eq!(mock_messenger.sent_messages.borrow().len(), 1);
}

#[test]
fn each_level_sends_its_own_message() {
    let mock_messenger = MockMessenger::new();
    let mut limit_tracker = LimitTracker::new(&mock_messenger, 100);
    limit_tracker.set_value(74);
    limit_tracker.set_value(75);
    limit_tracker.set_value(90);
    limit_tracker.set_value(100);
    limit_tracker.set_value(101);
    assert_eq!(
        *mock_messenger.sent_messages.borrow(),
        vec![
            "Warning: You've used up over 75% of your quota! 75/100",
            "Urgent warning: You've used up over 90% of your quota! 90/100",
            "Urgent warning: You've used up over 90% of your quota! 100/100",
            "Error: you are over your quota! 101/100",
        ]
    );
}

#[test]
fn levels_change_exactly_at_the_thresholds() {
    assert_eq!(quota_level(0, 100), QuotaLevel::Comfortable);
    assert_eq!(quota_level(74, 100), QuotaLevel::Comfortable);
    assert_eq!(quota_level(75, 100), QuotaLevel::Warning);
    assert_eq!(quota_level(89, 100), QuotaLevel::Warning);
    assert_eq!(quota_level(90, 100), QuotaLevel::Urgent);
    assert_eq!(quota_level(100, 100), QuotaLevel::Urgent);
    assert_eq!(quota_level(101, 100), QuotaLevel::Exceeded);
    assert_eq!(quota_level(2, 3), QuotaLevel::Comfortable);
    assert_eq!(quota_level(3, 4), QuotaLevel::Warning);
    assert_eq!(quota_level(9, 10), QuotaLevel::Urgent);
    assert_eq!(quota_level(usize::MAX, usize::MAX), QuotaLevel::Urgent);
    assert_eq!(quota_level(usize::MAX - 1, usize::MAX), QuotaLevel::Urgent);
    assert_eq!(quota_level(usize::MAX, usize::MAX - 1), QuotaLevel::Exceeded);
}

#[test]
fn quota_of_zero_is_silent_until_exceeded() {
    assert_eq!(quota_level(0, 0), QuotaLevel::Comfortable);
    assert_eq!(quota_message(0, 0), None);
    assert_eq!(quota_level(1, 0), QuotaLevel::Exceeded);
    assert_eq!(quota_message(1, 0), Some(String::from("Error: you are over your quota! 1/0")));
}

#[test]
fn decimal_writes_numbers_without_leading_zeros() {
    assert_eq!(decimal(0), "0");
    assert_eq!(decimal(7), "7");
    assert_eq!(decimal(10), "10");
    assert_eq!(decimal(1234567890), "1234567890");
    assert_eq!(decimal(usize::MAX), usize::MAX.to_string());
}
