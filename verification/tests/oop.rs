use std::cell::RefCell;
use std::rc::Rc;

use rust_book::oop::{Draw, Post, Screen, Screen2, State};

#[derive(Debug)]
struct Button {
    pub width: i32,
    pub height: i32,
    pub label: String,
}

#[derive(Debug)]
struct TextField {
    pub label: String,
    pub placeholder: String,
}

impl Draw for Button {
    fn draw(&self) {
        println!("Drawing button {:?}", &self);
    }
}

impl Draw for TextField {
    fn draw(&self) {
        println!("Drawing text field {:?}", &self);
    }
}

struct Recorded {
    name: &'static str,
    log: Rc<RefCell<Vec<&'static str>>>,
}

impl Draw for Recorded {
    fn draw(&self) {
        self.log.borrow_mut().push(self.name);
    }
}

#[test]
fn screen_test() {
    let screen = Screen {
        components: vec![
            Box::new(TextField {
                label: String::from("Username"),
                placeholder: String::from("Enter a username"),
            }),
            Box::new(Button { width: 50, height: 20, label: String::from("Submit") }),
        ],
    };

    screen.run();
}

#[test]
fn screen_draws_each_component_once_in_order() {
    let log = Rc::new(RefCell::new(Vec::new()));
    let screen = Screen {
        components: vec![
            Box::new(Recorded { name: "first", log: Rc::clone(&log) }),
            Box::new(Recorded { name: "second", log: Rc::clone(&log) }),
            Box::new(Recorded { name: "third", log: Rc::clone(&log) }),
        ],
    };
    screen.run();
    assert_eq!(*log.borrow(), vec!["first", "second", "third"]);
}

#[test]
fn screen_of_one_type_draws_each_component_once_in_order() {
    let log = Rc::new(RefCell::new(Vec::new()));
    let screen = Screen2 {
        components: vec![
            Recorded { name: "left", log: Rc::clone(&log) },
            Recorded { name: "right", log: Rc::clone(&log) },
        ],
    };
    screen.run();
    assert_eq!(*log.borrow(), vec!["left", "right"]);
    let empty: Screen2<Recorded> = Screen2 { components: vec![] };
    empty.run();
    assert_eq!(log.borrow().len(), 2);
}

#[test]
fn blog_test() {
    let mut post = Post::new();

    post.add_text("I ate a salad for lunch today");
    assert_eq!("", post.content());

    post.request_review();
    assert_eq!("", post.content());

    post.approve();
    assert_eq!("I ate a salad for lunch today", post.content());
}

#[test]
fn approval_without_review_publishes_nothing() {
    let mut post = Post::new();
    post.add_text("draft");
    post.approve();
    assert_eq!("", post.content());
    post.request_review();
    post.request_review();
    assert_eq!("", post.content());
    post.approve();
    post.add_text(", extended");
    post.request_review();
    post.approve();
    assert_eq!("draft, extended", post.content());
}

#[test]
fn states_follow_one_another() {
    assert_eq!(State::Draft.request_review(), State::PendingReview);
    assert_eq!(State::Draft.approve(), State::Draft);
    assert_eq!(State::PendingReview.request_review(), State::PendingReview);
    assert_eq!(State::PendingReview.approve(), State::Published);
    assert_eq!(State::Published.request_review(), State::Published);
    assert_eq!(State::Published.approve(), State::Published);
}
