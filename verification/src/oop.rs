//! Two ways of object-oriented design: a screen of components that share
//! the ability to be drawn, and a blog post whose behaviour depends on the
//! state it is in.

use vstd::prelude::*;
use vstd::string::StringExecFns;

verus! {

/// Something that can be drawn. How it is drawn is up to the implementation.
pub trait Draw {
    fn draw(&self);
}

/// A screen of components of any mix of types.
pub struct Screen {
    pub components: Vec<Box<dyn Draw>>,
}

impl Screen {
    /// Draws every component, first to last.
    pub fn run(&self) {
        let mut i: usize = 0;
        while i < self.components.len()
            invariant
                i <= self.components@.len(),
            decreases self.components@.len() - i,
        {
            self.components[i].draw();
            i += 1;
        }
    }
}

/// A screen whose components are all of one type.
pub struct Screen2<T: Draw> {
    pub components: Vec<T>,
}

impl<T> Screen2<T> where T: Draw {
    /// Draws every component, first to last.
    pub fn run(&self) {
        let mut i: usize = 0;
        while i < self.components.len()
            invariant
                i <= self.components@.len(),
            decreases self.components@.len() - i,
        {
            self.components[i].draw();
            i += 1;
        }
    }
}

/// The state of a post on its way to publication.
#[derive(Clone, Copy, Debug, PartialEq, Eq, Structural)]
pub enum State {
    Draft,
    PendingReview,
    Published,
}

impl State {
    /// The state that a request for review leads to: a draft awaits review,
    /// any other state stays.
    pub open spec fn after_request(self) -> State {
        match self {
            State::Draft => State::PendingReview,
            other => other,
        }
    }

    /// The state that an approval leads to: a post that awaits review is
    /// published, any other state stays.
    pub open spec fn after_approval(self) -> State {
        match self {
            State::PendingReview => State::Published,
            other => other,
        }
    }

    /// What a post in this state shows of its text: all of it once it is
    /// published, nothing before.
    pub open spec fn shown(self, text: Seq<char>) -> Seq<char> {
        match self {
            State::Published => text,
            _ => Seq::empty(),
        }
    }

    pub fn request_review(self) -> (next: State)
        ensures
            next == self.after_request(),
    {
        match self {
            State::Draft => State::PendingReview,
            other => other,
        }
    }

    pub fn approve(self) -> (next: State)
        ensures
            next == self.after_approval(),
    {
        match self {
            State::PendingReview => State::Published,
            other => other,
        }
    }

    pub fn content<'a>(&self, post: &'a Post) -> (shown: &'a str)
        ensures
            shown@ == self.shown(post.text()),
    {
        proof {
            reveal_strlit("");
        }
        match self {
            State::Published => post.content.as_str(),
            _ => "",
        }
    }
}

/// A blog post: a text and the state it is in.
pub struct Post {
    state: State,
    content: String,
}

impl Post {
    /// The state the post is in.
    pub closed spec fn state(&self) -> State {
        self.state
    }

    /// The text written so far, shown or not.
    pub closed spec fn text(&self) -> Seq<char> {
        self.content@
    }

    /// An empty draft.
    pub fn new() -> (post: Post)
        ensures
            post.state() == State::Draft,
            post.text() == Seq::<char>::empty(),
    {
        Post { state: State::Draft, content: String::new() }
    }

    /// Appends `text` to the post, in whatever state it is.
    pub fn add_text(&mut self, text: &str)
        ensures
            final(self).text() == old(self).text() + text@,
            final(self).state() == old(self).state(),
    {
        self.content.append(text);
    }

    /// What the post shows: its text once it is published, nothing before.
    pub fn content(&self) -> (shown: &str)
        ensures
            shown@ == self.state().shown(self.text()),
    {
        self.state.content(self)
    }

    /// Asks for a review of the post.
    pub fn request_review(&mut self)
        ensures
            final(self).state() == old(self).state().after_request(),
            final(self).text() == old(self).text(),
    {
        self.state = self.state.request_review();
    }

    /// Approves the post.
    pub fn approve(&mut self)
        ensures
            final(self).state() == old(self).state().after_approval(),
            final(self).text() == old(self).text(),
    {
        self.state = self.state.approve();
    }
}

/// A post is shown only after a request for review followed by an approval:
/// approving a draft changes nothing, and a published post stays published
/// whatever is asked of it.
pub proof fn lemma_publication_needs_review_then_approval(state: State)
    ensures
        State::Draft.after_approval() == State::Draft,
        State::Draft.after_request().after_approval() == State::Published,
        State::Published.after_request() == State::Published,
        State::Published.after_approval() == State::Published,
        state.after_request().after_request() == state.after_request(),
        state.after_approval().after_approval() == state.after_approval(),
{
}

} // verus!
