//! One `Post` type that carries its stage as a state: text can be added at
//! any stage, but it is shown only once the post is published.
use vstd::prelude::*;

verus! {

/// The stage of a post.
#[derive(PartialEq, Eq, Structural, Debug, Clone, Copy)]
pub enum State {
    Draft,
    PendingReview,
    Published,
}

impl State {
    /// A draft moves to review; other stages stay where they are.
    pub fn request_review(self) -> (s: State)
        ensures
            s == self.request_review_spec(),
    {
        match self {
            State::Draft => State::PendingReview,
            other => other,
        }
    }

    /// A post under review is published; other stages stay where they are.
    pub fn approve(self) -> (s: State)
        ensures
            s == self.approve_spec(),
    {
        match self {
            State::PendingReview => State::Published,
            other => other,
        }
    }

    /// Whether a post at this stage shows its text.
    pub fn shows_content(&self) -> (r: bool)
        ensures
            r == (*self == State::Published),
    {
        match self {
            State::Published => true,
            _ => false,
        }
    }
}

pub struct Post {
    state: State,
    content: String,
}

impl Post {
    pub closed spec fn state_spec(&self) -> State {
        self.state
    }

    /// All the text added so far, shown or not.
    pub closed spec fn text_spec(&self) -> Seq<char> {
        self.content@
    }

    /// What `content` shows: the text once published, nothing before.
    pub open spec fn shown(&self) -> Seq<char> {
        if self.state_spec() == State::Published {
            self.text_spec()
        } else {
            Seq::empty()
        }
    }

    /// A new, empty draft.
    pub fn new() -> (p: Post)
        ensures
            p.state_spec() == State::Draft,
            p.text_spec() == Seq::<char>::empty(),
    {
        Post { state: State::Draft, content: String::new() }
    }

    /// Appends `text`; the stage does not change.
    pub fn add_text(&mut self, text: &str)
        ensures
            final(self).state_spec() == old(self).state_spec(),
            final(self).text_spec() == old(self).text_spec() + text@,
    {
        self.content.append(text);
    }

    /// The text, if the post is published; the empty string otherwise.
    pub fn content(&self) -> (r: &str)
        ensures
            r@ == self.shown(),
    {
        if self.state.shows_content() {
            self.content.as_str()
        } else {
            proof {
                reveal_strlit("");
            }
            ""
        }
    }

    /// Moves a draft to review.
    pub fn request_review(&mut self)
        ensures
            final(self).state_spec() == old(self).state_spec().request_review_spec(),
            final(self).text_spec() == old(self).text_spec(),
    {
        self.state = self.state.request_review();
    }

    /// Publishes a post under review.
    pub fn approve(&mut self)
        ensures
            final(self).state_spec() == old(self).state_spec().approve_spec(),
            final(self).text_spec() == old(self).text_spec(),
    {
        self.state = self.state.approve();
    }

    pub fn state(&self) -> (r: State)
        ensures
            r == self.state_spec(),
    {
        self.state
    }
}

impl State {
    pub open spec fn request_review_spec(self) -> State {
        if self == State::Draft {
            State::PendingReview
        } else {
            self
        }
    }

    pub open spec fn approve_spec(self) -> State {
        if self == State::PendingReview {
            State::Published
        } else {
            self
        }
    }
}

} // verus!
