//! Each stage of a post is its own type, so only a published `Post` has a
//! `content` method and a draft cannot be published without review.
use vstd::prelude::*;

verus! {

/// A published post.
pub struct Post {
    content: String,
}

/// A post being written.
pub struct DraftPost {
    content: String,
}

/// A post waiting for approval.
pub struct PendingReviewPost {
    content: String,
}

impl View for Post {
    type V = Seq<char>;

    closed spec fn view(&self) -> Seq<char> {
        self.content@
    }
}

impl View for DraftPost {
    type V = Seq<char>;

    closed spec fn view(&self) -> Seq<char> {
        self.content@
    }
}

impl View for PendingReviewPost {
    type V = Seq<char>;

    closed spec fn view(&self) -> Seq<char> {
        self.content@
    }
}

impl Post {
    /// Starts a new post as an empty draft.
    pub fn new() -> (d: DraftPost)
        ensures
            d@ == Seq::<char>::empty(),
    {
        DraftPost { content: String::new() }
    }

    /// The published text.
    pub fn content(&self) -> (r: &str)
        ensures
            r@ == self@,
    {
        self.content.as_str()
    }
}

impl DraftPost {
    /// Appends `text` to the draft.
    pub fn add_text(&mut self, text: &str)
        ensures
            final(self)@ == old(self)@ + text@,
    {
        self.content.append(text);
    }

    /// Sends the draft to review; the draft itself is consumed.
    pub fn request_review(self) -> (p: PendingReviewPost)
        ensures
            p@ == self@,
    {
        PendingReviewPost { content: self.content }
    }
}

impl PendingReviewPost {
    /// Approves the post, which publishes it with the text it was given.
    pub fn approve(self) -> (p: Post)
        ensures
            p@ == self@,
    {
        Post { content: self.content }
    }
}

} // verus!
