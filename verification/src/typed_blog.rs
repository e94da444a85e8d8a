//! The same workflow with one type per stage, so that a text that is not
//! published cannot even be asked for.
use vstd::prelude::*;

verus! {

/// A published post.
pub struct Post {
    content: String,
}

/// A post that is still being written.
pub struct DraftPost {
    content: String,
}

/// A post that waits for its approval.
pub struct PendingReviewPost {
    content: String,
}

impl View for Post {
    type V = Seq<char>;

    closed spec fn view(&self) -> Seq<char> {
        self.content@
    }
}

impl View for DraftPost {
    type V = Seq<char>;

    closed spec fn view(&self) -> Seq<char> {
        self.content@
    }
}

impl View for PendingReviewPost {
    type V = Seq<char>;

    closed spec fn view(&self) -> Seq<char> {
        self.content@
    }
}

impl Post {
    /// An empty draft.
    pub fn new() -> (draft: DraftPost)
        ensures
            draft@ == Seq::<char>::empty(),
    {
        DraftPost { content: String::new() }
    }

    /// The text of the post.
    pub fn content(&self) -> (text: &str)
        ensures
            text@ == self@,
    {
        self.content.as_str()
    }
}

impl DraftPost {
    /// Appends `text` to the draft.
    pub fn add_text(&mut self, text: &str)
        ensures
            final(self)@ == old(self)@ + text@,
    {
        self.content.append(text);
    }

    /// Hands the draft over for review, with its text unchanged.
    pub fn request_review(self) -> (pending: PendingReviewPost)
        ensures
            pending@ == self@,
    {
        PendingReviewPost { content: self.content }
    }
}

impl PendingReviewPost {
    /// Publishes the post, with its text unchanged.
    pub fn approve(self) -> (post: Post)
        ensures
            post@ == self@,
    {
        Post { content: self.content }
    }
}

} // verus!
