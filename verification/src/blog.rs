//! A blog post that moves through a fixed workflow: a draft is reviewed, then
//! approved, and only then shows its text.
use vstd::prelude::*;

verus! {

/// Where a post stands in the workflow.
#[derive(Clone, Copy, Debug, PartialEq, Eq, Structural)]
pub enum PostState {
    Draft,
    PendingReview,
    Published,
}

impl PostState {
    /// The state after a review was requested: a draft waits for review, and
    /// nothing else changes.
    pub open spec fn spec_request_review(self) -> PostState {
        match self {
            PostState::Draft => PostState::PendingReview,
            PostState::PendingReview => PostState::PendingReview,
            PostState::Published => PostState::Published,
        }
    }

    /// The state after an approval: a post under review is published, and
    /// nothing else changes.
    pub open spec fn spec_approve(self) -> PostState {
        match self {
            PostState::Draft => PostState::Draft,
            PostState::PendingReview => PostState::Published,
            PostState::Published => PostState::Published,
        }
    }

    /// The state after a rejection: a post under review is a draft again, and
    /// nothing else changes.
    pub open spec fn spec_reject(self) -> PostState {
        match self {
            PostState::Draft => PostState::Draft,
            PostState::PendingReview => PostState::Draft,
            PostState::Published => PostState::Published,
        }
    }

    /// The state after a review was requested.
    pub fn request_review(self) -> (next: PostState)
        ensures
            next == self.spec_request_review(),
    {
        match self {
            PostState::Draft => PostState::PendingReview,
            PostState::PendingReview => PostState::PendingReview,
            PostState::Published => PostState::Published,
        }
    }

    /// The state after an approval.
    pub fn approve(self) -> (next: PostState)
        ensures
            next == self.spec_approve(),
    {
        match self {
            PostState::Draft => PostState::Draft,
            PostState::PendingReview => PostState::Published,
            PostState::Published => PostState::Published,
        }
    }

    /// The state after a rejection.
    pub fn reject(self) -> (next: PostState)
        ensures
            next == self.spec_reject(),
    {
        match self {
            PostState::Draft => PostState::Draft,
            PostState::PendingReview => PostState::Draft,
            PostState::Published => PostState::Published,
        }
    }
}

/// The mathematical content of a post.
pub struct PostView {
    /// Where the post stands in the workflow.
    pub state: PostState,
    /// The text written so far, shown or not.
    pub text: Seq<char>,
}

impl PostView {
    /// The text that a reader sees: all of it once the post is published,
    /// nothing before.
    pub open spec fn visible(self) -> Seq<char> {
        if self.state == PostState::Published {
            self.text
        } else {
            Seq::empty()
        }
    }
}

/// A blog post.
pub struct Post {
    state: PostState,
    content: String,
}

impl View for Post {
    type V = PostView;

    closed spec fn view(&self) -> PostView {
        PostView { state: self.state, text: self.content@ }
    }
}

impl Post {
    /// An empty draft.
    pub fn new() -> (post: Post)
        ensures
            post@ == (PostView { state: PostState::Draft, text: Seq::empty() }),
    {
        Post { state: PostState::Draft, content: String::new() }
    }

    /// Appends `text` to the post, in whatever state it is.
    pub fn add_text(&mut self, text: &str)
        ensures
            final(self)@ == (PostView { text: old(self)@.text + text@, ..old(self)@ }),
    {
        self.content.append(text);
    }

    /// Approves the post.
    pub fn approve(&mut self)
        ensures
            final(self)@ == (PostView { state: old(self)@.state.spec_approve(), ..old(self)@ }),
    {
        self.state = self.state.approve();
    }

    /// The text that a reader sees.
    pub fn content(&self) -> (text: &str)
        ensures
            text@ == self@.visible(),
    {
        match self.state {
            PostState::Published => self.content.as_str(),
            _ => {
                proof {
                    reveal_strlit("");
                }
                assert(""@ =~= Seq::<char>::empty());
                ""
            },
        }
    }

    /// Requests a review of the post.
    pub fn request_review(&mut self)
        ensures
            final(self)@ == (PostView {
                state: old(self)@.state.spec_request_review(),
                ..old(self)@
            }),
    {
        self.state = self.state.request_review();
    }
}

/// A new post shows its text after a review and an approval, in this order,
/// and after nothing less.
pub proof fn lemma_publishing_takes_review_then_approval()
    ensures
        PostState::Draft.spec_request_review().spec_approve() == PostState::Published,
        PostState::Draft.spec_approve() == PostState::Draft,
        PostState::Draft.spec_approve().spec_request_review() == PostState::PendingReview,
{
}

/// A published post stays published, whatever is asked of it.
pub proof fn lemma_published_is_final(s: PostState)
    requires
        s == PostState::Published,
    ensures
        s.spec_request_review() == s,
        s.spec_approve() == s,
        s.spec_reject() == s,
{
}

} // verus!
