use thread_pool::blog::{Post, PostState};

#[test]
fn mod_main() {
    let mut post = Post::new();

    post.add_text("I ate a salad for lunch today");
    assert_eq!("", post.content());

    post.request_review();
    assert_eq!("", post.content());

    post.approve();
    assert_eq!("I ate a salad for lunch today", post.content());
}

#[test]
fn typed_post_shows_its_text_once_published() {
    let mut post = thread_pool::typed_blog::Post::new();

    post.add_text("I ate a salad for lunch today");

    let post = post.request_review();

    let post = post.approve();

    assert_eq!("I ate a salad for lunch today", post.content());
}

#[test]
fn approval_without_review_publishes_nothing() {
    let mut post = Post::new();
    post.add_text("draft");
    post.approve();
    assert_eq!("", post.content());
    post.request_review();
    post.request_review();
    assert_eq!("", post.content());
    post.add_text(" and more");
    post.approve();
    assert_eq!("draft and more", post.content());
    post.request_review();
    post.approve();
    assert_eq!("draft and more", post.content());
}

#[test]
fn post_states_follow_the_workflow() {
    assert_eq!(PostState::Draft.request_review(), PostState::PendingReview);
    assert_eq!(PostState::Draft.approve(), PostState::Draft);
    assert_eq!(PostState::Draft.reject(), PostState::Draft);
    assert_eq!(PostState::PendingReview.request_review(), PostState::PendingReview);
    assert_eq!(PostState::PendingReview.approve(), PostState::Published);
    assert_eq!(PostState::PendingReview.reject(), PostState::Draft);
    assert_eq!(PostState::Published.request_review(), PostState::Published);
    assert_eq!(PostState::Published.approve(), PostState::Published);
    assert_eq!(PostState::Published.reject(), PostState::Published);
}
