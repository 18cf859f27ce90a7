use blog_workflow::blog::Post;

#[test]
fn test_add() {
    let mut post = Post::new();
    assert_eq!(post.content(), "");

    post.add_text("Hello");
    post.add_text(" World");
    assert_eq!(post.content(), "");

    post.approve();

    post.request_review();
    post.add_text(" World");
    assert_eq!(post.content(), "");
    post.add_text(" World");

    post.request_review();
    post.approve();
    post.add_text(" World");
    post.add_text(" World");
    assert_eq!(post.content(), "");

    post.request_review();
    post.approve();
    assert_eq!(post.content(), "Hello World");
}

#[test]
fn test_publish_scenario() {
    let mut post = Post::new();
    assert_eq!(post.content(), "");

    post.add_text("Hello");
    post.add_text(" World");
    assert_eq!(post.content(), "");

    post.request_review();
    post.add_text(" World");
    assert_eq!(post.content(), "");

    post.approve();
    assert_eq!(post.content(), "");

    post.approve();
    assert_eq!(post.content(), "Hello World");

    post.add_text(" World");
    post.approve();
    post.reject();
    post.request_review();
    assert_eq!(post.content(), "Hello World");
}

#[test]
fn test_single_approve_stays_hidden() {
    let mut post = Post::new();
    post.add_text("Once");
    post.request_review();
    post.approve();
    assert_eq!(post.content(), "");
}

#[test]
fn test_reject_returns_to_draft() {
    let mut post = Post::new();
    post.add_text("Hi");
    post.request_review();
    post.approve();
    post.reject();
    assert_eq!(post.content(), "");

    post.add_text("!");
    post.request_review();
    post.approve();
    assert_eq!(post.content(), "");

    post.approve();
    assert_eq!(post.content(), "Hi!");
}

#[test]
fn test_noops_before_review() {
    let mut post = Post::new();
    post.approve();
    post.reject();
    post.add_text("A");
    post.approve();
    post.reject();
    post.request_review();
    post.request_review();
    post.approve();
    post.approve();
    assert_eq!(post.content(), "A");
}

#[test]
fn test_noops_after_publish() {
    let mut post = Post::new();
    post.add_text("Done");
    post.request_review();
    post.approve();
    post.approve();
    assert_eq!(post.content(), "Done");

    post.add_text(" more");
    post.request_review();
    post.approve();
    post.reject();
    assert_eq!(post.content(), "Done");
}

#[test]
fn test_publish_without_text_shows_nothing() {
    let mut post = Post::new();
    post.request_review();
    post.approve();
    post.approve();
    assert_eq!(post.content(), "");
}
