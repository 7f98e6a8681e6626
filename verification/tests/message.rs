use webhook_funnel::message::{Fragment, Message};

#[test]
fn new_message_is_empty() {
    let message = Message::new();
    assert_eq!(message.len(), 0);
    assert!(message.fragments().is_empty());
}

#[test]
fn fragments_keep_the_order_in_which_they_were_added() {
    let message = Message::new().add_text("see ").add_url("https://example.com").add_text(" now");
    assert_eq!(message.len(), 3);
    assert_eq!(
        message.fragments(),
        &vec![
            Fragment::Text("see ".to_string()),
            Fragment::Link("https://example.com".to_string()),
            Fragment::Text(" now".to_string()),
        ]
    );
}

#[test]
fn equality_is_structural() {
    let a = Message::new().add_text("x").add_url("y");
    let b = Message::new().add_text("x").add_url("y");
    assert_eq!(a, b);
    assert!(a.same_as(&b));
    assert_ne!(a, Message::new().add_url("y").add_text("x"));
    assert_ne!(a, Message::new().add_text("x"));
    assert_ne!(a, Message::new().add_text("x").add_url("z"));
    assert_ne!(a, Message::new().add_text("x").add_text("y"));
    assert_ne!(a, Message::new());
    assert_eq!(Message::new(), Message::new());
}

#[test]
fn text_and_link_with_the_same_characters_differ() {
    assert_ne!(Fragment::Text("a".to_string()), Fragment::Link("a".to_string()));
    assert!(!Fragment::Text("a".to_string()).same_as(&Fragment::Link("a".to_string())));
    assert_eq!(Fragment::Link("a".to_string()), Fragment::Link("a".to_string()));
    assert_ne!(Fragment::Text("a".to_string()), Fragment::Text("b".to_string()));
}

#[test]
fn clone_is_equal_to_what_was_cloned() {
    let message = Message::new().add_text("x").add_url("y");
    assert_eq!(message.clone(), message);
    let fragment = Fragment::Link("u".to_string());
    assert_eq!(fragment.clone(), fragment);
}
