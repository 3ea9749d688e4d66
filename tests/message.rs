use espionox::buffer::ConversationBuffer;
use espionox::message::same_text;
use espionox::{Message, Role};

#[test]
fn role_names_round_trip() {
    for r in [Role::User, Role::Assistant, Role::System] {
        assert_eq!(Role::from_name(r.name()), Some(r));
    }
    assert_eq!(Role::User.name(), "user");
    assert_eq!(Role::Assistant.name(), "assistant");
    assert_eq!(Role::System.name(), "system");
    assert_eq!(Role::from_name("User"), None);
    assert_eq!(Role::from_name(""), None);
}

#[test]
fn same_text_compares_characters() {
    assert!(same_text("abc", "abc"));
    assert!(!same_text("abc", "abd"));
    assert!(!same_text("abc", "ab"));
}

#[test]
fn buffer_append_clone_clear() {
    let mut b = ConversationBuffer::new();
    b.append(Role::User, "Hello");
    b.push(Message::new(Role::Assistant, "Hi"));
    let copy = b.clone();
    b.clear();
    assert_eq!(b.len(), 0);
    assert_eq!(copy.len(), 2);
    assert_eq!(copy.messages()[0].content, "Hello");
    assert_eq!(copy.messages()[1].role, Role::Assistant);
}
