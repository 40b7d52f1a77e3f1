use chat_relay::presentation::{is_own_message, login_name, should_send, startup_events};
use chat_relay::session::{ChatAction, SessionEvent};
use chat_relay::ChatMessage;

#[test]
fn login_name_is_trimmed() {
    assert_eq!(login_name("  bob \t"), "bob");
    assert_eq!(login_name("a b"), "a b");
    assert_eq!(login_name("\u{3000}x\u{a0}"), "x");
}

#[test]
fn blank_login_name_becomes_guest() {
    assert_eq!(login_name(""), "Гость");
    assert_eq!(login_name(" \n\t "), "Гость");
}

#[test]
fn blank_text_is_not_sent() {
    assert!(!should_send(""));
    assert!(!should_send("  \n"));
    assert!(should_send(" hi "));
}

#[test]
fn stored_name_sets_user_then_connects() {
    let evs = startup_events(Some("A".to_string())).unwrap();
    assert_eq!(evs.len(), 2);
    assert!(matches!(&evs[0], SessionEvent::Action(ChatAction::SetUser(n)) if n == "A"));
    assert!(matches!(&evs[1], SessionEvent::Action(ChatAction::Connect)));
}

#[test]
fn missing_or_empty_name_starts_nothing() {
    assert!(startup_events(None).is_none());
    assert!(startup_events(Some(String::new())).is_none());
}

#[test]
fn own_message_by_name() {
    let m = ChatMessage::new("me".to_string(), "t".to_string());
    assert!(is_own_message(&m, &"me".to_string()));
    assert!(!is_own_message(&m, &"you".to_string()));
}
