use chat_relay::session::{ChatAction, ChatSession, MessageLog, SessionEffect, SessionEvent};
use chat_relay::wire::{decode_message, encode_message};
use chat_relay::ChatMessage;

fn act(a: ChatAction) -> SessionEvent {
    SessionEvent::Action(a)
}

fn written(eff: SessionEffect) -> Option<String> {
    match eff {
        SessionEffect::Write(f) => Some(f),
        _ => None,
    }
}

#[test]
fn identity_connect_send_in_order() {
    let mut s = ChatSession::new();
    assert!(matches!(s.handle(act(ChatAction::SetUser("A".to_string()))), SessionEffect::Idle));
    assert!(matches!(s.handle(act(ChatAction::Connect)), SessionEffect::Open));
    assert!(matches!(s.handle(SessionEvent::Opened), SessionEffect::Idle));
    let frame = written(s.handle(act(ChatAction::SendMessage("hi".to_string())))).unwrap();
    assert_eq!(frame, "{\"user\":\"A\",\"text\":\"hi\"}");
    assert_eq!(decode_message(&frame).unwrap().user, "A");
}

#[test]
fn send_before_connect_is_a_no_op() {
    let mut s = ChatSession::new();
    assert!(matches!(s.handle(act(ChatAction::SendMessage("hi".to_string()))), SessionEffect::Warn));
    s.handle(act(ChatAction::SetUser("A".to_string())));
    assert!(matches!(s.handle(act(ChatAction::SendMessage("hi".to_string()))), SessionEffect::Warn));
    assert!(!s.is_connected());
    assert_eq!(s.username().unwrap(), "A");
}

#[test]
fn send_without_name_is_a_no_op() {
    let mut s = ChatSession::new();
    s.handle(act(ChatAction::Connect));
    s.handle(SessionEvent::Opened);
    assert!(s.is_connected());
    assert!(matches!(s.handle(act(ChatAction::SendMessage("hi".to_string()))), SessionEffect::Warn));
}

#[test]
fn failed_connect_records_error() {
    let mut s = ChatSession::new();
    assert!(s.last_error().is_none());
    s.handle(act(ChatAction::Connect));
    assert!(matches!(s.handle(SessionEvent::OpenFailed("refused".to_string())), SessionEffect::Idle));
    assert_eq!(s.last_error().unwrap(), "refused");
    assert!(!s.is_connected());
}

#[test]
fn later_name_overwrites() {
    let mut s = ChatSession::new();
    s.handle(act(ChatAction::SetUser("A".to_string())));
    s.handle(act(ChatAction::SetUser("B".to_string())));
    s.handle(act(ChatAction::Connect));
    s.handle(SessionEvent::Opened);
    let frame = written(s.handle(act(ChatAction::SendMessage("x".to_string())))).unwrap();
    assert_eq!(frame, "{\"user\":\"B\",\"text\":\"x\"}");
}

#[test]
fn log_keeps_decoded_frames_in_order() {
    let mut log = MessageLog::new();
    assert_eq!(log.len(), 0);
    assert!(log.receive("{\"user\":\"a\",\"text\":\"1\"}"));
    assert!(!log.receive("not json"));
    assert!(log.receive("{\"user\":\"b\",\"text\":\"2\"}"));
    assert_eq!(log.len(), 2);
    let want = vec![
        ChatMessage::new("a".to_string(), "1".to_string()),
        ChatMessage::new("b".to_string(), "2".to_string()),
    ];
    assert_eq!(log.messages(), &want);
}

#[test]
fn own_message_reaches_log_only_by_echo() {
    let mut s = ChatSession::new();
    let mut log = MessageLog::new();
    s.handle(act(ChatAction::SetUser("me".to_string())));
    s.handle(act(ChatAction::Connect));
    s.handle(SessionEvent::Opened);
    let frame = written(s.handle(act(ChatAction::SendMessage("hey".to_string())))).unwrap();
    assert_eq!(log.len(), 0);
    log.receive(&frame);
    assert_eq!(log.messages()[0], ChatMessage::new("me".to_string(), "hey".to_string()));
    assert_eq!(encode_message(&log.messages()[0]), frame);
}
