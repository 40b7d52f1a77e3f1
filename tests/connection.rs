use chat_relay::connection::{Connection, HubEvent, Inbound, InboundAction, OutboundAction, Phase};
use chat_relay::ChatMessage;

fn text(s: &str) -> Inbound {
    Inbound::Text(s.to_string())
}

#[test]
fn malformed_frame_does_not_stop_publishing() {
    let mut c = Connection::new();
    let frames = vec![
        text("{\"user\":\"a\",\"text\":\"1\"}"),
        text("{broken"),
        Inbound::Other,
        text("{\"user\":\"b\",\"text\":\"2\"}"),
    ];
    let mut published = Vec::new();
    for f in frames {
        match c.on_inbound(f) {
            InboundAction::Publish(m) => published.push(m),
            InboundAction::Ignore => {}
            InboundAction::Stop => panic!("connection stopped"),
        }
    }
    assert_eq!(
        published,
        vec![
            ChatMessage::new("a".to_string(), "1".to_string()),
            ChatMessage::new("b".to_string(), "2".to_string()),
        ]
    );
    assert_eq!(c.current_phase(), Phase::Open);
}

#[test]
fn close_frame_stops_inbound() {
    let mut c = Connection::new();
    assert!(matches!(c.on_inbound(Inbound::Close), InboundAction::Stop));
    assert_eq!(c.current_phase(), Phase::Closing);
    assert!(matches!(c.on_inbound(text("{\"user\":\"a\",\"text\":\"1\"}")), InboundAction::Stop));
    c.close();
    assert_eq!(c.current_phase(), Phase::Closed);
}

#[test]
fn read_failure_stops_inbound() {
    let mut c = Connection::new();
    assert!(matches!(c.on_inbound(Inbound::Failed), InboundAction::Stop));
    assert_eq!(c.current_phase(), Phase::Closing);
}

#[test]
fn hub_message_is_written_as_frame() {
    let mut c = Connection::new();
    let m = ChatMessage::new("Alice".to_string(), "hello".to_string());
    match c.on_hub_event(HubEvent::Message(m)) {
        OutboundAction::Write(f) => assert_eq!(f, "{\"user\":\"Alice\",\"text\":\"hello\"}"),
        _ => panic!("expected a write"),
    }
}

#[test]
fn lag_is_skipped_and_delivery_goes_on() {
    let mut c = Connection::new();
    assert!(matches!(c.on_hub_event(HubEvent::Lagged(28)), OutboundAction::Skip));
    assert_eq!(c.current_phase(), Phase::Open);
    let m = ChatMessage::new("b".to_string(), "after".to_string());
    assert!(matches!(c.on_hub_event(HubEvent::Message(m)), OutboundAction::Write(_)));
}

#[test]
fn closed_hub_stops_outbound() {
    let mut c = Connection::new();
    assert!(matches!(c.on_hub_event(HubEvent::Closed), OutboundAction::Stop));
    assert_eq!(c.current_phase(), Phase::Closing);
}

#[test]
fn write_failure_ends_both_loops() {
    let mut c = Connection::new();
    c.on_write_failed();
    assert_eq!(c.current_phase(), Phase::Closing);
    let m = ChatMessage::new("b".to_string(), "x".to_string());
    assert!(matches!(c.on_hub_event(HubEvent::Message(m)), OutboundAction::Stop));
    assert!(matches!(c.on_inbound(Inbound::Other), InboundAction::Stop));
}
