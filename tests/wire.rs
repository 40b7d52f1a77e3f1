use chat_relay::wire::{decode_message, encode_message};
use chat_relay::ChatMessage;

fn msg(user: &str, text: &str) -> ChatMessage {
    ChatMessage::new(user.to_string(), text.to_string())
}

#[test]
fn encode_plain_message() {
    assert_eq!(
        encode_message(&msg("Alice", "hello")),
        "{\"user\":\"Alice\",\"text\":\"hello\"}"
    );
}

#[test]
fn encode_escapes_quotes_and_newlines() {
    assert_eq!(
        encode_message(&msg("a\"b", "x\ny\\")),
        "{\"user\":\"a\\\"b\",\"text\":\"x\\ny\\\\\"}"
    );
}

#[test]
fn encode_empty_fields() {
    assert_eq!(encode_message(&msg("", "")), "{\"user\":\"\",\"text\":\"\"}");
}

#[test]
fn decode_plain_message() {
    let m = decode_message("{\"user\":\"Alice\",\"text\":\"hello\"}").unwrap();
    assert_eq!(m, msg("Alice", "hello"));
}

#[test]
fn decode_field_order_is_free() {
    let m = decode_message("{ \"text\" : \"t\", \"user\" : \"u\" }").unwrap();
    assert_eq!(m, msg("u", "t"));
}

#[test]
fn decode_unescapes() {
    let m = decode_message("{\"user\":\"\\u0041\\\"\",\"text\":\"\\u00e9\"}").unwrap();
    assert_eq!(m, msg("A\"", "é"));
}

#[test]
fn decode_rejects_malformed_json() {
    assert!(decode_message("{\"user\":\"Alice\",").is_none());
    assert!(decode_message("hello").is_none());
    assert!(decode_message("").is_none());
}

#[test]
fn decode_rejects_missing_field() {
    assert!(decode_message("{\"user\":\"Alice\"}").is_none());
    assert!(decode_message("{\"text\":\"hi\"}").is_none());
}

#[test]
fn decode_rejects_non_text_field() {
    assert!(decode_message("{\"user\":1,\"text\":\"hi\"}").is_none());
    assert!(decode_message("{\"user\":\"a\",\"text\":null}").is_none());
    assert!(decode_message("[\"a\",\"b\"]").is_none());
}

#[test]
fn encode_then_decode_gives_back_the_message() {
    for (u, t) in [("Alice", "hello"), ("Гость", "привет \"мир\"\n"), ("", "\t")] {
        let m = msg(u, t);
        assert_eq!(decode_message(&encode_message(&m)), Some(m));
    }
}

#[test]
fn duplicate_keeps_fields() {
    let m = msg("u", "t");
    assert_eq!(m.duplicate(), m);
    assert_ne!(m, msg("u", "other"));
}
