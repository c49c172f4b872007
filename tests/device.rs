use chat_relay::hub::{Hub, Received, DEFAULT_CAPACITY};
use chat_relay::message::Message;
use chat_relay::relay::{relay_chunk, relay_read};
use chat_relay::serial::{SerialBridge, SerialError, READ_CHUNK};
use chat_relay::text::{encode_line, message_from_chunk, message_from_text};

fn device(text: &str) -> Message {
    Message::new("Micro:bit".to_string(), "Micro:bit".to_string(), text.to_string())
}

#[test]
fn device_line_becomes_one_message() {
    let mut hub = Hub::new(DEFAULT_CAPACITY);
    let mut sub = hub.subscribe();
    assert_eq!(relay_chunk(&mut hub, b"hello\n"), Some(Ok(1)));
    assert_eq!(hub.receive(&mut sub), Received::Message(device("hello")));
    assert_eq!(hub.receive(&mut sub), Received::Empty);
}

#[test]
fn blank_chunk_publishes_nothing() {
    let mut hub = Hub::new(DEFAULT_CAPACITY);
    let mut sub = hub.subscribe();
    assert_eq!(relay_chunk(&mut hub, b" \r\n\t \n"), None);
    assert_eq!(relay_chunk(&mut hub, b""), None);
    assert_eq!(hub.published_count(), 0);
    assert_eq!(hub.receive(&mut sub), Received::Empty);
}

#[test]
fn failed_read_publishes_nothing() {
    let mut hub = Hub::new(DEFAULT_CAPACITY);
    let _sub = hub.subscribe();
    assert_eq!(relay_read(&mut hub, Err(SerialError::Read)), None);
    assert_eq!(relay_read(&mut hub, Ok(b"  temp 21 ".to_vec())), Some(Ok(1)));
    assert_eq!(hub.published_count(), 1);
}

#[test]
fn text_is_trimmed_of_unicode_white_space() {
    assert_eq!(message_from_text("\u{a0} hi there\u{3000}\n"), Some(device("hi there")));
    assert_eq!(message_from_text(" \u{2028}\t"), None);
}

#[test]
fn invalid_utf8_is_replaced() {
    assert_eq!(message_from_chunk(&[b'a', 0xff, b'b', b'\n']), Some(device("a\u{fffd}b")));
}

#[test]
fn line_ends_with_one_newline() {
    assert_eq!(encode_line("hi"), b"hi\n".to_vec());
    assert_eq!(encode_line(""), b"\n".to_vec());
    assert_eq!(encode_line("é"), vec![0xc3, 0xa9, b'\n']);
}

#[test]
fn missing_device_fails_to_open() {
    assert!(matches!(
        SerialBridge::open("/nonexistent/serial-device", 115200),
        Err(SerialError::Open)
    ));
    assert_eq!(READ_CHUNK, 64);
}
