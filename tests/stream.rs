use chat_relay::hub::{Hub, DEFAULT_CAPACITY};
use chat_relay::message::Message;
use chat_relay::stream::{StreamAction, StreamState, Subscriber};

fn msg(text: &str) -> Message {
    Message::new("lobby".to_string(), "ann".to_string(), text.to_string())
}

#[test]
fn stream_emits_then_waits() {
    let mut hub = Hub::new(DEFAULT_CAPACITY);
    let mut s = Subscriber::new(&mut hub);
    assert_eq!(s.next(&hub, false, false), StreamAction::Wait);
    hub.publish(msg("hi")).unwrap();
    assert_eq!(s.next(&hub, false, false), StreamAction::Emit(msg("hi")));
    assert_eq!(s.next(&hub, false, false), StreamAction::Wait);
    assert_eq!(s.state(), StreamState::Active);
}

#[test]
fn stream_skips_on_lag() {
    let mut hub = Hub::new(2);
    let mut s = Subscriber::new(&mut hub);
    for t in ["a", "b", "c"] {
        hub.publish(msg(t)).unwrap();
    }
    assert_eq!(s.next(&hub, false, false), StreamAction::Skip);
    assert_eq!(s.next(&hub, false, false), StreamAction::Emit(msg("b")));
    assert_eq!(s.next(&hub, false, false), StreamAction::Emit(msg("c")));
}

#[test]
fn shutdown_stops_every_waiting_stream() {
    let mut hub = Hub::new(DEFAULT_CAPACITY);
    let mut streams: Vec<Subscriber> = (0..3).map(|_| Subscriber::new(&mut hub)).collect();
    for s in streams.iter_mut() {
        assert_eq!(s.next(&hub, false, false), StreamAction::Wait);
    }
    hub.publish(msg("pending")).unwrap();
    for s in streams.iter_mut() {
        assert_eq!(s.next(&hub, true, false), StreamAction::Stop);
        assert_eq!(s.state(), StreamState::Closed);
        assert_eq!(s.next(&hub, false, false), StreamAction::Stop);
    }
    for s in streams {
        s.finish(&mut hub);
    }
    assert_eq!(hub.subscriber_count(), 0);
}

#[test]
fn disconnect_and_hub_close_end_a_stream() {
    let mut hub = Hub::new(DEFAULT_CAPACITY);
    let mut a = Subscriber::new(&mut hub);
    let mut b = Subscriber::new(&mut hub);
    assert_eq!(a.next(&hub, false, true), StreamAction::Stop);
    hub.close();
    assert_eq!(b.next(&hub, false, false), StreamAction::Stop);
    assert_eq!(b.state(), StreamState::Closed);
}
