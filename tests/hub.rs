use chat_relay::hub::{Hub, NoSubscribers, Received, DEFAULT_CAPACITY};
use chat_relay::message::Message;

fn msg(room: &str, user: &str, text: &str) -> Message {
    Message::new(room.to_string(), user.to_string(), text.to_string())
}

#[test]
fn publish_without_subscribers_is_dropped() {
    let mut hub = Hub::new(DEFAULT_CAPACITY);
    assert_eq!(hub.publish(msg("r", "u", "lost")), Err(NoSubscribers));
    assert_eq!(hub.published_count(), 0);
    let mut sub = hub.subscribe();
    assert_eq!(hub.receive(&mut sub), Received::Empty);
}

#[test]
fn fan_out_reaches_every_subscription_once_in_order() {
    let mut hub = Hub::new(DEFAULT_CAPACITY);
    let mut subs = vec![hub.subscribe(), hub.subscribe(), hub.subscribe()];
    assert_eq!(hub.publish(msg("a", "x", "one")), Ok(3));
    assert_eq!(hub.publish(msg("b", "y", "two")), Ok(3));
    for sub in subs.iter_mut() {
        assert_eq!(hub.receive(sub), Received::Message(msg("a", "x", "one")));
        assert_eq!(hub.receive(sub), Received::Message(msg("b", "y", "two")));
        assert_eq!(hub.receive(sub), Received::Empty);
    }
}

#[test]
fn late_subscription_misses_earlier_message() {
    let mut hub = Hub::new(DEFAULT_CAPACITY);
    let _early = hub.subscribe();
    hub.publish(msg("r", "u", "m1")).unwrap();
    let mut late = hub.subscribe();
    hub.publish(msg("r", "u", "m2")).unwrap();
    assert_eq!(hub.receive(&mut late), Received::Message(msg("r", "u", "m2")));
    assert_eq!(hub.receive(&mut late), Received::Empty);
}

#[test]
fn lagging_subscription_skips_forward_and_continues() {
    let mut hub = Hub::new(4);
    let mut sub = hub.subscribe();
    for i in 0..5 {
        hub.publish(msg("r", "u", &format!("m{}", i))).unwrap();
    }
    assert_eq!(hub.receive(&mut sub), Received::Lagged(1));
    for i in 1..5 {
        assert_eq!(hub.receive(&mut sub), Received::Message(msg("r", "u", &format!("m{}", i))));
    }
    assert_eq!(hub.receive(&mut sub), Received::Empty);
    hub.publish(msg("r", "u", "after")).unwrap();
    assert_eq!(hub.receive(&mut sub), Received::Message(msg("r", "u", "after")));
}

#[test]
fn closed_hub_drains_then_reports_closed() {
    let mut hub = Hub::new(DEFAULT_CAPACITY);
    let mut sub = hub.subscribe();
    hub.publish(msg("r", "u", "last")).unwrap();
    hub.close();
    assert!(hub.is_closed());
    assert_eq!(hub.receive(&mut sub), Received::Message(msg("r", "u", "last")));
    assert_eq!(hub.receive(&mut sub), Received::Closed);
    assert_eq!(hub.receive(&mut sub), Received::Closed);
}

#[test]
fn unsubscribe_lowers_the_count() {
    let mut hub = Hub::new(2);
    assert_eq!(hub.capacity(), 2);
    let a = hub.subscribe();
    let _b = hub.subscribe();
    assert_eq!(hub.subscriber_count(), 2);
    hub.unsubscribe(a);
    assert_eq!(hub.subscriber_count(), 1);
    assert_eq!(hub.publish(msg("r", "u", "x")), Ok(1));
}

#[test]
fn message_clone_keeps_fields() {
    let m = msg("room", "user", "text");
    let c = m.clone();
    assert_eq!(c.room, "room");
    assert_eq!(c.username, "user");
    assert_eq!(c.message, "text");
}
