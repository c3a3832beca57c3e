use arm_interface::error::Error;
use arm_interface::proto::{EventCode, Tag};
use arm_interface::registry::{SubscriberId, SubscriberIdGenerator, Subscribers};

#[test]
fn subscriber_ids_are_fresh_and_increasing() {
    let mut generator = SubscriberIdGenerator::new();
    assert_eq!(generator.generate().inner(), 0);
    assert_eq!(generator.generate().inner(), 1);
    assert_eq!(generator.generate().inner(), 2);
    let id = SubscriberId::new(7);
    assert_eq!(id.inner(), 7);
}

#[test]
fn replies_are_correlated_by_tag_in_any_order() {
    let mut registry: Subscribers<&str> = Subscribers::new();
    registry.subscribe_to_reply(Tag::new(1), "first").unwrap();
    registry.subscribe_to_reply(Tag::new(2), "second").unwrap();
    // The replies arrive in the opposite order.
    assert_eq!(registry.take_reply_subscriber_with_tag(Tag::new(2)), Some("second"));
    assert_eq!(registry.take_reply_subscriber_with_tag(Tag::new(1)), Some("first"));
    // Each waiter is single-use.
    assert_eq!(registry.take_reply_subscriber_with_tag(Tag::new(1)), None);
}

#[test]
fn a_tag_can_wait_only_once() {
    let mut registry: Subscribers<u32> = Subscribers::new();
    registry.subscribe_to_reply(Tag::new(5), 10).unwrap();
    assert_eq!(registry.subscribe_to_reply(Tag::new(5), 11), Err(Error::DuplicateTag));
    // The original waiter is untouched.
    assert_eq!(registry.take_reply_subscriber_with_tag(Tag::new(5)), Some(10));
}

#[test]
fn unsubscribe_from_reply_reports_presence() {
    let mut registry: Subscribers<u32> = Subscribers::new();
    registry.subscribe_to_reply(Tag::new(9), 1).unwrap();
    assert_eq!(registry.unsubscribe_from_reply(Tag::new(9)), Ok(()));
    assert_eq!(registry.unsubscribe_from_reply(Tag::new(9)), Err(Error::NotFound));
}

#[test]
fn event_listeners_fan_out_in_subscription_order() {
    let mut registry: Subscribers<&str> = Subscribers::new();
    let code = EventCode::new(3);
    let other = EventCode::new(4);
    let a = registry.subscribe_to_event(code, "a").unwrap();
    let _b = registry.subscribe_to_event(other, "b").unwrap();
    let c = registry.subscribe_to_event(code, "c").unwrap();
    assert_ne!(a.inner(), c.inner());
    assert_eq!(registry.event_listener_count(code), 2);
    assert_eq!(registry.event_listener_count(other), 1);
    let snapshot = registry.get_event_subscribers_with_tag(code);
    assert_eq!(snapshot.len(), 2);
    assert_eq!(snapshot[0], (a, "a"));
    assert_eq!(snapshot[1], (c, "c"));
    // A listener subscribed after the snapshot does not appear in it.
    let _d = registry.subscribe_to_event(code, "d").unwrap();
    assert_eq!(snapshot.len(), 2);
    assert_eq!(registry.event_listener_count(code), 3);
}

#[test]
fn unsubscribe_from_event_removes_exactly_one() {
    let mut registry: Subscribers<&str> = Subscribers::new();
    let code = EventCode::new(1);
    let a = registry.subscribe_to_event(code, "a").unwrap();
    let b = registry.subscribe_to_event(code, "b").unwrap();
    assert_eq!(registry.unsubscribe_from_event(code, a), Ok(()));
    assert_eq!(registry.unsubscribe_from_event(code, a), Err(Error::NotFound));
    // The wrong code does not find the listener either.
    assert_eq!(registry.unsubscribe_from_event(EventCode::new(2), b), Err(Error::NotFound));
    let snapshot = registry.get_event_subscribers_with_tag(code);
    assert_eq!(snapshot.len(), 1);
    assert_eq!(snapshot[0], (b, "b"));
}
