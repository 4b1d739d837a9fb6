use event_bridge::channel::ChannelSlot;

#[test]
fn a_new_channel_holds_its_initial_value_and_has_no_subscriber() {
    let channel = ChannelSlot::new(5u32);
    assert_eq!(*channel.read_current(), 5);
    assert_eq!(channel.subscriber_count(), 0);
}

#[test]
fn publish_without_subscribers_is_a_no_op() {
    let mut channel = ChannelSlot::new(1u32);
    assert!(!channel.publish(2));
    assert_eq!(*channel.read_current(), 1);
    let cursor = channel.subscribe();
    assert!(!channel.has_changed(&cursor));
}

#[test]
fn publish_overwrites_the_slot() {
    let mut channel = ChannelSlot::new(1u32);
    let _cursor = channel.subscribe();
    assert!(channel.publish(2));
    assert_eq!(*channel.read_current(), 2);
    assert!(channel.publish(3));
    assert_eq!(*channel.read_current(), 3);
}

#[test]
fn a_subscriber_created_after_a_publish_waits_for_the_next_one() {
    let mut channel = ChannelSlot::new("init".to_string());
    let mut first = channel.subscribe();
    assert!(channel.publish("one".to_string()));
    let mut late = channel.subscribe();
    assert!(!channel.has_changed(&late));
    assert!(!channel.poll_change(&mut late));
    assert!(channel.has_changed(&first));
    assert!(channel.publish("two".to_string()));
    assert!(channel.has_changed(&late));
    assert!(channel.poll_change(&mut late));
    assert_eq!(channel.read_current(), "two");
    assert!(channel.poll_change(&mut first));
    assert_eq!(channel.read_current(), "two");
}

#[test]
fn a_new_subscriber_is_not_notified_of_the_initial_value() {
    let mut channel = ChannelSlot::new(0u8);
    let mut cursor = channel.subscribe();
    assert!(!channel.has_changed(&cursor));
    assert!(!channel.poll_change(&mut cursor));
}

#[test]
fn rapid_publishes_coalesce_into_the_last_value() {
    let mut channel = ChannelSlot::new(0u32);
    let mut slow = channel.subscribe();
    for value in 1..=10u32 {
        assert!(channel.publish(value));
    }
    assert!(channel.poll_change(&mut slow));
    assert_eq!(*channel.read_current(), 10);
    assert!(!channel.poll_change(&mut slow));
    assert!(!channel.has_changed(&slow));
}

#[test]
fn subscribers_observe_independently() {
    let mut channel = ChannelSlot::new(0u32);
    let mut a = channel.subscribe();
    let mut b = channel.subscribe();
    assert!(channel.publish(1));
    assert!(channel.poll_change(&mut a));
    assert!(!channel.has_changed(&a));
    assert!(channel.has_changed(&b));
    assert!(channel.publish(2));
    assert!(channel.poll_change(&mut b));
    assert_eq!(*channel.read_current(), 2);
    assert!(!channel.poll_change(&mut b));
    assert!(channel.poll_change(&mut a));
}

#[test]
fn reading_does_not_consume_the_value() {
    let mut channel = ChannelSlot::new(0u32);
    let cursor = channel.subscribe();
    channel.publish(9);
    assert_eq!(*channel.read_current(), 9);
    assert_eq!(*channel.read_current(), 9);
    assert!(channel.has_changed(&cursor));
}

#[test]
fn has_changed_does_not_move_the_cursor() {
    let mut channel = ChannelSlot::new(0u32);
    let mut cursor = channel.subscribe();
    channel.publish(1);
    assert!(channel.has_changed(&cursor));
    assert!(channel.has_changed(&cursor));
    assert!(channel.poll_change(&mut cursor));
    assert!(!channel.has_changed(&cursor));
}

#[test]
fn subscriber_count_follows_subscribe_and_unsubscribe() {
    let mut channel = ChannelSlot::new(0u32);
    let a = channel.subscribe();
    assert_eq!(channel.subscriber_count(), 1);
    let b = channel.subscribe();
    assert_eq!(channel.subscriber_count(), 2);
    channel.unsubscribe(a);
    assert_eq!(channel.subscriber_count(), 1);
    channel.unsubscribe(b);
    assert_eq!(channel.subscriber_count(), 0);
    assert!(!channel.publish(4));
    assert_eq!(*channel.read_current(), 0);
}

#[test]
fn unsubscribe_keeps_the_value_and_the_others_notified() {
    let mut channel = ChannelSlot::new(0u32);
    let gone = channel.subscribe();
    let mut stays = channel.subscribe();
    channel.publish(3);
    channel.unsubscribe(gone);
    assert_eq!(*channel.read_current(), 3);
    assert!(channel.poll_change(&mut stays));
    assert!(channel.publish(4));
    assert!(channel.has_changed(&stays));
}

#[test]
fn resubscribing_reopens_a_channel_without_subscribers() {
    let mut channel = ChannelSlot::new(0u32);
    let first = channel.subscribe();
    channel.unsubscribe(first);
    assert!(!channel.publish(1));
    let mut second = channel.subscribe();
    assert!(channel.publish(2));
    assert!(channel.poll_change(&mut second));
    assert_eq!(*channel.read_current(), 2);
}
