use night_ride::channel::{EventChannel, CAPACITY};
use night_ride::ButtonInput;

#[test]
fn new_channel_is_empty() {
    let mut channel = EventChannel::new();
    assert_eq!(channel.dequeue(), None);
    assert_eq!(channel.dequeue(), None);
}

#[test]
fn events_come_out_in_the_order_they_went_in() {
    let mut channel = EventChannel::new();
    assert!(channel.enqueue(ButtonInput::Right));
    assert!(channel.enqueue(ButtonInput::Left));
    assert!(channel.enqueue(ButtonInput::Center));
    assert_eq!(channel.dequeue(), Some(ButtonInput::Right));
    assert_eq!(channel.dequeue(), Some(ButtonInput::Left));
    assert_eq!(channel.dequeue(), Some(ButtonInput::Center));
    assert_eq!(channel.dequeue(), None);
}

#[test]
fn enqueue_and_dequeue_may_alternate() {
    let mut channel = EventChannel::new();
    assert!(channel.enqueue(ButtonInput::Left));
    assert!(channel.enqueue(ButtonInput::Right));
    assert_eq!(channel.dequeue(), Some(ButtonInput::Left));
    assert!(channel.enqueue(ButtonInput::Center));
    assert_eq!(channel.dequeue(), Some(ButtonInput::Right));
    assert_eq!(channel.dequeue(), Some(ButtonInput::Center));
    assert_eq!(channel.dequeue(), None);
}

#[test]
fn capacity_is_one_hundred() {
    assert_eq!(CAPACITY, 100);
    let mut channel = EventChannel::new();
    for _ in 0..100 {
        assert!(channel.enqueue(ButtonInput::Left));
    }
    assert!(!channel.enqueue(ButtonInput::Left));
}

#[test]
fn event_beyond_capacity_is_dropped_without_error() {
    let mut channel = EventChannel::new();
    for _ in 0..CAPACITY {
        assert!(channel.enqueue(ButtonInput::Left));
    }
    assert!(!channel.enqueue(ButtonInput::Right));
    assert!(!channel.enqueue(ButtonInput::Center));
    for _ in 0..CAPACITY {
        assert_eq!(channel.dequeue(), Some(ButtonInput::Left));
    }
    assert_eq!(channel.dequeue(), None);
}

#[test]
fn a_drained_channel_takes_events_again() {
    let mut channel = EventChannel::new();
    for round in 0..5 {
        for _ in 0..CAPACITY {
            assert!(channel.enqueue(ButtonInput::Center), "round {}", round);
        }
        assert!(!channel.enqueue(ButtonInput::Center));
        assert_eq!(channel.dequeue(), Some(ButtonInput::Center));
        assert!(channel.enqueue(ButtonInput::Right));
        for _ in 1..CAPACITY {
            assert_eq!(channel.dequeue(), Some(ButtonInput::Center));
        }
        assert_eq!(channel.dequeue(), Some(ButtonInput::Right));
        assert_eq!(channel.dequeue(), None);
    }
}
