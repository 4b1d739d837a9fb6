//! The channel held against `tokio::sync::watch`, operation by operation.

use event_bridge::channel::{ChannelSlot, Cursor};
use tokio::sync::watch;

struct Pair {
    ours: ChannelSlot<u64>,
    theirs: watch::Sender<u64>,
    cursors: Vec<(Cursor, watch::Receiver<u64>)>,
}

impl Pair {
    fn new(init: u64) -> Pair {
        Pair { ours: ChannelSlot::new(init), theirs: watch::Sender::new(init), cursors: Vec::new() }
    }

    fn publish(&mut self, value: u64) {
        let accepted = self.ours.publish(value);
        let sent = self.theirs.send(value).is_ok();
        assert_eq!(accepted, sent);
    }

    fn subscribe(&mut self) {
        let cursor = self.ours.subscribe();
        let receiver = self.theirs.subscribe();
        self.cursors.push((cursor, receiver));
    }

    fn unsubscribe(&mut self, index: usize) {
        let (cursor, receiver) = self.cursors.remove(index);
        self.ours.unsubscribe(cursor);
        drop(receiver);
    }

    fn observe(&mut self, index: usize) {
        let (cursor, receiver) = &mut self.cursors[index];
        let woken = self.ours.poll_change(cursor);
        let changed = receiver.has_changed().unwrap();
        assert_eq!(woken, changed);
        assert_eq!(*self.ours.read_current(), *receiver.borrow_and_update());
    }

    fn agree(&self) {
        assert_eq!(self.ours.subscriber_count(), self.theirs.receiver_count());
        assert_eq!(*self.ours.read_current(), *self.theirs.borrow());
        for (cursor, receiver) in self.cursors.iter() {
            assert_eq!(self.ours.has_changed(cursor), receiver.has_changed().unwrap());
        }
    }
}

#[test]
fn agrees_with_watch_on_a_publish_without_receivers() {
    let mut pair = Pair::new(1);
    pair.publish(2);
    pair.agree();
    pair.subscribe();
    pair.agree();
    pair.observe(0);
    pair.agree();
}

#[test]
fn agrees_with_watch_on_late_subscription() {
    let mut pair = Pair::new(0);
    pair.subscribe();
    pair.publish(1);
    pair.subscribe();
    pair.agree();
    pair.publish(2);
    pair.agree();
    pair.observe(1);
    pair.agree();
    pair.observe(0);
    pair.agree();
}

#[test]
fn agrees_with_watch_on_coalescing() {
    let mut pair = Pair::new(0);
    pair.subscribe();
    for value in 1..=50 {
        pair.publish(value);
        pair.agree();
    }
    pair.observe(0);
    pair.agree();
    pair.observe(0);
    pair.agree();
}

#[test]
fn agrees_with_watch_when_the_last_receiver_goes_and_another_comes() {
    let mut pair = Pair::new(0);
    pair.subscribe();
    pair.publish(1);
    pair.unsubscribe(0);
    pair.agree();
    pair.publish(2);
    pair.agree();
    pair.subscribe();
    pair.agree();
    pair.publish(3);
    pair.agree();
    pair.observe(0);
    pair.agree();
}

#[test]
fn agrees_with_watch_on_a_long_mixed_run() {
    let mut pair = Pair::new(0);
    let mut state: u64 = 0x2545_f491_4f6c_dd1d;
    for round in 0..5000u64 {
        state = state.wrapping_mul(6364136223846793005).wrapping_add(1442695040888963407);
        let choice = (state >> 33) % 8;
        let pick = (state >> 40) as usize;
        match choice {
            0 | 1 | 2 => pair.publish(round),
            3 => {
                if pair.cursors.len() < 5 {
                    pair.subscribe();
                }
            }
            4 => {
                if !pair.cursors.is_empty() {
                    let index = pick % pair.cursors.len();
                    pair.unsubscribe(index);
                }
            }
            _ => {
                if !pair.cursors.is_empty() {
                    let index = pick % pair.cursors.len();
                    pair.observe(index);
                }
            }
        }
        pair.agree();
    }
}
