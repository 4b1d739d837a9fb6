//! A single-slot, coalescing, multi-subscriber channel.
//!
//! The slot keeps only the most recent value. Every publish that is
//! accepted moves the slot to its next version; a cursor remembers the
//! version it last observed, so a subscriber that was slow sees one change
//! and the latest value, however many publishes it missed.

use vstd::prelude::*;

verus! {

/// What a [`ChannelSlot`] is: its value, the version of that value and the
/// number of live cursors.
pub struct SlotState<T> {
    pub value: T,
    pub version: nat,
    pub subscribers: nat,
}

/// The version that follows `version`. Versions wrap around after
/// `u64::MAX`.
pub open spec fn next_version(version: nat) -> nat {
    if version >= u64::MAX {
        0
    } else {
        version + 1
    }
}

impl<T> SlotState<T> {
    /// A new channel: nothing published yet, nobody subscribed.
    pub open spec fn initial(value: T) -> SlotState<T> {
        SlotState { value, version: 0, subscribers: 0 }
    }

    /// A publish is accepted when somebody is subscribed. With nobody
    /// subscribed it changes nothing.
    pub open spec fn accepts(self) -> bool {
        self.subscribers > 0
    }

    /// An accepted publish overwrites the value and moves the slot to its
    /// next version.
    pub open spec fn publish(self, value: T) -> SlotState<T> {
        if self.accepts() {
            SlotState { value, version: next_version(self.version), subscribers: self.subscribers }
        } else {
            self
        }
    }

    /// The channel after each of `values` has been published in turn.
    pub open spec fn publish_all(self, values: Seq<T>) -> SlotState<T>
        decreases values.len(),
    {
        if values.len() == 0 {
            self
        } else {
            self.publish_all(values.drop_last()).publish(values.last())
        }
    }

    /// One more live cursor.
    pub open spec fn subscribe(self) -> SlotState<T> {
        SlotState { value: self.value, version: self.version, subscribers: self.subscribers + 1 }
    }

    /// One live cursor fewer, as long as there is one.
    pub open spec fn unsubscribe(self) -> SlotState<T> {
        SlotState {
            value: self.value,
            version: self.version,
            subscribers: if self.subscribers > 0 {
                (self.subscribers - 1) as nat
            } else {
                0
            },
        }
    }

    /// Whether a cursor that last observed version `seen` has something
    /// new to read.
    pub open spec fn changed(self, seen: nat) -> bool {
        seen != self.version
    }
}

/// The shared slot. The publisher and every subscriber go through the one
/// owner of this value.
pub struct ChannelSlot<T> {
    value: T,
    version: u64,
    subscribers: usize,
}

/// One subscriber's place in a channel: the version it last observed.
#[derive(Debug)]
pub struct Cursor {
    seen: u64,
}

impl<T> View for ChannelSlot<T> {
    type V = SlotState<T>;

    closed spec fn view(&self) -> SlotState<T> {
        SlotState {
            value: self.value,
            version: self.version as nat,
            subscribers: self.subscribers as nat,
        }
    }
}

impl View for Cursor {
    type V = nat;

    closed spec fn view(&self) -> nat {
        self.seen as nat
    }
}

impl<T> ChannelSlot<T> {
    /// A channel that holds `init`, with no subscriber yet.
    pub fn new(init: T) -> (channel: ChannelSlot<T>)
        ensures
            channel@ == SlotState::initial(init),
    {
        ChannelSlot { value: init, version: 0, subscribers: 0 }
    }

    /// The version and the subscriber count fit the machine's integers.
    pub proof fn lemma_bounded(&self)
        ensures
            self@.version <= u64::MAX,
            self@.subscribers <= usize::MAX,
    {
    }

    /// Overwrites the slot and moves it to its next version. With nobody
    /// subscribed the value is dropped and the slot stays as it was.
    pub fn publish(&mut self, value: T) -> (accepted: bool)
        ensures
            accepted == old(self)@.accepts(),
            final(self)@ == old(self)@.publish(value),
    {
        if self.subscribers == 0 {
            return false;
        }
        self.value = value;
        self.version = if self.version == u64::MAX {
            0
        } else {
            self.version + 1
        };
        true
    }

    /// A new cursor. It starts at the current version, so it reports a
    /// change only after the next accepted publish.
    pub fn subscribe(&mut self) -> (cursor: Cursor)
        requires
            old(self)@.subscribers < usize::MAX,
        ensures
            final(self)@ == old(self)@.subscribe(),
            cursor@ == old(self)@.version,
    {
        self.subscribers = self.subscribers + 1;
        Cursor { seen: self.version }
    }

    /// Gives a cursor back. The value and its version stay.
    pub fn unsubscribe(&mut self, cursor: Cursor)
        ensures
            final(self)@ == old(self)@.unsubscribe(),
    {
        if self.subscribers > 0 {
            self.subscribers = self.subscribers - 1;
        }
    }

    /// Whether `cursor` has something new to read. The cursor stays where
    /// it is.
    pub fn has_changed(&self, cursor: &Cursor) -> (changed: bool)
        ensures
            changed == self@.changed(cursor@),
    {
        cursor.seen != self.version
    }

    /// The step a waiting subscriber takes each time it is resumed: when
    /// the slot changed since the cursor's last observation, the cursor
    /// moves to the current version and the wait is over.
    pub fn poll_change(&self, cursor: &mut Cursor) -> (woken: bool)
        ensures
            woken == self@.changed(old(cursor)@),
            final(cursor)@ == self@.version,
    {
        if cursor.seen != self.version {
            cursor.seen = self.version;
            true
        } else {
            false
        }
    }

    /// The current value. Reading takes nothing away from other
    /// subscribers.
    pub fn read_current(&self) -> (value: &T)
        ensures
            *value == self@.value,
    {
        &self.value
    }

    /// The number of live cursors.
    pub fn subscriber_count(&self) -> (count: usize)
        ensures
            count == self@.subscribers,
    {
        self.subscribers
    }
}

/// Publishing keeps the subscriber count, and after at least one accepted
/// publish the slot holds the last value; the version has gone round by
/// the number of publishes.
pub proof fn lemma_publish_all<T>(channel: SlotState<T>, values: Seq<T>)
    requires
        channel.accepts(),
        channel.version <= u64::MAX,
    ensures
        channel.publish_all(values).subscribers == channel.subscribers,
        channel.publish_all(values).version == (channel.version + values.len()) % 0x1_0000_0000_0000_0000,
        values.len() > 0 ==> channel.publish_all(values).value == values.last(),
        values.len() == 0 ==> channel.publish_all(values) == channel,
    decreases values.len(),
{
    if values.len() > 0 {
        lemma_publish_all(channel, values.drop_last());
    }
}

/// No retroactive notification: a cursor made after a publish sees that
/// publish's value as unchanged, and sees a change at the next publish,
/// whose value the slot then holds.
pub proof fn law_subscribe_after_publish<T>(channel: SlotState<T>, published: T, next: T)
    ensures
        ({
            let before = channel.publish(published);
            let cursor = before.version;
            let subscribed = before.subscribe();
            &&& !subscribed.changed(cursor)
            &&& subscribed.value == before.value
            &&& subscribed.publish(next).changed(cursor)
            &&& subscribed.publish(next).value == next
        }),
{
}

/// Coalescing: after any number of publishes a subscriber that read none
/// of them finds the last value in the slot, and one observation brings
/// its cursor up to date, so that no earlier value is ever shown to it. A
/// cursor that was up to date before them sees a change, as long as the
/// version has not gone all the way round.
pub proof fn law_coalescing<T>(channel: SlotState<T>, seen: nat, values: Seq<T>)
    requires
        channel.accepts(),
        channel.version <= u64::MAX,
        values.len() > 0,
    ensures
        ({
            let after = channel.publish_all(values);
            &&& after.value == values.last()
            &&& !after.changed(after.version)
            &&& seen == channel.version && values.len() <= u64::MAX ==> after.changed(seen)
        }),
{
    lemma_publish_all(channel, values);
}

/// What happens on a channel, as one of its subscribers meets it.
pub enum SubscriberEvent<T> {
    /// Somebody publishes a value.
    Publish(T),
    /// The subscriber is resumed and reads the slot if it has changed.
    Observe,
}

/// A channel and one subscriber after some events: the values that were
/// accepted, the values the subscriber read, and for each value read the
/// place among the accepted ones that it was taken from.
pub struct Observation<T> {
    pub channel: SlotState<T>,
    pub seen: nat,
    pub published: Seq<T>,
    pub observed: Seq<T>,
    pub places: Seq<int>,
}

impl<T> Observation<T> {
    /// The observation after one more event.
    pub open spec fn after(self, event: SubscriberEvent<T>) -> Observation<T> {
        match event {
            SubscriberEvent::Publish(value) => Observation {
                channel: self.channel.publish(value),
                seen: self.seen,
                published: if self.channel.accepts() {
                    self.published.push(value)
                } else {
                    self.published
                },
                observed: self.observed,
                places: self.places,
            },
            SubscriberEvent::Observe => if self.channel.changed(self.seen) {
                Observation {
                    channel: self.channel,
                    seen: self.channel.version,
                    published: self.published,
                    observed: self.observed.push(self.channel.value),
                    places: self.places.push(self.published.len() - 1),
                }
            } else {
                self
            },
        }
    }

    /// Each value read is the accepted value at its place, and the places
    /// go strictly upwards.
    pub open spec fn in_publish_order(self) -> bool {
        &&& self.places.len() == self.observed.len()
        &&& forall|i: int|
            0 <= i < self.places.len() ==> 0 <= #[trigger] self.places[i] < self.published.len()
                && self.observed[i] == self.published[self.places[i]]
        &&& forall|i: int, j: int|
            0 <= i < j < self.places.len() ==> #[trigger] self.places[i] < #[trigger] self.places[j]
    }

    /// The slot holds the last accepted value, and the subscriber can only
    /// see a change when a value was accepted after the last one it read.
    spec fn up_to_date(self) -> bool {
        &&& self.channel.accepts()
        &&& self.published.len() > 0 ==> self.channel.value == self.published.last()
        &&& self.channel.changed(self.seen) ==> self.published.len() > 0 && (self.places.len() > 0
            ==> self.places.last() < self.published.len() - 1)
    }
}

/// The events in order, for a subscriber that last observed version
/// `seen`, with nothing published and nothing read before them.
pub open spec fn observe_all<T>(
    channel: SlotState<T>,
    seen: nat,
    events: Seq<SubscriberEvent<T>>,
) -> Observation<T>
    decreases events.len(),
{
    if events.len() == 0 {
        Observation { channel, seen, published: Seq::empty(), observed: Seq::empty(), places: Seq::empty() }
    } else {
        observe_all(channel, seen, events.drop_last()).after(events.last())
    }
}

proof fn lemma_observations_stay_in_order<T>(channel: SlotState<T>, events: Seq<SubscriberEvent<T>>)
    requires
        channel.accepts(),
    ensures
        observe_all(channel, channel.version, events).in_publish_order(),
        observe_all(channel, channel.version, events).up_to_date(),
    decreases events.len(),
{
    if events.len() > 0 {
        lemma_observations_stay_in_order(channel, events.drop_last());
        let before = observe_all(channel, channel.version, events.drop_last());
        let end = before.after(events.last());
        if events.last() is Observe && before.channel.changed(before.seen) {
            assert forall|i: int, j: int| 0 <= i < j < end.places.len() implies #[trigger] end.places[i]
                < #[trigger] end.places[j] by {
                assert(end.places[i] == before.places[i]);
                if j < before.places.len() {
                    assert(end.places[j] == before.places[j]);
                } else {
                    assert(before.places[i] <= before.places.last());
                }
            }
        }
    }
}

/// Ordering: a subscriber reads values in the order in which they were
/// published. It may skip values, and it never reads one twice.
pub proof fn law_observations_follow_publish_order<T>(
    channel: SlotState<T>,
    events: Seq<SubscriberEvent<T>>,
)
    requires
        channel.accepts(),
    ensures
        observe_all(channel, channel.version, events).in_publish_order(),
{
    lemma_observations_stay_in_order(channel, events);
}

} // verus!
