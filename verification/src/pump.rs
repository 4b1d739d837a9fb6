//! The native event pump: the one owner of the native event loop.
//!
//! The host polls the native loop and hands over what it found; the pump
//! decides whether to go on and what to publish.

use vstd::prelude::*;
use crate::channel::{ChannelSlot, SlotState};
use crate::message::{EventLoopMessage, PumpMessage, WindowHandle};

verus! {

/// A raw event, as far as the pump tells raw events apart.
#[derive(Clone, Copy, Debug, PartialEq, Eq, Structural)]
pub enum NativeEvent {
    /// The user asked for this window to be closed.
    CloseRequested(WindowHandle),
    /// Anything else. The pump passes over it.
    Unrecognized,
}

/// How a tick of the pump ended.
#[derive(Clone, Copy, Debug, PartialEq, Eq, Structural)]
pub enum PumpOutcome {
    /// A message was produced and handed to the channel.
    Published,
    /// No message was produced; the slot stays as it was.
    Quiet,
    /// The pump is not running, or nobody listens any more and it stopped.
    Stopped,
}

impl NativeEvent {
    /// The message that stands for a raw event, if it is a recognised one.
    pub open spec fn translated(self) -> Option<PumpMessage> {
        match self {
            NativeEvent::CloseRequested(window) => Some(
                PumpMessage { window: Some(window), event: EventLoopMessage::CloseRequested },
            ),
            NativeEvent::Unrecognized => None,
        }
    }

    pub fn translate(&self) -> (message: Option<PumpMessage>)
        ensures
            message == self.translated(),
    {
        match self {
            NativeEvent::CloseRequested(window) => Some(
                PumpMessage::new(Some(*window), EventLoopMessage::CloseRequested),
            ),
            NativeEvent::Unrecognized => None,
        }
    }
}

/// The message one poll produces: that of the last recognised event.
pub open spec fn produced(events: Seq<NativeEvent>) -> Option<PumpMessage>
    decreases events.len(),
{
    if events.len() == 0 {
        None
    } else {
        match events.last().translated() {
            Some(message) => Some(message),
            None => produced(events.drop_last()),
        }
    }
}

/// Goes through what one poll returned and keeps the message of the last
/// recognised event.
pub fn translate_all(events: &Vec<NativeEvent>) -> (message: Option<PumpMessage>)
    ensures
        message == produced(events@),
{
    let mut message: Option<PumpMessage> = None;
    let mut i: usize = 0;
    while i < events.len()
        invariant
            i <= events.len(),
            message == produced(events@.take(i as int)),
        decreases events.len() - i,
    {
        assert(events@.take(i + 1).drop_last() == events@.take(i as int));
        match events[i].translate() {
            Some(found) => {
                message = Some(found);
            },
            None => {},
        }
        i = i + 1;
    }
    assert(events@.take(events.len() as int) == events@);
    message
}

/// One tick of a pump, given what the poll returned.
pub struct TickResult {
    pub running: bool,
    pub channel: SlotState<PumpMessage>,
    pub outcome: PumpOutcome,
}

/// Whether the pump goes into another tick, and so polls again.
pub open spec fn polls(running: bool, channel: SlotState<PumpMessage>) -> bool {
    running && channel.accepts()
}

/// What a tick does to a pump and its channel. A pump that is not to poll
/// stops; one that polled publishes what the poll produced.
pub open spec fn tick(
    running: bool,
    channel: SlotState<PumpMessage>,
    events: Seq<NativeEvent>,
) -> TickResult {
    if !polls(running, channel) {
        TickResult { running: false, channel, outcome: PumpOutcome::Stopped }
    } else {
        match produced(events) {
            Some(message) => TickResult {
                running: true,
                channel: channel.publish(message),
                outcome: PumpOutcome::Published,
            },
            None => TickResult { running: true, channel, outcome: PumpOutcome::Quiet },
        }
    }
}

/// The pump. There is one per process, on the thread that owns the native
/// event loop.
#[derive(Debug)]
pub struct EventPump {
    running: bool,
}

impl EventPump {
    pub closed spec fn is_running(&self) -> bool {
        self.running
    }

    /// A pump that has not been asked to run.
    pub fn new() -> (pump: EventPump)
        ensures
            !pump.is_running(),
    {
        EventPump { running: false }
    }

    #[verifier::when_used_as_spec(is_running)]
    pub fn running(&self) -> (running: bool)
        ensures
            running == self.is_running(),
    {
        self.running
    }

    /// Called at the top of every turn of the pump's loop, before the
    /// native loop is polled. With nobody subscribed the pump stops here.
    pub fn begin_tick(&mut self, channel: &ChannelSlot<PumpMessage>) -> (poll: bool)
        ensures
            poll == polls(old(self).is_running(), channel@),
            final(self).is_running() == poll,
    {
        if self.running && channel.subscriber_count() == 0 {
            self.running = false;
        }
        self.running
    }

    /// Called with what the poll returned. Publishes the message that was
    /// produced, if one was; stops instead when nobody is subscribed.
    pub fn tick(
        &mut self,
        channel: &mut ChannelSlot<PumpMessage>,
        events: &Vec<NativeEvent>,
    ) -> (outcome: PumpOutcome)
        ensures
            final(self).is_running() == tick(old(self).is_running(), old(channel)@, events@).running,
            final(channel)@ == tick(old(self).is_running(), old(channel)@, events@).channel,
            outcome == tick(old(self).is_running(), old(channel)@, events@).outcome,
    {
        if !self.running || channel.subscriber_count() == 0 {
            self.running = false;
            return PumpOutcome::Stopped;
        }
        match translate_all(events) {
            Some(message) => {
                channel.publish(message);
                PumpOutcome::Published
            },
            None => PumpOutcome::Quiet,
        }
    }
}

/// The channel that the pump publishes to and every window listener
/// subscribes to. The host makes it once, on first use, and keeps it for
/// the life of the process.
pub fn broadcast_channel() -> (channel: ChannelSlot<PumpMessage>)
    ensures
        channel@ == SlotState::initial(PumpMessage::initial()),
{
    ChannelSlot::new(PumpMessage::new(None, EventLoopMessage::Nothing))
}

/// A request to run the pump. The first one starts its loop; while the
/// loop runs, further requests start nothing.
pub fn winit_run(pump: &mut EventPump) -> (start: bool)
    ensures
        start == !old(pump).is_running(),
        final(pump).is_running(),
{
    let start = !pump.running;
    pump.running = true;
    start
}

/// One turn of the pump's loop as the pump meets it: the channel as it is
/// then, and the events that a poll would return.
pub struct Turn {
    pub channel: SlotState<PumpMessage>,
    pub events: Seq<NativeEvent>,
}

/// What a pump did over some turns.
pub struct PumpLog {
    pub running: bool,
    pub polls: nat,
    pub publishes: nat,
}

/// The pump's loop over `turns`. Between two turns anyone may subscribe,
/// unsubscribe or publish: each turn brings the channel as it is by then.
pub open spec fn run_turns(running: bool, turns: Seq<Turn>) -> PumpLog
    decreases turns.len(),
{
    if turns.len() == 0 {
        PumpLog { running, polls: 0, publishes: 0 }
    } else if !polls(running, turns.first().channel) {
        run_turns(false, turns.drop_first())
    } else {
        let done = tick(true, turns.first().channel, turns.first().events);
        let rest = run_turns(done.running, turns.drop_first());
        PumpLog {
            running: rest.running,
            polls: rest.polls + 1,
            publishes: rest.publishes + if done.outcome == PumpOutcome::Published {
                1nat
            } else {
                0nat
            },
        }
    }
}

/// A pump that is not running polls nothing and publishes nothing,
/// whatever happens to the channel, until it is asked to run again.
pub proof fn law_stopped_pump_stays_stopped(turns: Seq<Turn>)
    ensures
        run_turns(false, turns) == (PumpLog { running: false, polls: 0, publishes: 0 }),
    decreases turns.len(),
{
    if turns.len() > 0 {
        law_stopped_pump_stays_stopped(turns.drop_first());
    }
}

/// Self-termination: from the turn at which the pump finds nobody
/// subscribed, it makes no further poll and no further publish.
pub proof fn law_pump_stops_without_subscribers(running: bool, turns: Seq<Turn>)
    requires
        turns.len() > 0,
        turns.first().channel.subscribers == 0,
    ensures
        run_turns(running, turns) == (PumpLog { running: false, polls: 0, publishes: 0 }),
        tick(running, turns.first().channel, turns.first().events).channel == turns.first().channel,
{
    law_stopped_pump_stays_stopped(turns.drop_first());
}

} // verus!
