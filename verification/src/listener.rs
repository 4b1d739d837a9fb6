//! Window-scoped listeners: one per registered (window, callback) pair.
//!
//! A listener subscribes once. Each time its task is resumed it polls; the
//! answer says whether to stay suspended, to pass over a message meant for
//! another window, or to call the callback. What the callback returned
//! decides whether the listener lives on.

use vstd::prelude::*;
use crate::channel::{ChannelSlot, Cursor, SlotState};
use crate::message::{ControlSignal, EventLoopHandle, EventLoopMessage, PumpMessage, WindowHandle};
use crate::pump::{tick, NativeEvent};

verus! {

/// What a listener is: the window it is bound to and the version of the
/// channel it last observed.
pub struct ListenerState {
    pub window: WindowHandle,
    pub seen: nat,
}

/// What a listener's task does after it has polled.
#[derive(Debug)]
pub enum ListenerPoll {
    /// Nothing was published since the last poll: stay suspended.
    Pending,
    /// The message is meant for another window. The callback is not
    /// called; the listener goes back to waiting.
    Discarded,
    /// Ask for `redraw` to be repainted, then call the callback with
    /// `control` and `message` and wait for it to return.
    Dispatch { redraw: WindowHandle, control: EventLoopHandle, message: EventLoopMessage },
}

/// A poll on the model: the listener afterwards, and the answer.
pub struct Polled {
    pub listener: ListenerState,
    pub outcome: ListenerPoll,
}

impl ListenerState {
    /// Whether the listener is suspended with nothing to read.
    pub open spec fn waiting(self, channel: SlotState<PumpMessage>) -> bool {
        !channel.changed(self.seen)
    }

    /// One poll. A listener with something to read moves up to the
    /// channel's version, whether the message concerns it or not.
    pub open spec fn poll(self, channel: SlotState<PumpMessage>) -> Polled {
        if self.waiting(channel) {
            Polled { listener: self, outcome: ListenerPoll::Pending }
        } else {
            let listener = ListenerState { window: self.window, seen: channel.version };
            if channel.value.concerns(self.window) {
                Polled {
                    listener,
                    outcome: ListenerPoll::Dispatch {
                        redraw: self.window,
                        control: EventLoopHandle::Break,
                        message: channel.value.event,
                    },
                }
            } else {
                Polled { listener, outcome: ListenerPoll::Discarded }
            }
        }
    }

    /// The channel after the listener's callback has returned.
    pub open spec fn released(
        channel: SlotState<PumpMessage>,
        returned: Option<EventLoopHandle>,
    ) -> SlotState<PumpMessage> {
        match ControlSignal::of(returned) {
            ControlSignal::Break => channel.unsubscribe(),
            ControlSignal::Continue => channel,
        }
    }
}

/// A registered listener. It owns its cursor; nothing else reads or moves
/// it.
#[derive(Debug)]
pub struct Listener {
    window: WindowHandle,
    cursor: Cursor,
}

impl View for Listener {
    type V = ListenerState;

    closed spec fn view(&self) -> ListenerState {
        ListenerState { window: self.window, seen: self.cursor@ }
    }
}

impl Listener {
    /// The window this listener is bound to.
    pub fn window(&self) -> (window: WindowHandle)
        ensures
            window == self@.window,
    {
        self.window
    }

    /// One poll, made each time the listener's task is resumed.
    pub fn poll(&mut self, channel: &ChannelSlot<PumpMessage>) -> (outcome: ListenerPoll)
        ensures
            final(self)@ == old(self)@.poll(channel@).listener,
            outcome == old(self)@.poll(channel@).outcome,
    {
        if !channel.poll_change(&mut self.cursor) {
            return ListenerPoll::Pending;
        }
        let message = channel.read_current();
        if message.is_for(self.window) {
            ListenerPoll::Dispatch {
                redraw: self.window,
                control: EventLoopHandle::Break,
                message: message.event.clone(),
            }
        } else {
            ListenerPoll::Discarded
        }
    }

    /// Takes what the callback returned. A control handle ends the
    /// listener: its cursor goes back to the channel and nothing of it is
    /// left. Any other value keeps it as it is.
    pub fn on_return(
        self,
        channel: &mut ChannelSlot<PumpMessage>,
        returned: Option<EventLoopHandle>,
    ) -> (kept: Option<Listener>)
        ensures
            final(channel)@ == ListenerState::released(old(channel)@, returned),
            ControlSignal::of(returned) == ControlSignal::Break ==> kept is None,
            ControlSignal::of(returned) == ControlSignal::Continue ==> (kept matches Some(listener)
                && listener@ == self@),
    {
        match ControlSignal::from_return(returned) {
            ControlSignal::Break => {
                channel.unsubscribe(self.cursor);
                None
            },
            ControlSignal::Continue => Some(self),
        }
    }
}

/// Registers a listener for `window`. It subscribes here, once, and so
/// hears of what is published from now on.
pub fn winit_event_loop(channel: &mut ChannelSlot<PumpMessage>, window: WindowHandle) -> (listener: Listener)
    requires
        old(channel)@.subscribers < usize::MAX,
    ensures
        final(channel)@ == old(channel)@.subscribe(),
        listener@ == (ListenerState { window, seen: old(channel)@.version }),
{
    let cursor = channel.subscribe();
    Listener { window, cursor }
}

/// Window filtering: a message for one window, published while a
/// listener bound to another waits, is passed over by that listener, which
/// then waits again.
pub proof fn law_window_filtering(
    listener: ListenerState,
    channel: SlotState<PumpMessage>,
    other: WindowHandle,
    event: EventLoopMessage,
)
    requires
        listener.waiting(channel),
        channel.accepts(),
        other != listener.window,
    ensures
        ({
            let published = channel.publish(PumpMessage { window: Some(other), event });
            let polled = listener.poll(published);
            &&& polled.outcome == ListenerPoll::Discarded
            &&& polled.listener.window == listener.window
            &&& polled.listener.waiting(published)
            &&& polled.listener.poll(published).outcome == ListenerPoll::Pending
        }),
{
}

/// Fan-out: a message without a window reaches every waiting listener,
/// whatever window it is bound to, and so does a message for its window.
pub proof fn law_broadcast_reaches_every_listener(
    listener: ListenerState,
    channel: SlotState<PumpMessage>,
    message: PumpMessage,
)
    requires
        listener.waiting(channel),
        channel.accepts(),
        message.window is None || message.window == Some(listener.window),
    ensures
        ({
            let published = channel.publish(message);
            let polled = listener.poll(published);
            &&& polled.outcome == (ListenerPoll::Dispatch {
                redraw: listener.window,
                control: EventLoopHandle::Break,
                message: message.event,
            })
            &&& polled.listener.waiting(published)
        }),
{
}

/// Termination: when one listener's callback returns the control handle,
/// that listener gives its cursor back and nothing else changes. Any other
/// listener polls as it would have, and the next publish reaches it.
pub proof fn law_break_ends_one_listener(
    other: ListenerState,
    channel: SlotState<PumpMessage>,
    next: PumpMessage,
)
    requires
        channel.subscribers >= 2,
    ensures
        ({
            let after = ListenerState::released(channel, Some(EventLoopHandle::Break));
            &&& after.value == channel.value
            &&& after.version == channel.version
            &&& after.subscribers == channel.subscribers - 1
            &&& other.poll(after) == other.poll(channel)
            &&& after.accepts()
            &&& after.publish(next).value == next
            &&& other.waiting(channel) ==> !other.waiting(after.publish(next))
        }),
{
}

/// From the native loop to the callback: when a running pump's poll ends
/// with a close request for a window, the tick publishes it, every waiting
/// listener of that window is told to call its callback with it, and every
/// waiting listener of another window passes over it.
pub proof fn law_close_request_reaches_its_window(
    listener: ListenerState,
    channel: SlotState<PumpMessage>,
    events: Seq<NativeEvent>,
    window: WindowHandle,
)
    requires
        listener.waiting(channel),
        channel.accepts(),
        events.len() > 0,
        events.last() == NativeEvent::CloseRequested(window),
    ensures
        ({
            let polled = listener.poll(tick(true, channel, events).channel);
            if listener.window == window {
                polled.outcome == (ListenerPoll::Dispatch {
                    redraw: window,
                    control: EventLoopHandle::Break,
                    message: EventLoopMessage::CloseRequested,
                })
            } else {
                polled.outcome == ListenerPoll::Discarded
            }
        }),
{
}

} // verus!
