//! The bridge to one webview: its message channel, the handlers that
//! listen on it, and one-shot script evaluation.

use vstd::prelude::*;
use vstd::string::*;
use crate::channel::{ChannelSlot, Cursor, SlotState};

verus! {

/// A webview together with the channel that its message hook feeds. The
/// channel lives exactly as long as the webview.
pub struct LuaWebView<W> {
    pub webview: W,
    pub ipc_sender: ChannelSlot<String>,
}

/// What a handler registration is. While it listens it has its own cursor
/// and its own shutdown flag; once it has exited nothing of it is left.
pub enum HandlerState {
    Listening { seen: nat, stopping: bool },
    Exited,
}

/// What a handler's task does after it has been resumed.
#[derive(Debug)]
pub enum IpcStep {
    /// Neither a payload nor a stop request: stay suspended.
    Pending,
    /// Decode this payload and schedule the callback with it. The task
    /// does not wait for the callback.
    Deliver(String),
    /// Stop was requested. The task ends without another callback.
    Exit,
}

/// A step on the model: handler and channel afterwards, and the answer.
pub struct Stepped {
    pub handler: HandlerState,
    pub channel: SlotState<String>,
    pub outcome: IpcStep,
}

impl HandlerState {
    /// A stop request. It raises the flag of a listening handler and does
    /// nothing to one that is stopping or gone.
    pub open spec fn stop(self) -> HandlerState {
        match self {
            HandlerState::Listening { seen, stopping } => HandlerState::Listening {
                seen,
                stopping: true,
            },
            HandlerState::Exited => HandlerState::Exited,
        }
    }

    /// Whether stop has been requested, or the handler is gone already.
    pub open spec fn stopped(self) -> bool {
        match self {
            HandlerState::Listening { seen, stopping } => stopping,
            HandlerState::Exited => true,
        }
    }

    /// One step. A stop request goes before a payload that is waiting.
    pub open spec fn step(self, channel: SlotState<String>) -> Stepped {
        match self {
            HandlerState::Exited => Stepped { handler: self, channel, outcome: IpcStep::Exit },
            HandlerState::Listening { seen, stopping } => {
                if stopping {
                    Stepped {
                        handler: HandlerState::Exited,
                        channel: channel.unsubscribe(),
                        outcome: IpcStep::Exit,
                    }
                } else if channel.changed(seen) {
                    Stepped {
                        handler: HandlerState::Listening { seen: channel.version, stopping },
                        channel,
                        outcome: IpcStep::Deliver(channel.value),
                    }
                } else {
                    Stepped { handler: self, channel, outcome: IpcStep::Pending }
                }
            },
        }
    }
}

/// A one-shot signal. Raising it again changes nothing.
#[derive(Debug)]
pub struct ShutdownFlag {
    raised: bool,
}

impl ShutdownFlag {
    pub closed spec fn is_raised(&self) -> bool {
        self.raised
    }

    pub fn new() -> (flag: ShutdownFlag)
        ensures
            !flag.is_raised(),
    {
        ShutdownFlag { raised: false }
    }

    pub fn raise(&mut self)
        ensures
            final(self).is_raised(),
    {
        self.raised = true;
    }

    #[verifier::when_used_as_spec(is_raised)]
    pub fn raised(&self) -> (raised: bool)
        ensures
            raised == self.is_raised(),
    {
        self.raised
    }
}

/// One registration of a handler on a webview's channel. It owns one
/// cursor and one shutdown flag, and shares neither.
#[derive(Debug)]
pub struct IpcHandler {
    cursor: Option<Cursor>,
    shutdown: ShutdownFlag,
}

impl View for IpcHandler {
    type V = HandlerState;

    closed spec fn view(&self) -> HandlerState {
        match self.cursor {
            Some(cursor) => HandlerState::Listening {
                seen: cursor@,
                stopping: self.shutdown.is_raised(),
            },
            None => HandlerState::Exited,
        }
    }
}

impl IpcHandler {
    /// Asks the handler to stop. Asking again, or asking a handler that
    /// has exited, does nothing.
    pub fn stop(&mut self)
        ensures
            final(self)@ == old(self)@.stop(),
    {
        if self.cursor.is_some() {
            self.shutdown.raise();
        }
    }

    /// One step, made each time the handler's task is resumed.
    pub fn step(&mut self, channel: &mut ChannelSlot<String>) -> (outcome: IpcStep)
        ensures
            final(self)@ == old(self)@.step(old(channel)@).handler,
            final(channel)@ == old(self)@.step(old(channel)@).channel,
            outcome == old(self)@.step(old(channel)@).outcome,
    {
        match self.cursor.take() {
            None => IpcStep::Exit,
            Some(mut cursor) => {
                if self.shutdown.raised() {
                    channel.unsubscribe(cursor);
                    IpcStep::Exit
                } else if channel.poll_change(&mut cursor) {
                    self.cursor = Some(cursor);
                    IpcStep::Deliver(channel.read_current().clone())
                } else {
                    self.cursor = Some(cursor);
                    IpcStep::Pending
                }
            },
        }
    }
}

impl<W> LuaWebView<W> {
    /// The bridge of a new webview: nothing posted, no handler.
    pub fn new(webview: W) -> (view: LuaWebView<W>)
        ensures
            view.webview == webview,
            view.ipc_sender@.value@ == Seq::<char>::empty(),
            view.ipc_sender@.version == 0,
            view.ipc_sender@.subscribers == 0,
    {
        LuaWebView { webview, ipc_sender: ChannelSlot::new(String::new()) }
    }

    /// Registers a handler. It hears of what is posted from now on.
    pub fn ipc_handler(&mut self) -> (handler: IpcHandler)
        requires
            old(self).ipc_sender@.subscribers < usize::MAX,
        ensures
            final(self).webview == old(self).webview,
            final(self).ipc_sender@ == old(self).ipc_sender@.subscribe(),
            handler@ == (HandlerState::Listening {
                seen: old(self).ipc_sender@.version,
                stopping: false,
            }),
    {
        let cursor = self.ipc_sender.subscribe();
        IpcHandler { cursor: Some(cursor), shutdown: ShutdownFlag::new() }
    }
}

/// What can happen to a handler and its channel, one thing at a time.
pub enum IpcEvent {
    /// The webview's message hook posts a payload.
    Post(String),
    /// Somebody calls stop on the handler.
    Stop,
    /// The handler's task is resumed and takes a step.
    Resume,
}

/// A handler and its channel after some events, with the payloads that
/// were handed to the callback, in order.
pub struct IpcRun {
    pub handler: HandlerState,
    pub channel: SlotState<String>,
    pub delivered: Seq<String>,
}

impl IpcRun {
    /// The run after one more event.
    pub open spec fn after(self, event: IpcEvent) -> IpcRun {
        match event {
            IpcEvent::Post(payload) => IpcRun {
                handler: self.handler,
                channel: self.channel.publish(payload),
                delivered: self.delivered,
            },
            IpcEvent::Stop => IpcRun {
                handler: self.handler.stop(),
                channel: self.channel,
                delivered: self.delivered,
            },
            IpcEvent::Resume => {
                let stepped = self.handler.step(self.channel);
                IpcRun {
                    handler: stepped.handler,
                    channel: stepped.channel,
                    delivered: match stepped.outcome {
                        IpcStep::Deliver(payload) => self.delivered.push(payload),
                        _ => self.delivered,
                    },
                }
            },
        }
    }
}

/// The events in order, starting from `handler` and `channel` with
/// nothing delivered.
pub open spec fn run(handler: HandlerState, channel: SlotState<String>, events: Seq<IpcEvent>) -> IpcRun
    decreases events.len(),
{
    if events.len() == 0 {
        IpcRun { handler, channel, delivered: Seq::empty() }
    } else {
        run(handler, channel, events.drop_last()).after(events.last())
    }
}

/// Stopping is idempotent: a second stop, or a stop after the handler has
/// exited, changes nothing.
pub proof fn law_stop_is_idempotent(handler: HandlerState)
    ensures
        handler.stop().stop() == handler.stop(),
        handler.stopped() ==> handler.stop() == handler,
        HandlerState::Exited.stop() == HandlerState::Exited,
{
}

/// Once stop has been requested the callback is never called again,
/// whatever is posted and however often the handler is resumed.
pub proof fn law_no_delivery_after_stop(
    handler: HandlerState,
    channel: SlotState<String>,
    events: Seq<IpcEvent>,
)
    requires
        handler.stopped(),
    ensures
        run(handler, channel, events).handler.stopped(),
        run(handler, channel, events).delivered == Seq::<String>::empty(),
    decreases events.len(),
{
    if events.len() > 0 {
        law_no_delivery_after_stop(handler, channel, events.drop_last());
    }
}

/// Whether nothing is posted among `events`.
pub open spec fn nothing_posted(events: Seq<IpcEvent>) -> bool {
    forall|i: int| 0 <= i < events.len() ==> !(#[trigger] events[i] is Post)
}

proof fn lemma_one_payload_one_delivery(
    handler: HandlerState,
    channel: SlotState<String>,
    events: Seq<IpcEvent>,
)
    requires
        nothing_posted(events),
    ensures
        ({
            let end = run(handler, channel, events);
            &&& end.channel.value == channel.value
            &&& end.channel.version == channel.version
            &&& end.delivered.len() <= 1
            &&& end.delivered.len() == 1 ==> end.delivered[0] == channel.value && end.handler.step(
                end.channel,
            ).outcome !is Deliver
        }),
    decreases events.len(),
{
    if events.len() > 0 {
        let earlier = events.drop_last();
        assert(nothing_posted(earlier)) by {
            assert forall|i: int| 0 <= i < earlier.len() implies !(#[trigger] earlier[i] is Post) by {
                assert(earlier[i] == events[i]);
            }
        }
        lemma_one_payload_one_delivery(handler, channel, earlier);
    }
}

/// A stop that races with one payload: with nothing else posted, however
/// stop requests and resumptions fall, the callback is called for that
/// payload once or not at all, never twice.
pub proof fn law_stop_race_delivers_at_most_once(
    handler: HandlerState,
    channel: SlotState<String>,
    events: Seq<IpcEvent>,
)
    requires
        nothing_posted(events),
    ensures
        run(handler, channel, events).delivered.len() <= 1,
        run(handler, channel, events).delivered.len() == 1 ==> run(handler, channel, events).delivered[0]
            == channel.value,
{
    lemma_one_payload_one_delivery(handler, channel, events);
}

/// Handlers on one webview are independent: whatever one of them does,
/// stopping and exiting included, another one takes the step it would
/// have taken, and a payload posted afterwards still reaches it.
pub proof fn law_handlers_are_independent(
    one: HandlerState,
    other: HandlerState,
    channel: SlotState<String>,
    events: Seq<IpcEvent>,
    payload: String,
)
    requires
        nothing_posted(events),
        other matches HandlerState::Listening { seen, stopping } && !stopping && !channel.changed(seen),
        channel.subscribers >= 2,
    ensures
        ({
            let end = run(one, channel, events);
            &&& other.step(end.channel).handler == other.step(channel).handler
            &&& other.step(end.channel).outcome == other.step(channel).outcome
            &&& other.step(end.channel.publish(payload)).outcome == IpcStep::Deliver(payload)
        }),
{
    lemma_one_handler_leaves_the_rest(one, channel, events);
}

proof fn lemma_one_handler_leaves_the_rest(
    one: HandlerState,
    channel: SlotState<String>,
    events: Seq<IpcEvent>,
)
    requires
        nothing_posted(events),
    ensures
        ({
            let end = run(one, channel, events);
            &&& end.channel.value == channel.value
            &&& end.channel.version == channel.version
            &&& end.channel.subscribers == channel.subscribers || (end.handler is Exited
                && end.channel.subscribers + 1 == channel.subscribers)
        }),
    decreases events.len(),
{
    if events.len() > 0 {
        let earlier = events.drop_last();
        assert(nothing_posted(earlier)) by {
            assert forall|i: int| 0 <= i < earlier.len() implies !(#[trigger] earlier[i] is Post) by {
                assert(earlier[i] == events[i]);
            }
        }
        lemma_one_handler_leaves_the_rest(one, channel, earlier);
    }
}

/// What one script evaluation is: its private channel and the version of
/// it that the caller last observed.
pub struct EvaluationState {
    pub slot: SlotState<String>,
    pub seen: nat,
}

/// The caller's poll on the model: the evaluation afterwards, and the
/// result text if one has arrived.
pub struct EvaluationPoll {
    pub evaluation: EvaluationState,
    pub result: Option<String>,
}

impl EvaluationState {
    /// Whether a result has arrived that the caller has not taken yet.
    pub open spec fn arrived(self) -> bool {
        self.slot.changed(self.seen)
    }

    /// The webview's one-shot callback hands over the result text.
    pub open spec fn resolve(self, text: String) -> EvaluationState {
        EvaluationState { slot: self.slot.publish(text), seen: self.seen }
    }

    /// The caller looks at the slot: it takes the text if one has arrived,
    /// and is up to date afterwards either way.
    pub open spec fn poll(self) -> EvaluationPoll {
        EvaluationPoll {
            evaluation: EvaluationState { slot: self.slot, seen: self.slot.version },
            result: if self.arrived() {
                Some(self.slot.value)
            } else {
                None
            },
        }
    }
}

/// One call of `evaluate`: a fresh channel that belongs to this call
/// alone, with the caller as its only subscriber.
pub struct Evaluation {
    slot: ChannelSlot<String>,
    cursor: Cursor,
}

impl View for Evaluation {
    type V = EvaluationState;

    closed spec fn view(&self) -> EvaluationState {
        EvaluationState { slot: self.slot@, seen: self.cursor@ }
    }
}

impl Evaluation {
    /// Starts an evaluation. Nothing has arrived; the slot holds `null`
    /// until the webview answers.
    pub fn begin() -> (evaluation: Evaluation)
        ensures
            evaluation@.slot.value@ == "null"@,
            evaluation@.slot.version == 0,
            evaluation@.slot.subscribers == 1,
            evaluation@.seen == 0,
            !evaluation@.arrived(),
    {
        let mut slot = ChannelSlot::new(String::from_str("null"));
        let cursor = slot.subscribe();
        Evaluation { slot, cursor }
    }

    /// The webview's callback: publishes the raw result text.
    pub fn resolve(&mut self, text: String)
        ensures
            final(self)@ == old(self)@.resolve(text),
    {
        self.slot.publish(text);
    }

    /// The caller's step each time it is resumed: the result text once it
    /// has arrived, and `None` while the caller has to stay suspended.
    pub fn poll(&mut self) -> (result: Option<String>)
        ensures
            final(self)@ == old(self)@.poll().evaluation,
            result == old(self)@.poll().result,
    {
        if self.slot.poll_change(&mut self.cursor) {
            Some(self.slot.read_current().clone())
        } else {
            None
        }
    }
}

/// An evaluation hands its result over once: the first poll after the
/// callback ran returns the text, and the poll after that returns nothing.
pub proof fn law_evaluation_resolves_once(evaluation: EvaluationState, text: String)
    requires
        !evaluation.arrived(),
        evaluation.slot.accepts(),
    ensures
        evaluation.poll().result is None,
        evaluation.resolve(text).poll().result == Some(text),
        evaluation.resolve(text).poll().evaluation.poll().result is None,
{
}

} // verus!
