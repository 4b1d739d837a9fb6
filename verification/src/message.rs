//! The values that travel through the bridge.

use vstd::prelude::*;
use vstd::string::*;

verus! {

/// Identity of a native window. Two handles name the same window exactly
/// when their numbers are equal.
#[derive(Clone, Copy, Debug, PartialEq, Eq, Structural)]
pub struct WindowHandle(pub u64);

/// The value a callback hands back to end its own listening loop.
#[derive(Clone, Copy, Debug, PartialEq, Eq, Structural)]
pub enum EventLoopHandle {
    Break,
}

/// What a listening loop does after its callback has returned.
#[derive(Clone, Copy, Debug, PartialEq, Eq, Structural)]
pub enum ControlSignal {
    Continue,
    Break,
}

/// The tag of an [`EventLoopMessage`], without its payload.
#[derive(Clone, Copy, Debug, PartialEq, Eq, Structural)]
pub enum EventKind {
    CloseRequested,
    MouseButton,
    KeyCode,
    Nothing,
}

/// A recognised event. `Nothing` is the value a channel starts with; its
/// textual form is `None`.
#[derive(Debug)]
pub enum EventLoopMessage {
    CloseRequested,
    MouseButton(String),
    KeyCode(String),
    Nothing,
}

impl ControlSignal {
    /// The signal carried by what a callback returned: `Break` when it
    /// returned a control handle, `Continue` for anything else.
    pub open spec fn of(returned: Option<EventLoopHandle>) -> ControlSignal {
        match returned {
            Some(EventLoopHandle::Break) => ControlSignal::Break,
            None => ControlSignal::Continue,
        }
    }

    /// Reads the signal out of what a callback returned.
    pub fn from_return(returned: Option<EventLoopHandle>) -> (signal: ControlSignal)
        ensures
            signal == ControlSignal::of(returned),
    {
        match returned {
            Some(EventLoopHandle::Break) => ControlSignal::Break,
            None => ControlSignal::Continue,
        }
    }
}

impl EventLoopMessage {
    /// The variant of a message.
    pub open spec fn spec_kind(&self) -> EventKind {
        match self {
            EventLoopMessage::CloseRequested => EventKind::CloseRequested,
            EventLoopMessage::MouseButton(_) => EventKind::MouseButton,
            EventLoopMessage::KeyCode(_) => EventKind::KeyCode,
            EventLoopMessage::Nothing => EventKind::Nothing,
        }
    }

    /// The textual form of a message.
    pub open spec fn text(&self) -> Seq<char> {
        match self {
            EventLoopMessage::CloseRequested => "CloseRequested"@,
            EventLoopMessage::MouseButton(button) => "MouseButton("@ + button@ + ")"@,
            EventLoopMessage::KeyCode(keycode) => "KeyCode("@ + keycode@ + ")"@,
            EventLoopMessage::Nothing => "None"@,
        }
    }

    /// The entries of the read-only table of event kinds that scripts
    /// compare messages against: each kind under its name, with an empty
    /// payload.
    pub fn create_lua_table() -> (entries: Vec<(String, EventLoopMessage)>)
        ensures
            entries@.len() == 4,
            entries@[0].0@ == "CloseRequested"@,
            entries@[0].1 == EventLoopMessage::CloseRequested,
            entries@[1].0@ == "MouseButton"@,
            entries@[1].1 matches EventLoopMessage::MouseButton(button) && button@ == Seq::<char>::empty(),
            entries@[2].0@ == "KeyCode"@,
            entries@[2].1 matches EventLoopMessage::KeyCode(keycode) && keycode@ == Seq::<char>::empty(),
            entries@[3].0@ == "None"@,
            entries@[3].1 == EventLoopMessage::Nothing,
    {
        let mut entries: Vec<(String, EventLoopMessage)> = Vec::new();
        entries.push((String::from_str("CloseRequested"), EventLoopMessage::CloseRequested));
        entries.push((String::from_str("MouseButton"), EventLoopMessage::MouseButton(String::new())));
        entries.push((String::from_str("KeyCode"), EventLoopMessage::KeyCode(String::new())));
        entries.push((String::from_str("None"), EventLoopMessage::Nothing));
        entries
    }

    #[verifier::when_used_as_spec(spec_kind)]
    pub fn kind(&self) -> (kind: EventKind)
        ensures
            kind == self.spec_kind(),
    {
        match self {
            EventLoopMessage::CloseRequested => EventKind::CloseRequested,
            EventLoopMessage::MouseButton(_) => EventKind::MouseButton,
            EventLoopMessage::KeyCode(_) => EventKind::KeyCode,
            EventLoopMessage::Nothing => EventKind::Nothing,
        }
    }

    /// Equality of messages: the payload is not compared.
    pub fn same_variant(&self, other: &EventLoopMessage) -> (same: bool)
        ensures
            same == (self.kind() == other.kind()),
    {
        self.kind() == other.kind()
    }

    /// The button of a mouse button message, and nothing for any other.
    pub fn get_mousebutton(&self) -> (button: Option<String>)
        ensures
            button == (match *self {
                EventLoopMessage::MouseButton(b) => Some(b),
                _ => None,
            }),
    {
        match self {
            EventLoopMessage::MouseButton(b) => Some(b.clone()),
            _ => None,
        }
    }

    /// The key of a key code message, and nothing for any other.
    pub fn get_keycode(&self) -> (keycode: Option<String>)
        ensures
            keycode == (match *self {
                EventLoopMessage::KeyCode(k) => Some(k),
                _ => None,
            }),
    {
        match self {
            EventLoopMessage::KeyCode(k) => Some(k.clone()),
            _ => None,
        }
    }

    /// The message as text: the variant's name, with the payload in
    /// brackets where it has one.
    pub fn to_text(&self) -> (text: String)
        ensures
            text@ == self.text(),
    {
        match self {
            EventLoopMessage::CloseRequested => String::from_str("CloseRequested"),
            EventLoopMessage::MouseButton(button) => {
                let mut text = String::from_str("MouseButton(");
                text.append(button.as_str());
                text.append(")");
                text
            },
            EventLoopMessage::KeyCode(keycode) => {
                let mut text = String::from_str("KeyCode(");
                text.append(keycode.as_str());
                text.append(")");
                text
            },
            EventLoopMessage::Nothing => String::from_str("None"),
        }
    }
}

impl Clone for EventLoopMessage {
    fn clone(&self) -> (copy: Self)
        ensures
            copy == *self,
    {
        match self {
            EventLoopMessage::CloseRequested => EventLoopMessage::CloseRequested,
            EventLoopMessage::MouseButton(button) => EventLoopMessage::MouseButton(button.clone()),
            EventLoopMessage::KeyCode(keycode) => EventLoopMessage::KeyCode(keycode.clone()),
            EventLoopMessage::Nothing => EventLoopMessage::Nothing,
        }
    }
}

/// What the native event pump publishes: an event, and the window it is
/// meant for. Without a window it is a broadcast to every listener.
#[derive(Debug)]
pub struct PumpMessage {
    pub window: Option<WindowHandle>,
    pub event: EventLoopMessage,
}

impl PumpMessage {
    /// The message a broadcast channel holds before anything is published.
    pub open spec fn initial() -> PumpMessage {
        PumpMessage { window: None, event: EventLoopMessage::Nothing }
    }

    /// Whether a listener bound to `window` is to hear this message.
    pub open spec fn concerns(&self, window: WindowHandle) -> bool {
        match self.window {
            Some(target) => target == window,
            None => true,
        }
    }

    pub fn new(window: Option<WindowHandle>, event: EventLoopMessage) -> (message: PumpMessage)
        ensures
            message == (PumpMessage { window, event }),
    {
        PumpMessage { window, event }
    }

    pub fn is_for(&self, window: WindowHandle) -> (concerned: bool)
        ensures
            concerned == self.concerns(window),
    {
        match self.window {
            Some(target) => target == window,
            None => true,
        }
    }
}

impl Clone for PumpMessage {
    fn clone(&self) -> (copy: Self)
        ensures
            copy == *self,
    {
        PumpMessage { window: self.window, event: self.event.clone() }
    }
}

} // verus!
