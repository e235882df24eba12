use vstd::prelude::*;

verus! {

/// Connection phase of an event source.
#[derive(Clone, Copy, Debug, PartialEq, Eq, Structural)]
pub enum ReadyState {
    /// The transport is establishing (or re-establishing) the stream.
    Connecting,
    /// The stream is established and events may arrive.
    Open,
    /// The stream has ended for good.
    Closed,
}

/// One event as handed to a listener: the channel it arrived on and its raw,
/// still undecoded payload.
#[derive(Clone, Debug, PartialEq, Eq)]
pub struct Event {
    pub event_type: String,
    pub data: String,
}

/// Mathematical content of an [`Event`].
pub struct EventView {
    pub event_type: Seq<char>,
    pub data: Seq<char>,
}

impl View for Event {
    type V = EventView;

    open spec fn view(&self) -> EventView {
        EventView { event_type: self.event_type@, data: self.data@ }
    }
}

impl Event {
    /// Builds an event from its channel name and payload.
    pub fn new(event_type: &str, data: &str) -> (event: Event)
        ensures
            event@.event_type == event_type@,
            event@.data == data@,
    {
        Event { event_type: event_type.to_owned(), data: data.to_owned() }
    }
}

/// What a transport reports about its stream.
#[derive(Clone, Debug, PartialEq, Eq)]
pub enum TransportEvent {
    /// The stream has been established.
    Opened,
    /// An event arrived on the stream.
    Message(Event),
    /// The transport met an error; the text describes it.
    Error(String),
    /// The stream has ended and the transport will not reconnect.
    Closed,
}

/// Mathematical content of a [`TransportEvent`].
pub enum TransportEventView {
    Opened,
    Message(EventView),
    Error(Seq<char>),
    Closed,
}

impl View for TransportEvent {
    type V = TransportEventView;

    open spec fn view(&self) -> TransportEventView {
        match self {
            TransportEvent::Opened => TransportEventView::Opened,
            TransportEvent::Message(event) => TransportEventView::Message(event@),
            TransportEvent::Error(text) => TransportEventView::Error(text@),
            TransportEvent::Closed => TransportEventView::Closed,
        }
    }
}

} // verus!
