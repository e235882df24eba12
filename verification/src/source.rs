use crate::error::{result_view, verdict_view, EventSourceError, EventSourceErrorView};
use crate::event::{Event, EventView, ReadyState, TransportEvent, TransportEventView};
use vstd::prelude::*;
use vstd::string::StringExecFns;

verus! {

/// One registered listener: its handle, the channel it listens on and the
/// callback stored for it.
struct Listener<C> {
    id: usize,
    event_type: String,
    callback: C,
}

/// Mathematical content of a [`Listener`].
pub struct ListenerView<C> {
    pub id: usize,
    pub event_type: Seq<char>,
    pub callback: C,
}

impl<C> View for Listener<C> {
    type V = ListenerView<C>;

    closed spec fn view(&self) -> ListenerView<C> {
        ListenerView { id: self.id, event_type: self.event_type@, callback: self.callback }
    }
}

/// Mathematical content of an [`EventSource`]: the mirrored connection
/// phase, the next id to hand out and the listeners in registration order.
pub struct EventSourceView<C> {
    pub url: Seq<char>,
    pub state: ReadyState,
    pub next_id: usize,
    pub listeners: Seq<ListenerView<C>>,
}

/// The text of the error returned when every listener id has been handed out.
pub open spec fn ids_exhausted() -> Seq<char> {
    "listener ids exhausted"@
}

impl<C> EventSourceView<C> {
    /// Ids grow along the table and all lie below the next id to hand out.
    pub open spec fn wf(self) -> bool {
        &&& forall|i: int| 0 <= i < self.listeners.len() ==> (#[trigger] self.listeners[i]).id < self.next_id
        &&& forall|i: int, j: int|
            0 <= i < j < self.listeners.len() ==> (#[trigger] self.listeners[i]).id < (
            #[trigger] self.listeners[j]).id
    }

    /// A freshly opened source.
    pub open spec fn initial(url: Seq<char>) -> Self {
        EventSourceView { url, state: ReadyState::Connecting, next_id: 0, listeners: Seq::empty() }
    }

    /// Whether a listener is registered under `id`.
    pub open spec fn registered(self, id: usize) -> bool {
        exists|i: int| 0 <= i < self.listeners.len() && (#[trigger] self.listeners[i]).id == id
    }

    /// Whether `i` is the first place in the table that holds `id`.
    pub open spec fn first_at(self, id: usize, i: int) -> bool {
        &&& 0 <= i < self.listeners.len()
        &&& self.listeners[i].id == id
        &&& forall|k: int| 0 <= k < i ==> (#[trigger] self.listeners[k]).id != id
    }

    /// Where in the table the listener registered under `id` stands. In a
    /// well-formed table no id stands twice.
    pub open spec fn position(self, id: usize) -> int {
        choose|i: int| self.first_at(id, i)
    }

    /// The ids of all registered listeners, in registration order.
    pub open spec fn ids(self) -> Seq<usize> {
        self.listeners.map_values(|l: ListenerView<C>| l.id)
    }

    /// Picks the id of a listener that is registered on `event_type`.
    pub open spec fn id_on(event_type: Seq<char>) -> spec_fn(ListenerView<C>) -> Option<usize> {
        |l: ListenerView<C>|
            if l.event_type == event_type {
                Some(l.id)
            } else {
                None
            }
    }

    /// The ids of the listeners registered on `event_type`, in registration
    /// order.
    pub open spec fn on_channel(self, event_type: Seq<char>) -> Seq<usize> {
        self.listeners.filter_map(Self::id_on(event_type))
    }

    /// What `subscribe` returns in this state.
    pub open spec fn subscribe_result(self, attached: Result<(), Seq<char>>) -> Result<
        usize,
        EventSourceErrorView,
    > {
        match attached {
            Err(reason) => Err(EventSourceErrorView::Registration(reason)),
            Ok(_) => if self.next_id == usize::MAX {
                Err(EventSourceErrorView::Registration(ids_exhausted()))
            } else {
                Ok(self.next_id)
            },
        }
    }

    /// The state `subscribe` leaves: on success the listener stands last in
    /// the table under the id handed out, and that id is used up.
    pub open spec fn after_subscribe(
        self,
        event_type: Seq<char>,
        callback: C,
        attached: Result<(), Seq<char>>,
    ) -> Self {
        if self.subscribe_result(attached) is Ok {
            EventSourceView {
                next_id: (self.next_id + 1) as usize,
                listeners: self.listeners.push(
                    ListenerView { id: self.next_id, event_type, callback },
                ),
                ..self
            }
        } else {
            self
        }
    }

    /// What `unsubscribe` returns in this state.
    pub open spec fn unsubscribe_result(self, id: usize) -> Result<(), EventSourceErrorView> {
        if self.registered(id) {
            Ok(())
        } else {
            Err(EventSourceErrorView::NotFound)
        }
    }

    /// The state `unsubscribe` leaves: the listener under `id`, if there is
    /// one, is gone and nothing else has changed.
    pub open spec fn after_unsubscribe(self, id: usize) -> Self {
        if self.registered(id) {
            EventSourceView { listeners: self.listeners.remove(self.position(id)), ..self }
        } else {
            self
        }
    }

    /// The state either kind of close leaves.
    pub open spec fn after_close(self) -> Self {
        EventSourceView { state: ReadyState::Closed, ..self }
    }

    /// The listeners owed the terminal signal when the stream ends now: all
    /// of them, unless the source is closed already.
    pub open spec fn terminal_recipients(self) -> Seq<usize> {
        if self.state is Closed {
            Seq::empty()
        } else {
            self.ids()
        }
    }

    /// The listeners owed an event that arrives on `event_type` now: those
    /// registered on that channel, unless the source is closed.
    pub open spec fn recipients(self, event_type: Seq<char>) -> Seq<usize> {
        if self.state is Closed {
            Seq::empty()
        } else {
            self.on_channel(event_type)
        }
    }

    /// The state in which a transport event leaves the source. Only the
    /// connection phase moves: to open when the stream is established, to
    /// closed when it has ended, and never out of closed.
    pub open spec fn after_event(self, event: TransportEventView) -> Self {
        match event {
            TransportEventView::Opened => if self.state is Closed {
                self
            } else {
                EventSourceView { state: ReadyState::Open, ..self }
            },
            TransportEventView::Closed => self.after_close(),
            _ => self,
        }
    }

    /// What is owed to the listeners when a transport event arrives in this
    /// state. An error travels as an event on the channel `error`.
    pub open spec fn delivery(self, event: TransportEventView) -> DeliveryView {
        match event {
            TransportEventView::Opened => DeliveryView::Nothing,
            TransportEventView::Message(e) => DeliveryView::Message {
                event: e,
                recipients: self.recipients(e.event_type),
            },
            TransportEventView::Error(text) => DeliveryView::Message {
                event: EventView { event_type: error_channel(), data: text },
                recipients: self.recipients(error_channel()),
            },
            TransportEventView::Closed => DeliveryView::Terminal {
                recipients: self.terminal_recipients(),
            },
        }
    }
}

/// The channel on which transport errors travel.
pub open spec fn error_channel() -> Seq<char> {
    "error"@
}

/// What an event source owes its listeners after a transport event. The
/// end of the stream is a case of its own, not an event on some channel.
#[derive(Debug, PartialEq, Eq)]
pub enum Delivery {
    /// Nothing is owed to anyone.
    Nothing,
    /// `event` is owed once to each listener named, in this order.
    Message { event: Event, recipients: Vec<usize> },
    /// The terminal signal is owed once to each listener named, in this
    /// order.
    Terminal { recipients: Vec<usize> },
}

/// Mathematical content of a [`Delivery`].
pub enum DeliveryView {
    Nothing,
    Message { event: EventView, recipients: Seq<usize> },
    Terminal { recipients: Seq<usize> },
}

impl View for Delivery {
    type V = DeliveryView;

    open spec fn view(&self) -> DeliveryView {
        match self {
            Delivery::Nothing => DeliveryView::Nothing,
            Delivery::Message { event, recipients } => DeliveryView::Message {
                event: event@,
                recipients: recipients@,
            },
            Delivery::Terminal { recipients } => DeliveryView::Terminal { recipients: recipients@ },
        }
    }
}

/// The stateful core of an event source: it mirrors the transport's
/// connection phase and keeps the listener table.
pub struct EventSource<C> {
    url: String,
    state: ReadyState,
    next_id: usize,
    listeners: Vec<Listener<C>>,
}

impl<C> View for EventSource<C> {
    type V = EventSourceView<C>;

    closed spec fn view(&self) -> EventSourceView<C> {
        EventSourceView {
            url: self.url@,
            state: self.state,
            next_id: self.next_id,
            listeners: self.listeners@.map_values(|l: Listener<C>| l@),
        }
    }
}

impl<C> EventSource<C> {
    /// Creates the core for a stream at `url`. `opened` is the transport's
    /// answer to the request to open it: a refusal is passed on as a
    /// connection error, otherwise the source starts out connecting, with no
    /// listener.
    pub fn new(url: &str, opened: Result<(), String>) -> (result: Result<Self, EventSourceError>)
        ensures
            match (opened, result) {
                (Ok(_), Ok(source)) => source@ == EventSourceView::<C>::initial(url@) && source@.wf(),
                (Err(reason), Err(e)) => e@ == EventSourceErrorView::Connection(reason@),
                _ => false,
            },
    {
        match opened {
            Ok(_) => {
                let source = EventSource {
                    url: url.to_owned(),
                    state: ReadyState::Connecting,
                    next_id: 0,
                    listeners: Vec::new(),
                };
                assert(source@.listeners =~= Seq::empty());
                Ok(source)
            },
            Err(reason) => Err(EventSourceError::Connection(reason)),
        }
    }

    /// The connection phase.
    pub fn state(&self) -> (state: ReadyState)
        ensures
            state == self@.state,
    {
        self.state
    }

    /// The address of the stream.
    pub fn url(&self) -> (url: &str)
        ensures
            url@ == self@.url,
    {
        self.url.as_str()
    }

    /// Registers `callback` for the events that arrive on `event_type` from
    /// now on and returns its handle, an id that this source has never handed
    /// out before. `attached` is the transport's answer to the request to
    /// listen on that channel: a refusal is passed on as a registration
    /// error and nothing is registered. Legal in every connection phase.
    pub fn subscribe(&mut self, event_type: &str, callback: C, attached: Result<(), String>) -> (result:
        Result<usize, EventSourceError>)
        ensures
            result_view(result) == old(self)@.subscribe_result(verdict_view(attached)),
            final(self)@ == old(self)@.after_subscribe(
                event_type@,
                callback,
                verdict_view(attached),
            ),
            old(self)@.wf() ==> final(self)@.wf(),
    {
        match attached {
            Err(reason) => Err(EventSourceError::Registration(reason)),
            Ok(_) => {
                if self.next_id == usize::MAX {
                    Err(EventSourceError::Registration(String::from_str("listener ids exhausted")))
                } else {
                    let id = self.next_id;
                    let listener = Listener { id, event_type: event_type.to_owned(), callback };
                    self.next_id = id + 1;
                    self.listeners.push(listener);
                    assert(self@.listeners =~= old(self)@.listeners.push(listener@));
                    Ok(id)
                }
            },
        }
    }

    /// Where the listener registered under `id` stands in the table.
    fn find(&self, id: usize) -> (found: Option<usize>)
        ensures
            match found {
                Some(i) => self@.registered(id) && i == self@.position(id) && i < self.listeners@.len(),
                None => !self@.registered(id),
            },
    {
        let mut i: usize = 0;
        while i < self.listeners.len()
            invariant
                i <= self.listeners@.len(),
                forall|k: int| 0 <= k < i ==> (#[trigger] self@.listeners[k]).id != id,
            decreases self.listeners@.len() - i,
        {
            if self.listeners[i].id == id {
                assert(self@.first_at(id, i as int));
                return Some(i);
            }
            i += 1;
        }
        None
    }

    /// Removes the listener registered under `id`, and only that one. An id
    /// under which nothing is registered (never handed out, or removed
    /// before) is reported as not found. Legal in every connection phase.
    pub fn unsubscribe(&mut self, id: usize) -> (result: Result<(), EventSourceError>)
        ensures
            result_view(result) == old(self)@.unsubscribe_result(id),
            final(self)@ == old(self)@.after_unsubscribe(id),
            old(self)@.wf() ==> final(self)@.wf(),
    {
        match self.find(id) {
            Some(i) => {
                self.listeners.remove(i);
                assert(self@.listeners =~= old(self)@.listeners.remove(i as int));
                Ok(())
            },
            None => Err(EventSourceError::NotFound),
        }
    }

    /// The callback stored for the listener registered under `id`.
    pub fn callback(&self, id: usize) -> (callback: Option<&C>)
        ensures
            match callback {
                Some(c) => self@.registered(id) && *c == self@.listeners[self@.position(id)].callback,
                None => !self@.registered(id),
            },
    {
        match self.find(id) {
            Some(i) => Some(&self.listeners[i].callback),
            None => None,
        }
    }

    /// The ids of all listeners, in registration order.
    fn all_ids(&self) -> (ids: Vec<usize>)
        ensures
            ids@ == self@.ids(),
    {
        let mut ids: Vec<usize> = Vec::new();
        let mut i: usize = 0;
        while i < self.listeners.len()
            invariant
                i <= self.listeners@.len(),
                ids@ == self@.listeners.take(i as int).map_values(|l: ListenerView<C>| l.id),
            decreases self.listeners@.len() - i,
        {
            ids.push(self.listeners[i].id);
            i += 1;
        }
        assert(self@.listeners.take(i as int) =~= self@.listeners);
        ids
    }

    /// The ids of the listeners registered on `event_type`, in registration
    /// order.
    fn ids_on(&self, event_type: &String) -> (ids: Vec<usize>)
        ensures
            ids@ == self@.on_channel(event_type@),
    {
        let ghost pick = EventSourceView::<C>::id_on(event_type@);
        let mut ids: Vec<usize> = Vec::new();
        let mut i: usize = 0;
        while i < self.listeners.len()
            invariant
                i <= self.listeners@.len(),
                pick == EventSourceView::<C>::id_on(event_type@),
                ids@ == self@.listeners.take(i as int).filter_map(pick),
            decreases self.listeners@.len() - i,
        {
            proof {
                self@.listeners.lemma_filter_map_take_succ(pick, i as int);
            }
            if self.listeners[i].event_type == *event_type {
                ids.push(self.listeners[i].id);
            }
            i += 1;
        }
        assert(self@.listeners.take(i as int) =~= self@.listeners);
        ids
    }

    /// The listeners owed the terminal signal if the stream ends now.
    fn owed_terminal(&self) -> (ids: Vec<usize>)
        ensures
            ids@ == self@.terminal_recipients(),
    {
        match self.state {
            ReadyState::Closed => Vec::new(),
            _ => self.all_ids(),
        }
    }

    /// The listeners owed an event that arrives on `event_type` now.
    fn owed(&self, event_type: &String) -> (ids: Vec<usize>)
        ensures
            ids@ == self@.recipients(event_type@),
    {
        match self.state {
            ReadyState::Closed => Vec::new(),
            _ => self.ids_on(event_type),
        }
    }

    /// Ends the stream on this side without a word to the listeners: from now
    /// on nothing is owed to any of them. Closing a closed source changes
    /// nothing.
    pub fn close(&mut self)
        ensures
            final(self)@ == old(self)@.after_close(),
            old(self)@.wf() ==> final(self)@.wf(),
    {
        self.state = ReadyState::Closed;
    }

    /// Ends the stream on this side and returns the listeners owed the
    /// terminal signal: every listener registered at this moment, once, in
    /// registration order. On a source that is closed already nothing
    /// changes and no one is owed anything.
    pub fn close_and_notify(&mut self) -> (recipients: Vec<usize>)
        ensures
            recipients@ == old(self)@.terminal_recipients(),
            final(self)@ == old(self)@.after_close(),
            old(self)@.wf() ==> final(self)@.wf(),
    {
        let recipients = self.owed_terminal();
        self.state = ReadyState::Closed;
        recipients
    }

    /// Takes in one event of the transport: moves the connection phase and
    /// returns what is owed to which listeners. A message goes to the
    /// listeners registered on its channel, a transport error to those on
    /// the channel `error`, the end of the stream to all as the terminal
    /// signal; a closed source owes nothing to anyone.
    pub fn handle(&mut self, event: TransportEvent) -> (delivery: Delivery)
        ensures
            delivery@ == old(self)@.delivery(event@),
            final(self)@ == old(self)@.after_event(event@),
            old(self)@.wf() ==> final(self)@.wf(),
    {
        match event {
            TransportEvent::Opened => {
                match self.state {
                    ReadyState::Closed => {},
                    _ => {
                        self.state = ReadyState::Open;
                    },
                }
                Delivery::Nothing
            },
            TransportEvent::Message(event) => {
                let recipients = self.owed(&event.event_type);
                Delivery::Message { event, recipients }
            },
            TransportEvent::Error(text) => {
                let channel = String::from_str("error");
                let recipients = self.owed(&channel);
                Delivery::Message { event: Event { event_type: channel, data: text }, recipients }
            },
            TransportEvent::Closed => {
                let recipients = self.owed_terminal();
                self.state = ReadyState::Closed;
                Delivery::Terminal { recipients }
            },
        }
    }
}

} // verus!
