use crate::error::{result_view, verdict_view, EventSourceError, EventSourceErrorView};
use crate::event::{Event, ReadyState, TransportEvent, TransportEventView};
use crate::json::json_parse;
use crate::message::{classify, ServerMessage, ServerMessageView};
use crate::source::{Delivery, DeliveryView, EventSource, EventSourceView, ListenerView};
use vstd::prelude::*;

verus! {

/// One topic subscription: the topic and the callback stored for it.
struct Subscription<C> {
    topic: String,
    callback: C,
}

/// Mathematical content of a [`Subscription`].
pub struct SubscriptionView<C> {
    pub topic: Seq<char>,
    pub callback: C,
}

impl<C> View for Subscription<C> {
    type V = SubscriptionView<C>;

    closed spec fn view(&self) -> SubscriptionView<C> {
        SubscriptionView { topic: self.topic@, callback: self.callback }
    }
}

/// The topic registration to post to the server: the client identifier and
/// every subscribed topic, in subscription order.
#[derive(Clone, Debug, PartialEq, Eq)]
pub struct Announcement {
    pub client_id: String,
    pub subscriptions: Vec<String>,
}

/// Mathematical content of an [`Announcement`].
pub struct AnnouncementView {
    pub client_id: Seq<char>,
    pub subscriptions: Seq<Seq<char>>,
}

impl View for Announcement {
    type V = AnnouncementView;

    open spec fn view(&self) -> AnnouncementView {
        AnnouncementView {
            client_id: self.client_id@,
            subscriptions: self.subscriptions@.map_values(|topic: String| topic@),
        }
    }
}

/// Mathematical content of an announcement that may be missing.
pub open spec fn request_view(request: Option<Announcement>) -> Option<AnnouncementView> {
    match request {
        Some(announcement) => Some(announcement@),
        None => None,
    }
}

/// What the manager asks of its caller after it has taken in a message or
/// a transport event.
#[derive(Debug, PartialEq, Eq)]
pub enum Reaction {
    /// A handshake was taken in. `request` is the registration to post now;
    /// there is none while no topic is subscribed.
    Announce { request: Option<Announcement> },
    /// A record changed. `payload`, the message as it came, is owed to the
    /// subscriptions at the places named, in this order.
    Dispatch { recipients: Vec<usize>, payload: String },
    /// The stream ended; the client identifier has been forgotten.
    Reset,
    /// Nothing is to be done.
    Dropped,
}

/// Mathematical content of a [`Reaction`].
pub enum ReactionView {
    Announce { request: Option<AnnouncementView> },
    Dispatch { recipients: Seq<usize>, payload: Seq<char> },
    Reset,
    Dropped,
}

impl View for Reaction {
    type V = ReactionView;

    open spec fn view(&self) -> ReactionView {
        match self {
            Reaction::Announce { request } => ReactionView::Announce { request: request_view(*request) },
            Reaction::Dispatch { recipients, payload } => ReactionView::Dispatch {
                recipients: recipients@,
                payload: payload@,
            },
            Reaction::Reset => ReactionView::Reset,
            Reaction::Dropped => ReactionView::Dropped,
        }
    }
}

/// The channel on which the server's messages arrive.
pub open spec fn message_channel() -> Seq<char> {
    "message"@
}

/// Mathematical content of a [`RealtimeManager`].
pub struct RealtimeManagerView<C> {
    pub source: EventSourceView<()>,
    pub subscriptions: Seq<SubscriptionView<C>>,
    pub client_id: Option<Seq<char>>,
    pub listener: Option<usize>,
}

impl<C> RealtimeManagerView<C> {
    /// The event source is well formed and holds the manager's handler, on
    /// the message channel, exactly when the manager is connected, and
    /// nothing else.
    pub open spec fn wf(self) -> bool {
        &&& self.source.wf()
        &&& match self.listener {
            Some(id) => self.source.listeners == seq![
                ListenerView { id, event_type: message_channel(), callback: () },
            ],
            None => self.source.listeners == Seq::<ListenerView<()>>::empty(),
        }
    }

    /// A fresh manager: not connected, no topic, no client identifier.
    pub open spec fn initial(url: Seq<char>) -> Self {
        RealtimeManagerView {
            source: EventSourceView::initial(url),
            subscriptions: Seq::empty(),
            client_id: None,
            listener: None,
        }
    }

    /// The subscribed topics, one for each subscription, in subscription
    /// order.
    pub open spec fn topics(self) -> Seq<Seq<char>> {
        self.subscriptions.map_values(|s: SubscriptionView<C>| s.topic)
    }

    /// The registration to post in this state: the full list of topics under
    /// the client identifier; none while either is missing.
    pub open spec fn announcement(self) -> Option<AnnouncementView> {
        match self.client_id {
            Some(client_id) => if self.subscriptions.len() == 0 {
                None
            } else {
                Some(AnnouncementView { client_id, subscriptions: self.topics() })
            },
            None => None,
        }
    }

    /// Whether the subscription at place `i` is on `topic`.
    pub open spec fn is_on(self, topic: Seq<char>) -> spec_fn(usize) -> bool {
        |i: usize| self.subscriptions[i as int].topic == topic
    }

    /// The places of the subscriptions on `topic`, in subscription order.
    pub open spec fn on_topic(self, topic: Seq<char>) -> Seq<usize> {
        places(self.subscriptions.len()).filter(self.is_on(topic))
    }

    /// The state `subscribe` leaves: the subscription stands last.
    pub open spec fn after_subscribe(self, topic: Seq<char>, callback: C) -> Self {
        RealtimeManagerView {
            subscriptions: self.subscriptions.push(SubscriptionView { topic, callback }),
            ..self
        }
    }

    /// What `connect` returns in this state.
    pub open spec fn connect_result(self, attached: Result<(), Seq<char>>) -> Result<
        (),
        EventSourceErrorView,
    > {
        if self.listener is Some {
            Ok(())
        } else {
            match self.source.subscribe_result(attached) {
                Ok(_) => Ok(()),
                Err(e) => Err(e),
            }
        }
    }

    /// The state `connect` leaves: a manager that is connected stays as it
    /// is; otherwise its handler is registered on the message channel and
    /// the id is kept, if the event source accepts the listener.
    pub open spec fn after_connect(self, attached: Result<(), Seq<char>>) -> Self {
        if self.listener is Some {
            self
        } else {
            match self.source.subscribe_result(attached) {
                Ok(id) => RealtimeManagerView {
                    source: self.source.after_subscribe(message_channel(), (), attached),
                    listener: Some(id),
                    ..self
                },
                Err(_) => self,
            }
        }
    }

    /// The state in which a message leaves the manager: a handshake sets
    /// the client identifier, whatever it was; nothing else changes
    /// anything.
    pub open spec fn after_message(self, message: ServerMessageView) -> Self {
        match message {
            ServerMessageView::Handshake { client_id } => RealtimeManagerView {
                client_id: Some(client_id),
                ..self
            },
            _ => self,
        }
    }

    /// What a message asks for: after a handshake the registration of all
    /// topics under the new identifier; for a record change the payload
    /// for the subscriptions on the record's collection; nothing for an
    /// unrecognized message.
    pub open spec fn reaction(self, message: ServerMessageView, payload: Seq<char>) -> ReactionView {
        match message {
            ServerMessageView::Handshake { client_id } => ReactionView::Announce {
                request: self.after_message(message).announcement(),
            },
            ServerMessageView::RecordChange { collection_name, action } => ReactionView::Dispatch {
                recipients: self.on_topic(collection_name),
                payload,
            },
            ServerMessageView::Unrecognized => ReactionView::Dropped,
        }
    }

    /// Whether the manager's handler is among the listeners named.
    pub open spec fn hears(self, recipients: Seq<usize>) -> bool {
        match self.listener {
            Some(id) => recipients.contains(id),
            None => false,
        }
    }

    /// The state in which a delivery of the event source leaves the manager:
    /// a message that the handler is owed is taken in; a terminal signal that
    /// it is owed clears the client identifier.
    pub open spec fn after_delivery(self, delivery: DeliveryView) -> Self {
        match delivery {
            DeliveryView::Message { event, recipients } => if self.hears(recipients) {
                self.after_message(ServerMessageView::of_parsed(json_parse(event.data)))
            } else {
                self
            },
            DeliveryView::Terminal { recipients } => if self.hears(recipients) {
                RealtimeManagerView { client_id: None, ..self }
            } else {
                self
            },
            DeliveryView::Nothing => self,
        }
    }

    /// What a delivery of the event source asks for.
    pub open spec fn reaction_to(self, delivery: DeliveryView) -> ReactionView {
        match delivery {
            DeliveryView::Message { event, recipients } => if self.hears(recipients) {
                self.reaction(ServerMessageView::of_parsed(json_parse(event.data)), event.data)
            } else {
                ReactionView::Dropped
            },
            DeliveryView::Terminal { recipients } => if self.hears(recipients) {
                ReactionView::Reset
            } else {
                ReactionView::Dropped
            },
            DeliveryView::Nothing => ReactionView::Dropped,
        }
    }

    /// The manager with its event source moved on by a transport event.
    pub open spec fn with_source_after(self, event: TransportEventView) -> Self {
        RealtimeManagerView { source: self.source.after_event(event), ..self }
    }
}

/// The places `0, 1, ..` below `n`, in order.
pub open spec fn places(n: nat) -> Seq<usize> {
    Seq::new(n, |i: int| i as usize)
}

/// Keeps the topic subscriptions of one realtime connection in step with
/// the server: it owns the event source, the subscriptions and the client
/// identifier that the server assigned, and says when the full list of
/// topics has to be registered anew.
pub struct RealtimeManager<C> {
    source: EventSource<()>,
    subscriptions: Vec<Subscription<C>>,
    client_id: Option<String>,
    listener: Option<usize>,
}

impl<C> View for RealtimeManager<C> {
    type V = RealtimeManagerView<C>;

    closed spec fn view(&self) -> RealtimeManagerView<C> {
        RealtimeManagerView {
            source: self.source@,
            subscriptions: self.subscriptions@.map_values(|s: Subscription<C>| s@),
            client_id: match self.client_id {
                Some(client_id) => Some(client_id@),
                None => None,
            },
            listener: self.listener,
        }
    }
}

/// Whether `id` is among the ids in `recipients`.
fn names(recipients: &Vec<usize>, id: usize) -> (yes: bool)
    ensures
        yes == recipients@.contains(id),
{
    let mut i: usize = 0;
    while i < recipients.len()
        invariant
            i <= recipients@.len(),
            forall|k: int| 0 <= k < i ==> recipients@[k] != id,
        decreases recipients@.len() - i,
    {
        if recipients[i] == id {
            return true;
        }
        i += 1;
    }
    false
}

impl<C> RealtimeManager<C> {
    /// Creates a manager for the stream at `endpoint_url`. `opened` is the
    /// transport's answer to the request to open it; a refusal is passed on
    /// as a connection error. The manager is not connected yet: it takes in
    /// no message before `connect`.
    pub fn new(endpoint_url: &str, opened: Result<(), String>) -> (result: Result<
        Self,
        EventSourceError,
    >)
        ensures
            match (opened, result) {
                (Ok(_), Ok(manager)) => manager@ == RealtimeManagerView::<C>::initial(endpoint_url@)
                    && manager@.wf(),
                (Err(reason), Err(e)) => e@ == EventSourceErrorView::Connection(reason@),
                _ => false,
            },
    {
        match EventSource::new(endpoint_url, opened) {
            Ok(source) => {
                let manager = RealtimeManager {
                    source,
                    subscriptions: Vec::new(),
                    client_id: None,
                    listener: None,
                };
                assert(manager@.subscriptions =~= Seq::empty());
                Ok(manager)
            },
            Err(e) => Err(e),
        }
    }

    /// The connection phase of the event source.
    pub fn state(&self) -> (state: ReadyState)
        ensures
            state == self@.source.state,
    {
        self.source.state()
    }

    /// Whether the manager's handler is registered with the event source.
    pub fn is_connected(&self) -> (connected: bool)
        ensures
            connected == self@.listener is Some,
    {
        self.listener.is_some()
    }

    /// The client identifier that the server assigned, once a handshake has
    /// been taken in.
    pub fn client_id(&self) -> (client_id: Option<&str>)
        ensures
            match client_id {
                Some(id) => self@.client_id == Some(id@),
                None => self@.client_id is None,
            },
    {
        match &self.client_id {
            Some(id) => Some(id.as_str()),
            None => None,
        }
    }

    /// The callback stored for the subscription at place `index`.
    pub fn callback(&self, index: usize) -> (callback: Option<&C>)
        ensures
            match callback {
                Some(c) => index < self@.subscriptions.len() && *c
                    == self@.subscriptions[index as int].callback,
                None => index >= self@.subscriptions.len(),
            },
    {
        if index < self.subscriptions.len() {
            Some(&self.subscriptions[index].callback)
        } else {
            None
        }
    }

    /// Registers the manager's handler on the message channel of the event
    /// source, and keeps the listener's id. `attached` is the transport's
    /// answer to the request to listen on that channel. A manager that is
    /// connected already stays as it is: there is never a second
    /// registration.
    pub fn connect(&mut self, attached: Result<(), String>) -> (result: Result<(), EventSourceError>)
        ensures
            result_view(result) == old(self)@.connect_result(verdict_view(attached)),
            final(self)@ == old(self)@.after_connect(verdict_view(attached)),
            old(self)@.wf() ==> final(self)@.wf(),
    {
        if self.listener.is_some() {
            return Ok(());
        }
        match self.source.subscribe("message", (), attached) {
            Ok(id) => {
                self.listener = Some(id);
                Ok(())
            },
            Err(e) => Err(e),
        }
    }

    /// The subscribed topics, in subscription order.
    fn topics(&self) -> (topics: Vec<String>)
        ensures
            topics@.map_values(|topic: String| topic@) == self@.topics(),
    {
        let mut topics: Vec<String> = Vec::new();
        let mut i: usize = 0;
        while i < self.subscriptions.len()
            invariant
                i <= self.subscriptions@.len(),
                topics@.map_values(|topic: String| topic@) == self@.subscriptions.take(
                    i as int,
                ).map_values(|s: SubscriptionView<C>| s.topic),
            decreases self.subscriptions@.len() - i,
        {
            let topic = self.subscriptions[i].topic.clone();
            let ghost before = topics@;
            topics.push(topic);
            assert(topics@.map_values(|topic: String| topic@) =~= before.map_values(
                |topic: String| topic@,
            ).push(topic@));
            i += 1;
        }
        assert(self@.subscriptions.take(i as int) =~= self@.subscriptions);
        topics
    }

    /// The registration to post now: the full list of topics under the
    /// client identifier. There is none, and nothing is to be posted, while
    /// no topic is subscribed or no client identifier is known.
    pub fn post_subscriptions(&self) -> (request: Option<Announcement>)
        ensures
            request_view(request) == self@.announcement(),
    {
        match &self.client_id {
            Some(client_id) => {
                if self.subscriptions.len() == 0 {
                    None
                } else {
                    Some(Announcement { client_id: client_id.clone(), subscriptions: self.topics() })
                }
            },
            None => None,
        }
    }

    /// The places of the subscriptions on `topic`, in subscription order:
    /// those whose callbacks are owed a payload for that topic.
    pub fn notify(&self, topic: &str) -> (recipients: Vec<usize>)
        ensures
            recipients@ == self@.on_topic(topic@),
    {
        let wanted = topic.to_owned();
        let ghost keep = self@.is_on(topic@);
        let mut recipients: Vec<usize> = Vec::new();
        let mut i: usize = 0;
        while i < self.subscriptions.len()
            invariant
                i <= self.subscriptions@.len(),
                wanted@ == topic@,
                keep == self@.is_on(topic@),
                recipients@ == places(i as nat).filter(keep),
            decreases self.subscriptions@.len() - i,
        {
            proof {
                assert(places((i + 1) as nat) =~= places(i as nat).push(i));
                places(i as nat).lemma_filter_push(i, keep);
            }
            if self.subscriptions[i].topic == wanted {
                recipients.push(i);
            }
            i += 1;
        }
        recipients
    }

    /// Adds a subscription on `topic`. Where the client identifier is known
    /// the full list of topics has to be registered anew at once, and the
    /// request is returned; where it is not, nothing is returned and the
    /// topic waits for the handshake.
    pub fn subscribe(&mut self, topic: &str, callback: C) -> (request: Option<Announcement>)
        ensures
            final(self)@ == old(self)@.after_subscribe(topic@, callback),
            request_view(request) == final(self)@.announcement(),
            old(self)@.wf() ==> final(self)@.wf(),
    {
        let subscription = Subscription { topic: topic.to_owned(), callback };
        self.subscriptions.push(subscription);
        assert(self@.subscriptions =~= old(self)@.subscriptions.push(subscription@));
        self.post_subscriptions()
    }

    /// Takes in a message that has been sorted by its shape. A handshake
    /// sets the client identifier, replacing an earlier one, and asks for
    /// the registration of all topics; a record change asks for its payload
    /// to be handed to the subscriptions on the record's collection, whatever
    /// the action; an unrecognized message changes and asks for nothing.
    pub fn react(&mut self, message: ServerMessage, payload: &str) -> (reaction: Reaction)
        ensures
            reaction@ == old(self)@.reaction(message@, payload@),
            final(self)@ == old(self)@.after_message(message@),
            old(self)@.wf() ==> final(self)@.wf(),
    {
        match message {
            ServerMessage::Handshake { client_id } => {
                self.client_id = Some(client_id);
                Reaction::Announce { request: self.post_subscriptions() }
            },
            ServerMessage::RecordChange { collection_name, action } => {
                let recipients = self.notify(collection_name.as_str());
                Reaction::Dispatch { recipients, payload: payload.to_owned() }
            },
            ServerMessage::Unrecognized => Reaction::Dropped,
        }
    }

    /// Takes in an event of the message channel: sorts its payload by shape
    /// and reacts to it.
    pub fn on_message(&mut self, event: &Event) -> (reaction: Reaction)
        ensures
            reaction@ == old(self)@.reaction(
                ServerMessageView::of_parsed(json_parse(event@.data)),
                event@.data,
            ),
            final(self)@ == old(self)@.after_message(
                ServerMessageView::of_parsed(json_parse(event@.data)),
            ),
            old(self)@.wf() ==> final(self)@.wf(),
    {
        let message = classify(event.data.as_str());
        self.react(message, event.data.as_str())
    }

    /// Takes in what the event source owes its listeners. A message owed to
    /// the manager's handler is taken in as by `on_message`; a terminal
    /// signal owed to it makes the manager forget the client identifier, so
    /// that the next handshake registers the topics again. Whatever is not
    /// owed to the handler is dropped.
    pub fn absorb(&mut self, delivery: Delivery) -> (reaction: Reaction)
        ensures
            reaction@ == old(self)@.reaction_to(delivery@),
            final(self)@ == old(self)@.after_delivery(delivery@),
            old(self)@.wf() ==> final(self)@.wf(),
    {
        let id = match self.listener {
            Some(id) => id,
            None => {
                return Reaction::Dropped;
            },
        };
        match delivery {
            Delivery::Message { event, recipients } => {
                if names(&recipients, id) {
                    self.on_message(&event)
                } else {
                    Reaction::Dropped
                }
            },
            Delivery::Terminal { recipients } => {
                if names(&recipients, id) {
                    self.client_id = None;
                    Reaction::Reset
                } else {
                    Reaction::Dropped
                }
            },
            Delivery::Nothing => Reaction::Dropped,
        }
    }

    /// Takes in one event of the transport: hands it to the event source
    /// and reacts to what the source owes the manager's handler.
    pub fn handle(&mut self, event: TransportEvent) -> (reaction: Reaction)
        ensures
            reaction@ == old(self)@.reaction_to(old(self)@.source.delivery(event@)),
            final(self)@ == old(self)@.with_source_after(event@).after_delivery(
                old(self)@.source.delivery(event@),
            ),
            old(self)@.wf() ==> final(self)@.wf(),
    {
        let delivery = self.source.handle(event);
        self.absorb(delivery)
    }
}

} // verus!
