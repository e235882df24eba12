//! Transport-agnostic core of a Server-Sent-Events client and of the topic
//! subscription manager built on it.
//!
//! Nothing here opens a connection or invokes a callback. The embedding
//! program owns the transport: it hands every lifecycle event the transport
//! yields to [`EventSource::handle`] (or [`RealtimeManager::handle`]) and then
//! carries out what comes back, a list of listeners to call or a topic
//! registration to post. Where the transport has to agree to a step (opening
//! the stream, listening on a channel) its answer is an argument of the
//! call.

pub mod error;
pub mod event;
pub mod json;
pub mod message;
pub mod realtime;
pub mod realtime_laws;
pub mod source;
pub mod source_laws;

pub use error::{EventSourceError, EventSourceErrorView};
pub use event::{Event, EventView, ReadyState, TransportEvent, TransportEventView};
pub use message::{classify, interpret, Action, ServerMessage, ServerMessageView};
pub use realtime::{
    Announcement, AnnouncementView, Reaction, ReactionView, RealtimeManager, RealtimeManagerView,
    SubscriptionView,
};
pub use source::{Delivery, DeliveryView, EventSource, EventSourceView, ListenerView};
