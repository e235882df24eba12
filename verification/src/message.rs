use crate::json::{json_parse, json_view, member, parse, text, Json};
use vstd::prelude::*;
use vstd::string::StringExecFns;

verus! {

/// What happened to a record, as a record-change message names it.
#[derive(Clone, Copy, Debug, PartialEq, Eq, Structural)]
pub enum Action {
    Update,
    Create,
    Delete,
}

impl Action {
    /// The action that a wire name stands for. The names are the lower-case
    /// words and nothing else.
    pub open spec fn named(name: Seq<char>) -> Option<Action> {
        if name == "update"@ {
            Some(Action::Update)
        } else if name == "create"@ {
            Some(Action::Create)
        } else if name == "delete"@ {
            Some(Action::Delete)
        } else {
            None
        }
    }

    /// Reads an action from its wire name.
    pub fn parse(name: &str) -> (action: Option<Action>)
        ensures
            action == Action::named(name@),
    {
        let name = name.to_owned();
        if name == String::from_str("update") {
            Some(Action::Update)
        } else if name == String::from_str("create") {
            Some(Action::Create)
        } else if name == String::from_str("delete") {
            Some(Action::Delete)
        } else {
            None
        }
    }
}

/// A message of the server, sorted by its shape.
#[derive(Clone, Debug, PartialEq, Eq)]
pub enum ServerMessage {
    /// The server announces the identifier it gave this client.
    Handshake { client_id: String },
    /// A record of a collection was changed.
    RecordChange { collection_name: String, action: Action },
    /// Anything else; such a message is dropped.
    Unrecognized,
}

/// Mathematical content of a [`ServerMessage`].
pub enum ServerMessageView {
    Handshake { client_id: Seq<char> },
    RecordChange { collection_name: Seq<char>, action: Action },
    Unrecognized,
}

impl View for ServerMessage {
    type V = ServerMessageView;

    open spec fn view(&self) -> ServerMessageView {
        match self {
            ServerMessage::Handshake { client_id } => ServerMessageView::Handshake {
                client_id: client_id@,
            },
            ServerMessage::RecordChange { collection_name, action } => ServerMessageView::RecordChange {
                collection_name: collection_name@,
                action: *action,
            },
            ServerMessage::Unrecognized => ServerMessageView::Unrecognized,
        }
    }
}

/// A record as every collection has it: an object that holds a string
/// under each of the five common keys. Other keys may be there too.
pub open spec fn is_record(record: Json) -> bool {
    &&& record.text_member("collectionId"@) is Some
    &&& record.text_member("collectionName"@) is Some
    &&& record.text_member("created"@) is Some
    &&& record.text_member("id"@) is Some
    &&& record.text_member("updated"@) is Some
}

/// The client identifier of a handshake: the string that the document, an
/// object, holds under `clientId`.
pub open spec fn handshake_of(document: Json) -> Option<Seq<char>> {
    document.text_member("clientId"@)
}

/// The collection and action of a record change: the document is an object
/// that holds a record under `record` and the name of an action under
/// `action`.
pub open spec fn record_change_of(document: Json) -> Option<(Seq<char>, Action)> {
    match (document.member("record"@), document.text_member("action"@)) {
        (Some(record), Some(name)) => if is_record(record) && Action::named(name) is Some {
            Some((record.text_member("collectionName"@)->Some_0, Action::named(name)->Some_0))
        } else {
            None
        },
        _ => None,
    }
}

impl ServerMessageView {
    /// Sorts a message by what was read from it: a handshake where a client
    /// identifier was found, else a record change where one was found, else
    /// unrecognized.
    pub open spec fn select(
        handshake: Option<Seq<char>>,
        change: Option<(Seq<char>, Action)>,
    ) -> ServerMessageView {
        match handshake {
            Some(client_id) => ServerMessageView::Handshake { client_id },
            None => match change {
                Some((collection_name, action)) => ServerMessageView::RecordChange {
                    collection_name,
                    action,
                },
                None => ServerMessageView::Unrecognized,
            },
        }
    }

    /// The message that a decoded document is.
    pub open spec fn of_document(document: Json) -> ServerMessageView {
        ServerMessageView::select(handshake_of(document), record_change_of(document))
    }

    /// The message that a payload is, given what it decodes to: a text that
    /// is no JSON document is unrecognized.
    pub open spec fn of_parsed(parsed: Option<Json>) -> ServerMessageView {
        match parsed {
            Some(document) => ServerMessageView::of_document(document),
            None => ServerMessageView::Unrecognized,
        }
    }
}

/// Mathematical content of what was read of a record change.
pub open spec fn change_view(change: Option<(String, Action)>) -> Option<(Seq<char>, Action)> {
    match change {
        Some((collection_name, action)) => Some((collection_name@, action)),
        None => None,
    }
}

/// Mathematical content of an optional string.
pub open spec fn text_view(text: Option<String>) -> Option<Seq<char>> {
    match text {
        Some(characters) => Some(characters@),
        None => None,
    }
}

/// The string that `value`, an object, holds under `key`.
fn text_member(value: &serde_json::Value, key: &str) -> (found: Option<String>)
    ensures
        text_view(found) == json_view(*value).text_member(key@),
{
    match member(value, key) {
        Some(inner) => match text(inner) {
            Some(characters) => Some(characters.to_owned()),
            None => None,
        },
        None => None,
    }
}

/// Whether `value` is a record as every collection has it.
fn holds_record(value: &serde_json::Value) -> (yes: bool)
    ensures
        yes == is_record(json_view(*value)),
{
    text_member(value, "collectionId").is_some() && text_member(value, "collectionName").is_some()
        && text_member(value, "created").is_some() && text_member(value, "id").is_some()
        && text_member(value, "updated").is_some()
}

impl ServerMessage {
    /// Sorts a message by what was read from it: a handshake where a client
    /// identifier was found, else a record change where one was found, else
    /// unrecognized.
    pub fn select(handshake: Option<String>, change: Option<(String, Action)>) -> (message:
        ServerMessage)
        ensures
            message@ == ServerMessageView::select(text_view(handshake), change_view(change)),
    {
        match handshake {
            Some(client_id) => ServerMessage::Handshake { client_id },
            None => match change {
                Some((collection_name, action)) => ServerMessage::RecordChange {
                    collection_name,
                    action,
                },
                None => ServerMessage::Unrecognized,
            },
        }
    }
}

/// Reads the client identifier of a handshake from a decoded document.
fn read_handshake(document: &serde_json::Value) -> (client_id: Option<String>)
    ensures
        text_view(client_id) == handshake_of(json_view(*document)),
{
    text_member(document, "clientId")
}

/// Reads collection and action of a record change from a decoded document.
fn read_record_change(document: &serde_json::Value) -> (change: Option<(String, Action)>)
    ensures
        change_view(change) == record_change_of(json_view(*document)),
{
    let record = match member(document, "record") {
        Some(record) => record,
        None => {
            return None;
        },
    };
    let name = match text_member(document, "action") {
        Some(name) => name,
        None => {
            return None;
        },
    };
    if !holds_record(record) {
        return None;
    }
    let action = match Action::parse(name.as_str()) {
        Some(action) => action,
        None => {
            return None;
        },
    };
    match text_member(record, "collectionName") {
        Some(collection_name) => Some((collection_name, action)),
        None => None,
    }
}

/// Sorts a decoded document by its shape.
pub fn interpret(document: &serde_json::Value) -> (message: ServerMessage)
    ensures
        message@ == ServerMessageView::of_document(json_view(*document)),
{
    ServerMessage::select(read_handshake(document), read_record_change(document))
}

/// Sorts a raw payload by its shape: decodes it as JSON and reads it as a
/// handshake first, as a record change second. A payload that is no JSON
/// document, or has neither shape, is unrecognized; that is no error.
pub fn classify(data: &str) -> (message: ServerMessage)
    ensures
        message@ == ServerMessageView::of_parsed(json_parse(data@)),
{
    match parse(data) {
        Ok(document) => interpret(&document),
        Err(_) => ServerMessage::Unrecognized,
    }
}

} // verus!
