use vstd::prelude::*;
use vstd::string::StringExecFns;

verus! {

/// Why an operation on an event source failed.
#[derive(Clone, Debug, PartialEq, Eq)]
pub enum EventSourceError {
    /// The transport could not be opened; the text is the transport's reason.
    Connection(String),
    /// A listener could not be attached; the text is the reason.
    Registration(String),
    /// No listener is registered under the id given.
    NotFound,
}

/// Mathematical content of an [`EventSourceError`].
pub enum EventSourceErrorView {
    Connection(Seq<char>),
    Registration(Seq<char>),
    NotFound,
}

impl View for EventSourceError {
    type V = EventSourceErrorView;

    open spec fn view(&self) -> EventSourceErrorView {
        match self {
            EventSourceError::Connection(reason) => EventSourceErrorView::Connection(reason@),
            EventSourceError::Registration(reason) => EventSourceErrorView::Registration(reason@),
            EventSourceError::NotFound => EventSourceErrorView::NotFound,
        }
    }
}

impl EventSourceErrorView {
    /// The text shown for the error: the transport's reason where there is
    /// one, a fixed sentence for an unknown listener id.
    pub open spec fn message(self) -> Seq<char> {
        match self {
            EventSourceErrorView::Connection(reason) => reason,
            EventSourceErrorView::Registration(reason) => reason,
            EventSourceErrorView::NotFound => "Listener not found"@,
        }
    }
}

/// Mathematical content of a transport's answer to a request: acceptance,
/// or refusal with a reason.
pub open spec fn verdict_view(verdict: Result<(), String>) -> Result<(), Seq<char>> {
    match verdict {
        Ok(_) => Ok(()),
        Err(reason) => Err(reason@),
    }
}

/// Mathematical content of a result whose error is an [`EventSourceError`].
pub open spec fn result_view<T>(result: Result<T, EventSourceError>) -> Result<
    T,
    EventSourceErrorView,
> {
    match result {
        Ok(value) => Ok(value),
        Err(e) => Err(e@),
    }
}

impl EventSourceError {
    /// The text shown for this error.
    pub fn message(&self) -> (text: String)
        ensures
            text@ == self@.message(),
    {
        match self {
            EventSourceError::Connection(reason) => reason.clone(),
            EventSourceError::Registration(reason) => reason.clone(),
            EventSourceError::NotFound => String::from_str("Listener not found"),
        }
    }
}

} // verus!
