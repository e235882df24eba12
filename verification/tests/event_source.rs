use eventsource_rs::{Delivery, Event, EventSource, EventSourceError, ReadyState, TransportEvent};

fn open() -> EventSource<&'static str> {
    EventSource::new("http://localhost:8090/api/realtime", Ok(())).unwrap()
}

fn message(event_type: &str, data: &str) -> TransportEvent {
    TransportEvent::Message(Event::new(event_type, data))
}

#[test]
fn new_source_is_connecting() {
    let source = open();
    assert_eq!(source.state(), ReadyState::Connecting);
    assert_eq!(source.url(), "http://localhost:8090/api/realtime");
}

#[test]
fn refused_transport_is_a_connection_error() {
    let result = EventSource::<&'static str>::new("not a url", Err("relative URL without a base".to_string()));
    match result {
        Err(e) => {
            assert_eq!(e, EventSourceError::Connection("relative URL without a base".to_string()));
            assert_eq!(e.message(), "relative URL without a base");
        }
        Ok(_) => panic!("a refused transport must not yield a source"),
    }
}

#[test]
fn ids_start_at_zero_and_grow_by_one() {
    let mut source = open();
    assert_eq!(source.subscribe("message", "a", Ok(())), Ok(0));
    assert_eq!(source.subscribe("message", "b", Ok(())), Ok(1));
    assert_eq!(source.subscribe("posts", "c", Ok(())), Ok(2));
}

#[test]
fn ids_keep_growing_across_unsubscribe() {
    let mut source = open();
    let first = source.subscribe("message", "a", Ok(())).unwrap();
    let second = source.subscribe("message", "b", Ok(())).unwrap();
    assert_eq!(source.unsubscribe(second), Ok(()));
    let third = source.subscribe("message", "c", Ok(())).unwrap();
    assert_eq!(source.unsubscribe(first), Ok(()));
    assert_eq!(source.unsubscribe(third), Ok(()));
    let fourth = source.subscribe("message", "d", Ok(())).unwrap();
    assert_eq!((first, second, third, fourth), (0, 1, 2, 3));
}

#[test]
fn refused_listener_is_a_registration_error_and_registers_nothing() {
    let mut source = open();
    let refused = source.subscribe("bad\ntype", "a", Err("SyntaxError".to_string()));
    assert_eq!(refused, Err(EventSourceError::Registration("SyntaxError".to_string())));
    assert_eq!(refused.unwrap_err().message(), "SyntaxError");
    assert_eq!(source.handle(message("bad\ntype", "x")), Delivery::Message {
        event: Event::new("bad\ntype", "x"),
        recipients: vec![],
    });
    assert_eq!(source.subscribe("message", "b", Ok(())), Ok(0));
}

#[test]
fn subscribe_is_legal_in_every_state() {
    let mut source = open();
    assert_eq!(source.subscribe("message", "a", Ok(())), Ok(0));
    source.handle(TransportEvent::Opened);
    assert_eq!(source.subscribe("message", "b", Ok(())), Ok(1));
    source.close();
    assert_eq!(source.subscribe("message", "c", Ok(())), Ok(2));
    assert_eq!(source.unsubscribe(0), Ok(()));
}

#[test]
fn unsubscribe_twice_is_not_found() {
    let mut source = open();
    let id = source.subscribe("message", "a", Ok(())).unwrap();
    assert_eq!(source.unsubscribe(id), Ok(()));
    assert_eq!(source.unsubscribe(id), Err(EventSourceError::NotFound));
    source.subscribe("message", "b", Ok(())).unwrap();
    assert_eq!(source.unsubscribe(id), Err(EventSourceError::NotFound));
}

#[test]
fn unsubscribe_of_an_id_never_issued_is_not_found() {
    let mut source = open();
    assert_eq!(source.unsubscribe(0), Err(EventSourceError::NotFound));
    source.subscribe("message", "a", Ok(())).unwrap();
    assert_eq!(source.unsubscribe(1), Err(EventSourceError::NotFound));
    assert_eq!(source.unsubscribe(usize::MAX), Err(EventSourceError::NotFound));
}

#[test]
fn not_found_has_its_text() {
    assert_eq!(EventSourceError::NotFound.message(), "Listener not found");
}

#[test]
fn unsubscribe_removes_only_the_listener_named() {
    let mut source = open();
    source.subscribe("message", "a", Ok(())).unwrap();
    source.subscribe("message", "b", Ok(())).unwrap();
    source.subscribe("message", "c", Ok(())).unwrap();
    assert_eq!(source.unsubscribe(1), Ok(()));
    assert_eq!(source.callback(0), Some(&"a"));
    assert_eq!(source.callback(1), None);
    assert_eq!(source.callback(2), Some(&"c"));
    assert_eq!(source.handle(message("message", "x")), Delivery::Message {
        event: Event::new("message", "x"),
        recipients: vec![0, 2],
    });
}

#[test]
fn message_goes_to_the_listeners_of_its_channel_in_order() {
    let mut source = open();
    source.subscribe("message", "a", Ok(())).unwrap();
    source.subscribe("posts", "b", Ok(())).unwrap();
    source.subscribe("message", "c", Ok(())).unwrap();
    assert_eq!(source.handle(message("message", "hello")), Delivery::Message {
        event: Event::new("message", "hello"),
        recipients: vec![0, 2],
    });
    assert_eq!(source.handle(message("posts", "p")), Delivery::Message {
        event: Event::new("posts", "p"),
        recipients: vec![1],
    });
    assert_eq!(source.handle(message("users", "u")), Delivery::Message {
        event: Event::new("users", "u"),
        recipients: vec![],
    });
}

#[test]
fn a_listener_waits_while_connecting() {
    let mut source = open();
    source.subscribe("message", "a", Ok(())).unwrap();
    assert_eq!(source.state(), ReadyState::Connecting);
    assert_eq!(source.handle(TransportEvent::Opened), Delivery::Nothing);
    assert_eq!(source.state(), ReadyState::Open);
    assert_eq!(source.handle(message("message", "first")), Delivery::Message {
        event: Event::new("message", "first"),
        recipients: vec![0],
    });
}

#[test]
fn transport_error_travels_on_the_error_channel() {
    let mut source = open();
    source.subscribe("message", "a", Ok(())).unwrap();
    source.subscribe("error", "b", Ok(())).unwrap();
    source.handle(TransportEvent::Opened);
    assert_eq!(source.handle(TransportEvent::Error("connection reset".to_string())), Delivery::Message {
        event: Event::new("error", "connection reset"),
        recipients: vec![1],
    });
    assert_eq!(source.state(), ReadyState::Open);
}

#[test]
fn close_is_silent_and_idempotent() {
    let mut source = open();
    source.subscribe("message", "a", Ok(())).unwrap();
    source.close();
    assert_eq!(source.state(), ReadyState::Closed);
    source.close();
    assert_eq!(source.state(), ReadyState::Closed);
    assert_eq!(source.close_and_notify(), Vec::<usize>::new());
    assert_eq!(source.handle(message("message", "late")), Delivery::Message {
        event: Event::new("message", "late"),
        recipients: vec![],
    });
}

#[test]
fn close_and_notify_names_every_listener_once() {
    let mut source = open();
    source.subscribe("message", "a", Ok(())).unwrap();
    source.subscribe("posts", "b", Ok(())).unwrap();
    source.subscribe("error", "c", Ok(())).unwrap();
    source.unsubscribe(1).unwrap();
    assert_eq!(source.close_and_notify(), vec![0, 2]);
    assert_eq!(source.state(), ReadyState::Closed);
}

#[test]
fn close_and_notify_twice_owes_nothing_more() {
    let mut source = open();
    source.subscribe("message", "a", Ok(())).unwrap();
    assert_eq!(source.close_and_notify(), vec![0]);
    assert_eq!(source.close_and_notify(), Vec::<usize>::new());
    assert_eq!(source.state(), ReadyState::Closed);
}

#[test]
fn nothing_is_owed_after_close_and_notify() {
    let mut source = open();
    source.subscribe("message", "a", Ok(())).unwrap();
    source.subscribe("error", "b", Ok(())).unwrap();
    source.close_and_notify();
    assert_eq!(source.handle(message("message", "late")), Delivery::Message {
        event: Event::new("message", "late"),
        recipients: vec![],
    });
    assert_eq!(source.handle(TransportEvent::Error("late".to_string())), Delivery::Message {
        event: Event::new("error", "late"),
        recipients: vec![],
    });
    assert_eq!(source.handle(TransportEvent::Closed), Delivery::Terminal { recipients: vec![] });
    source.subscribe("message", "c", Ok(())).unwrap();
    assert_eq!(source.handle(message("message", "later")), Delivery::Message {
        event: Event::new("message", "later"),
        recipients: vec![],
    });
}

#[test]
fn end_of_stream_is_the_terminal_signal_for_all() {
    let mut source = open();
    source.subscribe("message", "a", Ok(())).unwrap();
    source.subscribe("posts", "b", Ok(())).unwrap();
    source.handle(TransportEvent::Opened);
    assert_eq!(source.handle(TransportEvent::Closed), Delivery::Terminal { recipients: vec![0, 1] });
    assert_eq!(source.state(), ReadyState::Closed);
    assert_eq!(source.handle(TransportEvent::Closed), Delivery::Terminal { recipients: vec![] });
}

#[test]
fn closed_is_terminal() {
    let mut source = open();
    source.close();
    assert_eq!(source.handle(TransportEvent::Opened), Delivery::Nothing);
    assert_eq!(source.state(), ReadyState::Closed);
    source.handle(message("message", "x"));
    source.handle(TransportEvent::Error("x".to_string()));
    assert_eq!(source.state(), ReadyState::Closed);
}

#[test]
fn open_stays_open_on_a_second_open() {
    let mut source = open();
    source.handle(TransportEvent::Opened);
    source.handle(TransportEvent::Opened);
    assert_eq!(source.state(), ReadyState::Open);
}

#[test]
fn callback_is_found_by_id() {
    let mut source = open();
    let id = source.subscribe("message", "a", Ok(())).unwrap();
    assert_eq!(source.callback(id), Some(&"a"));
    assert_eq!(source.callback(id + 1), None);
}
