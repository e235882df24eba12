use eventsource_rs::{
    Announcement, Event, EventSourceError, Reaction, ReadyState, RealtimeManager, TransportEvent,
};

const ENDPOINT: &str = "http://localhost:8090/api/realtime";

fn manager() -> RealtimeManager<&'static str> {
    RealtimeManager::new(ENDPOINT, Ok(())).unwrap()
}

fn record_change(collection: &str, action: &str) -> String {
    format!(
        r#"{{"record":{{"collectionId":"c0","collectionName":"{}","created":"2023-01-01","id":"r1","updated":"2023-01-02"}},"action":"{}"}}"#,
        collection, action
    )
}

fn announcement(client_id: &str, topics: &[&str]) -> Announcement {
    Announcement {
        client_id: client_id.to_string(),
        subscriptions: topics.iter().map(|t| t.to_string()).collect(),
    }
}

fn body(request: &Announcement) -> String {
    let mut object = serde_json::Map::new();
    object.insert("clientId".to_string(), serde_json::Value::from(request.client_id.clone()));
    object.insert("subscriptions".to_string(), serde_json::Value::from(request.subscriptions.clone()));
    serde_json::Value::Object(object).to_string()
}

#[test]
fn new_manager_knows_nothing() {
    let manager = manager();
    assert_eq!(manager.state(), ReadyState::Connecting);
    assert!(!manager.is_connected());
    assert_eq!(manager.client_id(), None);
    assert_eq!(manager.post_subscriptions(), None);
}

#[test]
fn refused_transport_yields_no_manager() {
    let result = RealtimeManager::<&'static str>::new("nowhere", Err("refused".to_string()));
    match result {
        Err(e) => assert_eq!(e, EventSourceError::Connection("refused".to_string())),
        Ok(_) => panic!("a refused transport must not yield a manager"),
    }
}

#[test]
fn no_announcement_without_client_id() {
    let mut manager = manager();
    assert_eq!(manager.subscribe("posts", "a"), None);
    assert_eq!(manager.subscribe("users", "b"), None);
    assert_eq!(manager.post_subscriptions(), None);
}

#[test]
fn no_announcement_without_topics() {
    let mut manager = manager();
    let reaction = manager.on_message(&Event::new("message", r#"{"clientId":"c1"}"#));
    assert_eq!(reaction, Reaction::Announce { request: None });
    assert_eq!(manager.client_id(), Some("c1"));
    assert_eq!(manager.post_subscriptions(), None);
}

#[test]
fn announcement_carries_client_id_and_topics_in_order() {
    let mut manager = manager();
    manager.subscribe("posts", "a");
    manager.subscribe("users", "b");
    manager.on_message(&Event::new("message", r#"{"clientId":"c1"}"#));
    let request = manager.post_subscriptions().unwrap();
    assert_eq!(request, announcement("c1", &["posts", "users"]));
    assert_eq!(body(&request), r#"{"clientId":"c1","subscriptions":["posts","users"]}"#);
}

#[test]
fn announcement_lists_a_topic_once_for_each_subscription() {
    let mut manager = manager();
    manager.subscribe("posts", "a");
    manager.subscribe("users", "b");
    manager.subscribe("posts", "c");
    manager.on_message(&Event::new("message", r#"{"clientId":"c1"}"#));
    assert_eq!(manager.post_subscriptions(), Some(announcement("c1", &["posts", "users", "posts"])));
}

#[test]
fn handshake_registers_the_deferred_topics_once() {
    let mut manager = manager();
    assert_eq!(manager.subscribe("posts", "a"), None);
    assert_eq!(manager.subscribe("users", "b"), None);
    let reaction = manager.on_message(&Event::new("message", r#"{"clientId":"abc123"}"#));
    assert_eq!(reaction, Reaction::Announce { request: Some(announcement("abc123", &["posts", "users"])) });
    assert_eq!(manager.client_id(), Some("abc123"));
}

#[test]
fn subscribe_after_handshake_announces_at_once() {
    let mut manager = manager();
    manager.on_message(&Event::new("message", r#"{"clientId":"c1"}"#));
    assert_eq!(manager.subscribe("posts", "a"), Some(announcement("c1", &["posts"])));
    assert_eq!(manager.subscribe("users", "b"), Some(announcement("c1", &["posts", "users"])));
}

#[test]
fn record_change_reaches_the_subscriptions_on_its_collection() {
    let mut manager = manager();
    manager.subscribe("posts", "a");
    manager.subscribe("users", "b");
    manager.subscribe("posts", "c");
    let payload = record_change("posts", "create");
    let reaction = manager.on_message(&Event::new("message", &payload));
    assert_eq!(reaction, Reaction::Dispatch { recipients: vec![0, 2], payload: payload.clone() });
    assert_eq!(manager.callback(0), Some(&"a"));
    assert_eq!(manager.callback(2), Some(&"c"));
    let payload = record_change("users", "update");
    let reaction = manager.on_message(&Event::new("message", &payload));
    assert_eq!(reaction, Reaction::Dispatch { recipients: vec![1], payload: payload.clone() });
}

#[test]
fn record_change_of_another_collection_reaches_no_one() {
    let mut manager = manager();
    manager.subscribe("posts", "a");
    let payload = record_change("users", "create");
    let reaction = manager.on_message(&Event::new("message", &payload));
    assert_eq!(reaction, Reaction::Dispatch { recipients: vec![], payload });
}

#[test]
fn every_action_is_passed_on() {
    let mut manager = manager();
    manager.subscribe("posts", "a");
    for action in ["create", "update", "delete"] {
        let payload = record_change("posts", action);
        let reaction = manager.on_message(&Event::new("message", &payload));
        assert_eq!(reaction, Reaction::Dispatch { recipients: vec![0], payload });
    }
}

#[test]
fn record_change_leaves_the_client_id_alone() {
    let mut manager = manager();
    manager.subscribe("posts", "a");
    manager.on_message(&Event::new("message", r#"{"clientId":"c1"}"#));
    manager.on_message(&Event::new("message", &record_change("posts", "create")));
    assert_eq!(manager.client_id(), Some("c1"));
}

#[test]
fn unrecognized_message_is_dropped() {
    let mut manager = manager();
    manager.subscribe("posts", "a");
    manager.on_message(&Event::new("message", r#"{"clientId":"c1"}"#));
    assert_eq!(manager.on_message(&Event::new("message", r#"{"ping":true}"#)), Reaction::Dropped);
    assert_eq!(manager.on_message(&Event::new("message", "not json")), Reaction::Dropped);
    assert_eq!(manager.on_message(&Event::new("message", "")), Reaction::Dropped);
    assert_eq!(manager.client_id(), Some("c1"));
    assert_eq!(manager.post_subscriptions(), Some(announcement("c1", &["posts"])));
}

#[test]
fn second_handshake_registers_again_under_the_new_id() {
    let mut manager = manager();
    manager.subscribe("posts", "a");
    manager.subscribe("users", "b");
    let first = manager.on_message(&Event::new("message", r#"{"clientId":"first"}"#));
    assert_eq!(first, Reaction::Announce { request: Some(announcement("first", &["posts", "users"])) });
    let second = manager.on_message(&Event::new("message", r#"{"clientId":"second"}"#));
    assert_eq!(second, Reaction::Announce { request: Some(announcement("second", &["posts", "users"])) });
    assert_eq!(manager.client_id(), Some("second"));
}

#[test]
fn handshake_never_dispatches() {
    let mut manager = manager();
    manager.subscribe("posts", "a");
    let both = r#"{"clientId":"abc123","record":{"collectionId":"c0","collectionName":"posts","created":"x","id":"r","updated":"y"},"action":"create"}"#;
    let reaction = manager.on_message(&Event::new("message", both));
    assert_eq!(reaction, Reaction::Announce { request: Some(announcement("abc123", &["posts"])) });
}

#[test]
fn connect_registers_one_handler() {
    let mut manager = manager();
    assert_eq!(manager.connect(Ok(())), Ok(()));
    assert!(manager.is_connected());
    assert_eq!(manager.connect(Ok(())), Ok(()));
    manager.subscribe("posts", "a");
    let reaction = manager.handle(TransportEvent::Message(Event::new("message", r#"{"clientId":"c1"}"#)));
    assert_eq!(reaction, Reaction::Announce { request: Some(announcement("c1", &["posts"])) });
}

#[test]
fn connect_again_ignores_the_transport() {
    let mut manager = manager();
    assert_eq!(manager.connect(Ok(())), Ok(()));
    assert_eq!(manager.connect(Err("refused".to_string())), Ok(()));
    assert!(manager.is_connected());
}

#[test]
fn refused_handler_leaves_the_manager_unconnected() {
    let mut manager = manager();
    assert_eq!(
        manager.connect(Err("refused".to_string())),
        Err(EventSourceError::Registration("refused".to_string()))
    );
    assert!(!manager.is_connected());
    assert_eq!(manager.connect(Ok(())), Ok(()));
    assert!(manager.is_connected());
}

#[test]
fn nothing_is_taken_in_before_connect() {
    let mut manager = manager();
    manager.subscribe("posts", "a");
    let reaction = manager.handle(TransportEvent::Message(Event::new("message", r#"{"clientId":"c1"}"#)));
    assert_eq!(reaction, Reaction::Dropped);
    assert_eq!(manager.client_id(), None);
}

#[test]
fn only_the_message_channel_is_taken_in() {
    let mut manager = manager();
    manager.connect(Ok(())).unwrap();
    let reaction = manager.handle(TransportEvent::Message(Event::new("posts", r#"{"clientId":"c1"}"#)));
    assert_eq!(reaction, Reaction::Dropped);
    assert_eq!(manager.handle(TransportEvent::Error("reset".to_string())), Reaction::Dropped);
    assert_eq!(manager.handle(TransportEvent::Opened), Reaction::Dropped);
    assert_eq!(manager.state(), ReadyState::Open);
    assert_eq!(manager.client_id(), None);
}

#[test]
fn transport_messages_are_dispatched() {
    let mut manager = manager();
    manager.connect(Ok(())).unwrap();
    manager.subscribe("posts", "a");
    manager.handle(TransportEvent::Opened);
    let payload = record_change("posts", "delete");
    let reaction = manager.handle(TransportEvent::Message(Event::new("message", &payload)));
    assert_eq!(reaction, Reaction::Dispatch { recipients: vec![0], payload });
}

#[test]
fn end_of_stream_clears_the_client_id() {
    let mut manager = manager();
    manager.connect(Ok(())).unwrap();
    manager.subscribe("posts", "a");
    manager.handle(TransportEvent::Message(Event::new("message", r#"{"clientId":"c1"}"#)));
    assert_eq!(manager.client_id(), Some("c1"));
    assert_eq!(manager.handle(TransportEvent::Closed), Reaction::Reset);
    assert_eq!(manager.client_id(), None);
    assert_eq!(manager.state(), ReadyState::Closed);
    assert_eq!(manager.post_subscriptions(), None);
    assert_eq!(manager.subscribe("users", "b"), None);
}

#[test]
fn nothing_is_taken_in_after_the_end_of_the_stream() {
    let mut manager = manager();
    manager.connect(Ok(())).unwrap();
    manager.subscribe("posts", "a");
    manager.handle(TransportEvent::Closed);
    let reaction = manager.handle(TransportEvent::Message(Event::new("message", r#"{"clientId":"c2"}"#)));
    assert_eq!(reaction, Reaction::Dropped);
    assert_eq!(manager.client_id(), None);
    assert_eq!(manager.handle(TransportEvent::Closed), Reaction::Dropped);
}

#[test]
fn end_of_stream_before_connect_is_dropped() {
    let mut manager = manager();
    manager.on_message(&Event::new("message", r#"{"clientId":"c1"}"#));
    assert_eq!(manager.handle(TransportEvent::Closed), Reaction::Dropped);
    assert_eq!(manager.client_id(), Some("c1"));
}

#[test]
fn notify_names_the_places_on_a_topic() {
    let mut manager = manager();
    manager.subscribe("posts", "a");
    manager.subscribe("users", "b");
    manager.subscribe("posts", "c");
    assert_eq!(manager.notify("posts"), vec![0, 2]);
    assert_eq!(manager.notify("users"), vec![1]);
    assert_eq!(manager.notify("comments"), Vec::<usize>::new());
    assert_eq!(manager.notify("post"), Vec::<usize>::new());
}

#[test]
fn callback_is_found_by_place() {
    let mut manager = manager();
    manager.subscribe("posts", "a");
    assert_eq!(manager.callback(0), Some(&"a"));
    assert_eq!(manager.callback(1), None);
}
