//! End-to-end tests of the connection core: lifecycle, correlation,
//! timeouts, the event buffer, and the wire format.

use ww_client::connection::{AwaitOutcome, GameConnection, RouteOutcome};
use ww_client::errors::ConnectionError;
use ww_client::events::EventBuffer;
use ww_client::facade::combined_reply;
use ww_client::json::{to_json, JsonValue};
use ww_client::wire::{format_msg_id, parse_msg_id};

fn obj(pairs: Vec<(&str, JsonValue)>) -> JsonValue {
    JsonValue::Obj(
        pairs
            .into_iter()
            .map(|(k, v)| (k.as_bytes().to_vec(), v))
            .collect(),
    )
}

fn text(s: &str) -> JsonValue {
    JsonValue::Text(s.as_bytes().to_vec())
}

fn connected() -> GameConnection {
    let mut conn = GameConnection::new(30);
    let (write_tx, _write_rx) = tokio::sync::mpsc::channel::<Vec<u8>>(64);
    let (shutdown_tx, _shutdown_rx) = tokio::sync::oneshot::channel::<()>();
    conn.connect(write_tx, shutdown_tx);
    conn
}

fn field_str(v: &JsonValue, name: &str) -> Option<String> {
    match v.get_field(name.as_bytes()) {
        Some(JsonValue::Text(b)) => Some(String::from_utf8(b.clone()).unwrap()),
        _ => None,
    }
}

#[test]
fn connection_starts_disconnected() {
    let conn = GameConnection::new(30);
    assert!(!conn.is_connected());
}

#[test]
fn send_command_while_disconnected_returns_error() {
    let mut conn = GameConnection::new(30);
    let result = conn.start_request(b"look", obj(vec![]));
    assert!(result.is_err());
    match result {
        Err(err) => assert!(matches!(err, ConnectionError::NotConnected)),
        Ok(_) => unreachable!(),
    }
}

#[test]
fn drain_empty_buffer() {
    let mut buffer = EventBuffer::new();
    let events = buffer.drain();
    assert!(events.is_empty());
}

#[test]
fn drain_returns_buffered_events() {
    let mut buffer = EventBuffer::new();
    buffer.push(obj(vec![
        ("type", text("event")),
        ("data", obj(vec![("event", text("player_entered"))])),
    ]));
    buffer.push(obj(vec![
        ("type", text("event")),
        ("data", obj(vec![("event", text("combat_update"))])),
    ]));
    let events = buffer.drain();
    assert_eq!(events.len(), 2);
}

#[test]
fn drain_caps_at_max_with_overflow_event() {
    let mut buffer = EventBuffer::new();
    for i in 0..250 {
        buffer.push(obj(vec![
            ("type", text("event")),
            ("data", obj(vec![("index", JsonValue::Num(i))])),
        ]));
    }
    let events = buffer.drain();
    // 200 real events + 1 overflow event
    assert_eq!(events.len(), 201);

    let last = events.last().expect("should have events");
    let data = match last.get_field(b"data") {
        Some(d) => d,
        None => panic!("marker should carry data"),
    };
    assert_eq!(field_str(data, "event").as_deref(), Some("events_overflow"));
    assert_eq!(
        field_str(data, "message").as_deref(),
        Some("50 events were dropped due to buffer overflow")
    );
}

#[test]
fn drain_at_exact_capacity_has_no_marker() {
    let mut buffer = EventBuffer::new();
    for i in 0..200 {
        buffer.push(JsonValue::Num(i));
    }
    let events = buffer.drain();
    // nothing was discarded, so no overflow marker is appended
    assert_eq!(events.len(), 200);
    assert!(matches!(events.last(), Some(JsonValue::Num(199))));
}

#[test]
fn drain_keeps_enqueue_order_without_marker() {
    let mut buffer = EventBuffer::new();
    for i in 0..5 {
        buffer.push(JsonValue::Num(i));
    }
    let events = buffer.drain();
    assert_eq!(events.len(), 5);
    for (i, e) in events.iter().enumerate() {
        assert!(matches!(e, JsonValue::Num(n) if *n == i as i64));
    }
    // a second drain starts from an empty buffer
    assert!(buffer.drain().is_empty());
}

#[test]
fn disconnect_is_idempotent() {
    let mut conn = GameConnection::new(30);
    let (w, s) = conn.disconnect();
    assert!(w.is_none() && s.is_none());
    assert!(!conn.is_connected());

    let mut conn = connected();
    assert!(conn.is_connected());
    let (w, s) = conn.disconnect();
    assert!(w.is_some() && s.is_some());
    assert!(!conn.is_connected());
    let (w, s) = conn.disconnect();
    assert!(w.is_none() && s.is_none());
    assert!(!conn.is_connected());
}

#[test]
fn responses_resolve_their_own_request() {
    let mut conn = connected();
    let mut first = conn
        .start_request(b"look", obj(vec![]))
        .expect("connected handle accepts requests");
    let mut second = conn
        .start_request(b"move", obj(vec![("direction", text("north"))]))
        .expect("connected handle accepts requests");
    assert_ne!(first.id, second.id);

    // Respond out of order: the second request's response first.
    let second_id = String::from_utf8(format_msg_id(second.id)).unwrap();
    let reply_two = obj(vec![("id", text(&second_id)), ("value", JsonValue::Num(2))]);
    let outcome = conn.route_inbound(reply_two);
    assert!(matches!(outcome, RouteOutcome::Resolved { id, .. } if id == second.id));

    let first_id = String::from_utf8(format_msg_id(first.id)).unwrap();
    let reply_one = obj(vec![("id", text(&first_id)), ("value", JsonValue::Num(1))]);
    let outcome = conn.route_inbound(reply_one);
    assert!(matches!(outcome, RouteOutcome::Resolved { id, .. } if id == first.id));

    // Each receiver observes exactly the response carrying its id.
    let got_first = first.rx.try_recv().expect("first slot resolved");
    assert_eq!(field_str(&got_first, "id").unwrap(), first_id);
    let got_second = second.rx.try_recv().expect("second slot resolved");
    assert_eq!(field_str(&got_second, "id").unwrap(), second_id);
}

#[test]
fn timeout_removes_entry_and_late_response_is_a_notification() {
    let mut conn = connected();
    let st = conn
        .start_request(b"look", obj(vec![]))
        .expect("connected handle accepts requests");
    let id_text = String::from_utf8(format_msg_id(st.id)).unwrap();

    let result = conn.finish_request(st.id, AwaitOutcome::TimedOut);
    assert!(matches!(result, Err(ConnectionError::Timeout { secs: 30 })));

    // The same id arriving late resolves nothing: it comes back as a
    // notification, unchanged.
    let late = obj(vec![("id", text(&id_text)), ("value", JsonValue::Num(7))]);
    match conn.route_inbound(late) {
        RouteOutcome::Notification(v) => {
            assert_eq!(field_str(&v, "id").unwrap(), id_text);
        }
        RouteOutcome::Resolved { .. } => panic!("late response must not resolve"),
    }
}

#[test]
fn closed_channel_reports_channel_closed() {
    let mut conn = connected();
    let st = conn
        .start_request(b"look", obj(vec![]))
        .expect("connected handle accepts requests");
    let result = conn.finish_request(st.id, AwaitOutcome::Closed);
    assert!(matches!(result, Err(ConnectionError::ChannelClosed)));
}

#[test]
fn response_passes_through_unchanged() {
    let mut conn = connected();
    let st = conn
        .start_request(b"look", obj(vec![]))
        .expect("connected handle accepts requests");
    let body = obj(vec![("status", text("ok"))]);
    let result = conn
        .finish_request(st.id, AwaitOutcome::Responded(body))
        .expect("responded outcome is a success");
    assert_eq!(field_str(&result, "status").as_deref(), Some("ok"));
}

#[test]
fn message_without_id_is_a_notification() {
    let mut conn = connected();
    let push = obj(vec![("event", text("player_entered"))]);
    match conn.route_inbound(push) {
        RouteOutcome::Notification(v) => {
            assert_eq!(field_str(&v, "event").as_deref(), Some("player_entered"));
        }
        RouteOutcome::Resolved { .. } => panic!("no id means notification"),
    }
}

#[test]
fn msg_id_round_trip() {
    for n in [1u64, 9, 10, 42, 1000, 123_456_789, u64::MAX] {
        let bytes = format_msg_id(n);
        assert_eq!(parse_msg_id(&bytes), Some(n));
    }
    assert_eq!(String::from_utf8(format_msg_id(7)).unwrap(), "msg-7");
    assert_eq!(parse_msg_id(b"msg-007"), None); // not a minted form
    assert_eq!(parse_msg_id(b"msg-"), None);
    assert_eq!(parse_msg_id(b"msg-12x"), None);
    assert_eq!(parse_msg_id(b"other-12"), None);
    assert_eq!(parse_msg_id(b"msg-99999999999999999999999"), None); // too large
}

#[test]
fn envelope_round_trips_through_a_real_json_parser() {
    let mut conn = connected();
    // A payload with nested objects, arrays and numbers.
    let params = obj(vec![
        ("nested", obj(vec![("deep", JsonValue::Arr(vec![
            JsonValue::Num(1),
            JsonValue::Num(-2),
            JsonValue::Null,
            JsonValue::Bool(true),
            text("quote\"back\\slash"),
        ]))])),
        ("count", JsonValue::Num(9_007_199_254_740_993)),
    ]);
    let st = conn
        .start_request(b"attack", params)
        .expect("connected handle accepts requests");

    let parsed: serde_json::Value =
        serde_json::from_slice(&st.frame).expect("frame is valid JSON");
    assert_eq!(parsed["id"], serde_json::Value::String(format!("msg-{}", st.id)));
    assert_eq!(parsed["action"], serde_json::Value::String("attack".to_owned()));
    let p = &parsed["params"];
    let deep = &p["nested"]["deep"];
    assert_eq!(deep[0], serde_json::Value::Number(1.into()));
    assert_eq!(deep[1], serde_json::Value::Number((-2).into()));
    assert_eq!(deep[2], serde_json::Value::Null);
    assert_eq!(deep[3], serde_json::Value::Bool(true));
    assert_eq!(
        deep[4],
        serde_json::Value::String("quote\"back\\slash".to_owned())
    );
    assert_eq!(
        p["count"],
        serde_json::Value::Number(9_007_199_254_740_993i64.into())
    );
}

#[test]
fn serializer_emits_exact_text() {
    let v = obj(vec![
        ("a", JsonValue::Arr(vec![
            JsonValue::Num(1),
            JsonValue::Num(-2),
            JsonValue::Null,
            JsonValue::Bool(false),
            text("x\"y"),
        ])),
    ]);
    let bytes = to_json(&v);
    assert_eq!(
        String::from_utf8(bytes).unwrap(),
        "{\"a\":[1,-2,null,false,\"x\\\"y\"]}"
    );
    let tab = JsonValue::Text(vec![9u8]);
    assert_eq!(String::from_utf8(to_json(&tab)).unwrap(), "\"\\u0009\"");
}

#[test]
fn combined_reply_holds_result_and_events() {
    let reply = combined_reply(
        obj(vec![("status", text("ok"))]),
        vec![text("event-one"), text("event-two")],
    );
    let result = reply.get_field(b"result").expect("result field present");
    assert_eq!(field_str(result, "status").as_deref(), Some("ok"));
    match reply.get_field(b"events") {
        Some(JsonValue::Arr(evs)) => assert_eq!(evs.len(), 2),
        _ => panic!("events field must be an array"),
    }
}

#[test]
fn get_field_finds_first_match_only_on_objects() {
    let v = obj(vec![("k", JsonValue::Num(1)), ("k", JsonValue::Num(2))]);
    assert!(matches!(v.get_field(b"k"), Some(JsonValue::Num(1))));
    assert!(v.get_field(b"missing").is_none());
    assert!(JsonValue::Null.get_field(b"k").is_none());
    assert!(JsonValue::Arr(vec![]).get_field(b"k").is_none());
}

#[test]
fn reconnect_after_disconnect_works() {
    let mut conn = connected();
    let (_w, _s) = conn.disconnect();
    assert!(!conn.is_connected());
    let (write_tx, _write_rx) = tokio::sync::mpsc::channel::<Vec<u8>>(64);
    let (shutdown_tx, _shutdown_rx) = tokio::sync::oneshot::channel::<()>();
    conn.connect(write_tx, shutdown_tx);
    assert!(conn.is_connected());
    let st = conn
        .start_request(b"look", obj(vec![]))
        .expect("reconnected handle accepts requests");
    assert!(st.id >= 1);
}
