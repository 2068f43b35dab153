use nexa_gateway::errors::ChatError;
use nexa_gateway::log_ring::{LogState, LOG_CAPACITY};
use nexa_gateway::relay::{build_chat_event, echo_reply, RelaySlot, RouteOutcome};
use nexa_gateway::system::SystemState;
use nexa_gateway::text::u64_to_string;

#[test]
fn ring_keeps_exactly_the_last_thousand() {
    let mut log = LogState::new();
    let total = LOG_CAPACITY + 5;
    for i in 0..total {
        log.add_entry_at("info", &format!("m{}", i), "t", format!("ts{}", i));
    }
    let snap = log.snapshot();
    assert_eq!(snap.len(), LOG_CAPACITY);
    assert_eq!(snap[0].message, format!("m{}", total - LOG_CAPACITY));
    assert_eq!(snap[LOG_CAPACITY - 1].message, format!("m{}", total - 1));
}

#[test]
fn ring_below_capacity_keeps_everything_in_order() {
    let mut log = LogState::new();
    for i in 0..10 {
        log.add_entry_at("debug", &format!("m{}", i), "t", String::new());
    }
    let snap = log.snapshot();
    assert_eq!(snap.len(), 10);
    for (i, e) in snap.iter().enumerate() {
        assert_eq!(e.message, format!("m{}", i));
        assert_eq!(e.level, "debug");
        assert_eq!(e.target, "t");
    }
}

#[test]
fn ring_at_boundary() {
    let mut log = LogState::new();
    for i in 0..LOG_CAPACITY {
        log.add_entry_at("info", &format!("m{}", i), "t", String::new());
    }
    assert_eq!(log.snapshot().len(), LOG_CAPACITY);
    log.add_entry_at("info", "one more", "t", String::new());
    let snap = log.snapshot();
    assert_eq!(snap.len(), LOG_CAPACITY);
    assert_eq!(snap[0].message, "m1");
    assert_eq!(snap[LOG_CAPACITY - 1].message, "one more");
}

#[test]
fn clear_empties_the_ring() {
    let mut log = LogState::new();
    log.add_entry_at("info", "a", "t", String::new());
    log.clear();
    assert_eq!(log.snapshot().len(), 0);
    assert_eq!(log.len(), 0);
}

#[test]
fn stamped_append_uses_the_clock() {
    let mut log = LogState::new();
    let r = log.add_entry("warn", "careful", "system");
    assert!(r.is_ok());
    let snap = log.snapshot();
    assert_eq!(snap.len(), 1);
    assert_eq!(snap[0].level, "warn");
    assert_eq!(snap[0].message, "careful");
    assert_eq!(snap[0].target, "system");
    // "%Y-%m-%d %H:%M:%S" renders to nineteen characters.
    assert_eq!(snap[0].timestamp.len(), 19);
}

#[test]
fn snapshot_is_a_copy() {
    let mut log = LogState::new();
    log.add_entry_at("info", "kept", "t", String::new());
    let snap = log.snapshot();
    log.clear();
    assert_eq!(snap.len(), 1);
    assert_eq!(snap[0].message, "kept");
}

#[test]
fn counter_floor_at_zero() {
    let mut s = SystemState::new();
    assert_eq!(s.get_connections(), 0);
    s.decrement_connections();
    assert_eq!(s.get_connections(), 0);
}

#[test]
fn counter_counts_sessions() {
    let mut s = SystemState::new();
    s.increment_connections();
    s.increment_connections();
    assert_eq!(s.get_connections(), 2);
    s.decrement_connections();
    assert_eq!(s.get_connections(), 1);
    s.decrement_connections();
    s.decrement_connections();
    assert_eq!(s.get_connections(), 0);
}

#[test]
fn uptime_starts_at_zero_and_never_decreases() {
    let mut s = SystemState::new();
    assert_eq!(s.get_uptime(), 0);
    let first = s.get_uptime();
    let second = s.get_uptime();
    assert!(second >= first);
    assert!(second < 10);
}

#[test]
fn relay_single_slot_rebroadcast() {
    let mut relay = RelaySlot::new();
    relay.register(1);
    relay.register(2);
    let frame = "{\"type\":\"node_output\",\"data\":{\"x\":1}}";
    let r = relay.route_frame(frame);
    assert_eq!(r, RouteOutcome::Rebroadcast);
    let frames = relay.drain_outbox();
    assert_eq!(frames.len(), 1);
    assert_eq!(frames[0].connection, 2);
    assert_eq!(frames[0].text, frame);
}

#[test]
fn relay_without_listener_drops_node_output() {
    let mut relay = RelaySlot::new();
    let r = relay.route_frame("{\"type\":\"node_output\"}");
    assert_eq!(r, RouteOutcome::NoListener);
    assert_eq!(relay.drain_outbox().len(), 0);
}

#[test]
fn relay_reports_unknown_types() {
    let mut relay = RelaySlot::new();
    relay.register(3);
    let r = relay.route_frame("{\"type\":\"mystery\"}");
    assert_eq!(r, RouteOutcome::Unknown("mystery".to_string()));
    assert_eq!(relay.drain_outbox().len(), 0);
}

#[test]
fn relay_ignores_untyped_text() {
    let mut relay = RelaySlot::new();
    relay.register(3);
    assert_eq!(relay.route_frame("not json"), RouteOutcome::NotEvent);
    assert_eq!(relay.route_frame("{\"data\":1}"), RouteOutcome::NotEvent);
    assert_eq!(relay.route_frame("{\"type\":5}"), RouteOutcome::NotEvent);
    assert_eq!(relay.drain_outbox().len(), 0);
}

#[test]
fn chat_event_shape() {
    let e = build_chat_event("m", "q\"x", "a", "2024-01-01T00:00:00+00:00");
    assert_eq!(
        e,
        "{\"type\":\"chat_response\",\"data\":{\"model\":\"m\",\"message\":\"q\\\"x\",\"response\":\"a\",\"timestamp\":\"2024-01-01T00:00:00+00:00\"}}"
    );
}

#[test]
fn echo_reply_shape() {
    assert_eq!(
        echo_reply("2020-01-01 00:00:00", "ping"),
        "Received at 2020-01-01 00:00:00: ping"
    );
}

#[test]
fn decimal_rendering() {
    assert_eq!(u64_to_string(0), "0");
    assert_eq!(u64_to_string(7), "7");
    assert_eq!(u64_to_string(12345), "12345");
    assert_eq!(u64_to_string(1000), "1000");
}

#[test]
fn chat_error_messages() {
    assert_eq!(
        ChatError::InvalidInput.message(),
        "Server URL, model and message must not be empty"
    );
    assert_eq!(
        ChatError::Server { status: 418, body: String::new() }.message(),
        "Server returned error: 418"
    );
    assert_eq!(
        ChatError::MissingContent("junk".to_string()).message(),
        "Invalid response format"
    );
}
