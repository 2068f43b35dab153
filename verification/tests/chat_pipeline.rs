use nexa_gateway::chat::{build_chat_payload, chat_content, complete, temperature_text};
use nexa_gateway::errors::ChatError;
use nexa_gateway::http::{HttpClient, HttpOutcome};
use nexa_gateway::log_ring::LogState;
use nexa_gateway::relay::RelaySlot;
use nexa_gateway::resolver::{ProviderKind, ServerTarget};

/// A transport that replays a script of outcomes and records every
/// call the pipeline makes.
struct ScriptClient {
    replies: Vec<HttpOutcome>,
    gets: usize,
    posts: usize,
    pauses: usize,
    urls: Vec<String>,
    bodies: Vec<String>,
}

impl ScriptClient {
    fn new(replies: Vec<HttpOutcome>) -> ScriptClient {
        ScriptClient { replies, gets: 0, posts: 0, pauses: 0, urls: Vec::new(), bodies: Vec::new() }
    }

    fn next_reply(&mut self) -> HttpOutcome {
        if self.replies.is_empty() {
            panic!("script exhausted");
        }
        self.replies.remove(0)
    }
}

impl HttpClient for ScriptClient {
    fn get(&mut self, url: &str, _timeout_ms: u64) -> HttpOutcome {
        self.gets += 1;
        self.urls.push(url.to_string());
        self.next_reply()
    }

    fn post_json(&mut self, url: &str, body: &str) -> HttpOutcome {
        self.posts += 1;
        self.urls.push(url.to_string());
        self.bodies.push(body.to_string());
        self.next_reply()
    }

    fn pause_between_attempts(&mut self) {
        self.pauses += 1;
    }
}

fn openai_target(url: &str) -> ServerTarget {
    ServerTarget { base_url: url.to_string(), kind: ProviderKind::OpenAICompatible }
}

fn ollama_target(url: &str) -> ServerTarget {
    ServerTarget { base_url: url.to_string(), kind: ProviderKind::Ollama }
}

fn ok_reply(body: &str) -> HttpOutcome {
    HttpOutcome::Response { status: 200, body: body.to_string() }
}

#[test]
fn retry_budget_spent_on_transport_errors() {
    let mut client = ScriptClient::new(vec![
        HttpOutcome::RequestFailure("e1".to_string()),
        HttpOutcome::RequestFailure("e2".to_string()),
        HttpOutcome::RequestFailure("e3".to_string()),
    ]);
    let mut log = LogState::new();
    let mut relay = RelaySlot::new();
    let r = complete(&mut client, &mut log, &mut relay, &openai_target("http://h:1234"), "m", "hi", None);
    assert_eq!(r, Err(ChatError::Transport("e3".to_string())));
    assert_eq!(client.posts, 3);
    assert_eq!(client.pauses, 2);
}

#[test]
fn server_errors_are_retried_and_last_error_surfaces() {
    let mut client = ScriptClient::new(vec![
        HttpOutcome::Response { status: 500, body: "a".to_string() },
        HttpOutcome::Response { status: 502, body: "b".to_string() },
        HttpOutcome::Response { status: 503, body: "c".to_string() },
    ]);
    let mut log = LogState::new();
    let mut relay = RelaySlot::new();
    let r = complete(&mut client, &mut log, &mut relay, &openai_target("http://h:1234"), "m", "hi", None);
    assert_eq!(r, Err(ChatError::Server { status: 503, body: "c".to_string() }));
    assert_eq!(client.posts, 3);
    assert_eq!(client.pauses, 2);
}

#[test]
fn no_retry_on_parse_failure() {
    let mut client = ScriptClient::new(vec![ok_reply("this is not json")]);
    let mut log = LogState::new();
    let mut relay = RelaySlot::new();
    let r = complete(&mut client, &mut log, &mut relay, &openai_target("http://h:1234"), "m", "hi", None);
    assert_eq!(r, Err(ChatError::MissingContent("this is not json".to_string())));
    assert_eq!(client.posts, 1);
    assert_eq!(client.pauses, 0);
}

#[test]
fn no_retry_on_missing_content_after_server_error() {
    let mut client = ScriptClient::new(vec![
        HttpOutcome::Response { status: 500, body: String::new() },
        ok_reply("{}"),
    ]);
    let mut log = LogState::new();
    let mut relay = RelaySlot::new();
    let r = complete(&mut client, &mut log, &mut relay, &openai_target("http://h:1234"), "m", "hi", None);
    assert_eq!(r, Err(ChatError::MissingContent("{}".to_string())));
    assert_eq!(client.posts, 2);
    assert_eq!(client.pauses, 1);
}

#[test]
fn client_construction_failure_is_fatal() {
    let mut client = ScriptClient::new(vec![HttpOutcome::ClientFailure("bad timeout".to_string())]);
    let mut log = LogState::new();
    let mut relay = RelaySlot::new();
    let r = complete(&mut client, &mut log, &mut relay, &openai_target("http://h:1234"), "m", "hi", None);
    assert_eq!(r, Err(ChatError::ClientConstruction("bad timeout".to_string())));
    assert_eq!(client.posts, 1);
    assert_eq!(client.pauses, 0);
}

#[test]
fn validation_short_circuit_empty_url() {
    let mut client = ScriptClient::new(vec![]);
    let mut log = LogState::new();
    let mut relay = RelaySlot::new();
    let r = complete(&mut client, &mut log, &mut relay, &openai_target(""), "m", "hi", None);
    assert_eq!(r, Err(ChatError::InvalidInput));
    assert_eq!(client.posts + client.gets, 0);
}

#[test]
fn validation_short_circuit_empty_model() {
    let mut client = ScriptClient::new(vec![]);
    let mut log = LogState::new();
    let mut relay = RelaySlot::new();
    let r = complete(&mut client, &mut log, &mut relay, &openai_target("url"), "", "hi", None);
    assert_eq!(r, Err(ChatError::InvalidInput));
    assert_eq!(client.posts + client.gets, 0);
}

#[test]
fn validation_short_circuit_empty_message() {
    let mut client = ScriptClient::new(vec![]);
    let mut log = LogState::new();
    let mut relay = RelaySlot::new();
    let r = complete(&mut client, &mut log, &mut relay, &openai_target("url"), "m", "", None);
    assert_eq!(r, Err(ChatError::InvalidInput));
    assert_eq!(client.posts + client.gets, 0);
}

#[test]
fn success_returns_ollama_shape_content() {
    let mut client = ScriptClient::new(vec![ok_reply("{\"message\":{\"content\":\"hello there\"}}")]);
    let mut log = LogState::new();
    let mut relay = RelaySlot::new();
    let r = complete(&mut client, &mut log, &mut relay, &ollama_target("http://h:11434"), "m", "hi", None);
    assert_eq!(r, Ok("hello there".to_string()));
    assert_eq!(client.posts, 1);
    assert_eq!(client.urls[0], "http://h:11434/api/chat");
}

#[test]
fn success_returns_openai_shape_content() {
    let body = "{\"choices\":[{\"message\":{\"content\":\"sure\"}}]}";
    let mut client = ScriptClient::new(vec![ok_reply(body)]);
    let mut log = LogState::new();
    let mut relay = RelaySlot::new();
    let r = complete(&mut client, &mut log, &mut relay, &openai_target("http://h:1234"), "m", "hi", None);
    assert_eq!(r, Ok("sure".to_string()));
    assert_eq!(client.urls[0], "http://h:1234/v1/chat/completions");
}

#[test]
fn retry_then_success() {
    let mut client = ScriptClient::new(vec![
        HttpOutcome::RequestFailure("down".to_string()),
        ok_reply("{\"message\":{\"content\":\"back\"}}"),
    ]);
    let mut log = LogState::new();
    let mut relay = RelaySlot::new();
    let r = complete(&mut client, &mut log, &mut relay, &ollama_target("http://h:11434"), "m", "hi", None);
    assert_eq!(r, Ok("back".to_string()));
    assert_eq!(client.posts, 2);
    assert_eq!(client.pauses, 1);
}

#[test]
fn empty_content_counts_as_missing() {
    let mut client = ScriptClient::new(vec![ok_reply("{\"message\":{\"content\":\"\"}}")]);
    let mut log = LogState::new();
    let mut relay = RelaySlot::new();
    let r = complete(&mut client, &mut log, &mut relay, &ollama_target("http://h:11434"), "m", "hi", None);
    assert_eq!(
        r,
        Err(ChatError::MissingContent("{\"message\":{\"content\":\"\"}}".to_string()))
    );
    assert_eq!(client.posts, 1);
}

#[test]
fn openai_payload_carries_default_temperature() {
    let mut client = ScriptClient::new(vec![ok_reply("{\"message\":{\"content\":\"x\"}}")]);
    let mut log = LogState::new();
    let mut relay = RelaySlot::new();
    let _ = complete(&mut client, &mut log, &mut relay, &openai_target("http://h:1234"), "m", "hi", None);
    assert_eq!(
        client.bodies[0],
        "{\"model\":\"m\",\"messages\":[{\"role\":\"user\",\"content\":\"hi\"}],\"temperature\":0.70,\"stream\":false}"
    );
}

#[test]
fn ollama_payload_omits_absent_temperature() {
    let payload = build_chat_payload("m", "hi", None, ProviderKind::Ollama);
    assert_eq!(
        payload,
        "{\"model\":\"m\",\"messages\":[{\"role\":\"user\",\"content\":\"hi\"}],\"stream\":false}"
    );
}

#[test]
fn ollama_payload_keeps_given_temperature() {
    let payload = build_chat_payload("m", "hi", Some(50), ProviderKind::Ollama);
    assert_eq!(
        payload,
        "{\"model\":\"m\",\"messages\":[{\"role\":\"user\",\"content\":\"hi\"}],\"temperature\":0.50,\"stream\":false}"
    );
}

#[test]
fn payload_escapes_message_text() {
    let payload = build_chat_payload("m", "a\"b\\c\nd", None, ProviderKind::Ollama);
    assert_eq!(
        payload,
        "{\"model\":\"m\",\"messages\":[{\"role\":\"user\",\"content\":\"a\\\"b\\\\c\\nd\"}],\"stream\":false}"
    );
}

#[test]
fn temperature_rendering() {
    assert_eq!(temperature_text(70), "0.70");
    assert_eq!(temperature_text(5), "0.05");
    assert_eq!(temperature_text(123), "1.23");
    assert_eq!(temperature_text(200), "2.00");
}

#[test]
fn chat_content_prefers_direct_message() {
    let body = "{\"message\":{\"content\":\"a\"},\"choices\":[{\"message\":{\"content\":\"b\"}}]}";
    assert_eq!(chat_content(body), Some("a".to_string()));
}

#[test]
fn chat_content_falls_back_to_first_choice() {
    let body = "{\"message\":{\"content\":\"\"},\"choices\":[{\"message\":{\"content\":\"b\"}}]}";
    assert_eq!(chat_content(body), Some("b".to_string()));
}

#[test]
fn chat_content_missing_everywhere() {
    assert_eq!(chat_content("{\"choices\":[]}"), None);
    assert_eq!(chat_content("not json"), None);
}

#[test]
fn success_publishes_chat_response_to_registered_listener() {
    let mut client = ScriptClient::new(vec![ok_reply("{\"message\":{\"content\":\"pong\"}}")]);
    let mut log = LogState::new();
    let mut relay = RelaySlot::new();
    relay.register(9);
    let r = complete(&mut client, &mut log, &mut relay, &ollama_target("http://h:11434"), "m", "ping", None);
    assert_eq!(r, Ok("pong".to_string()));
    let frames = relay.drain_outbox();
    assert_eq!(frames.len(), 1);
    assert_eq!(frames[0].connection, 9);
    let text = frames[0].text.as_str();
    assert!(text.starts_with("{\"type\":\"chat_response\",\"data\":{\"model\":\"m\",\"message\":\"ping\",\"response\":\"pong\",\"timestamp\":\""));
    assert!(text.ends_with("\"}}"));
}

#[test]
fn failure_publishes_nothing() {
    let mut client = ScriptClient::new(vec![
        HttpOutcome::RequestFailure("x".to_string()),
        HttpOutcome::RequestFailure("x".to_string()),
        HttpOutcome::RequestFailure("x".to_string()),
    ]);
    let mut log = LogState::new();
    let mut relay = RelaySlot::new();
    relay.register(4);
    let _ = complete(&mut client, &mut log, &mut relay, &ollama_target("http://h:11434"), "m", "hi", None);
    assert_eq!(relay.drain_outbox().len(), 0);
}

#[test]
fn chat_steps_are_logged_under_chat_tag() {
    let mut client = ScriptClient::new(vec![ok_reply("{\"message\":{\"content\":\"y\"}}")]);
    let mut log = LogState::new();
    let mut relay = RelaySlot::new();
    let _ = complete(&mut client, &mut log, &mut relay, &ollama_target("http://h:11434"), "m", "hi", None);
    let snap = log.snapshot();
    assert!(!snap.is_empty());
    assert!(snap.iter().all(|e| e.target == "chat"));
    assert_eq!(snap[0].message, "Sending chat request to http://h:11434/api/chat");
}
