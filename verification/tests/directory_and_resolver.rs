use nexa_gateway::directory::{classify_models_reply, list_models};
use nexa_gateway::errors::ProviderError;
use nexa_gateway::http::{HttpClient, HttpOutcome};
use nexa_gateway::log_ring::LogState;
use nexa_gateway::resolver::{infer_kind, resolve, ProviderKind, ServerTarget};

struct OneShotClient {
    reply: Option<HttpOutcome>,
    gets: usize,
    urls: Vec<String>,
    timeouts: Vec<u64>,
}

impl OneShotClient {
    fn new(reply: HttpOutcome) -> OneShotClient {
        OneShotClient { reply: Some(reply), gets: 0, urls: Vec::new(), timeouts: Vec::new() }
    }
}

impl HttpClient for OneShotClient {
    fn get(&mut self, url: &str, timeout_ms: u64) -> HttpOutcome {
        self.gets += 1;
        self.urls.push(url.to_string());
        self.timeouts.push(timeout_ms);
        self.reply.take().expect("a single GET was expected")
    }

    fn post_json(&mut self, _url: &str, _body: &str) -> HttpOutcome {
        panic!("the directory never posts");
    }

    fn pause_between_attempts(&mut self) {
        panic!("the directory never retries");
    }
}

#[test]
fn resolver_examples() {
    let r = resolve("http://host:1234/v1", ProviderKind::OpenAICompatible);
    assert_eq!(r.models_url, "http://host:1234/v1/models");
    assert_eq!(r.chat_url, "http://host:1234/v1/chat/completions");

    let r = resolve("http://host:1234", ProviderKind::OpenAICompatible);
    assert_eq!(r.models_url, "http://host:1234/v1/models");
    assert_eq!(r.chat_url, "http://host:1234/v1/chat/completions");

    let r = resolve("http://host:11434/", ProviderKind::Ollama);
    assert_eq!(r.models_url, "http://host:11434/api/tags");
    assert_eq!(r.chat_url, "http://host:11434/api/chat");
}

#[test]
fn resolver_is_deterministic() {
    let a = resolve("http://host:1234/v1/", ProviderKind::OpenAICompatible);
    let b = resolve("http://host:1234/v1/", ProviderKind::OpenAICompatible);
    assert_eq!(a.models_url, b.models_url);
    assert_eq!(a.chat_url, b.chat_url);
}

#[test]
fn resolver_leaves_inner_v1_urls_alone() {
    let r = resolve("http://host/v1/proxy", ProviderKind::OpenAICompatible);
    assert_eq!(r.models_url, "http://host/v1/proxy");
    assert_eq!(r.chat_url, "http://host/v1/proxy");
}

#[test]
fn resolver_strips_pasted_tags_endpoint() {
    let r = resolve("http://host:11434/api/tags", ProviderKind::Ollama);
    assert_eq!(r.models_url, "http://host:11434/api/tags");
    assert_eq!(r.chat_url, "http://host:11434/api/chat");
}

#[test]
fn kind_inference_by_port() {
    assert_eq!(infer_kind("http://localhost:11434"), ProviderKind::Ollama);
    assert_eq!(infer_kind("http://localhost:11434/"), ProviderKind::Ollama);
    assert_eq!(infer_kind("localhost:11434"), ProviderKind::Ollama);
    assert_eq!(infer_kind("http://localhost:1234/v1"), ProviderKind::OpenAICompatible);
}

#[test]
fn kind_inference_ignores_the_path() {
    // The digits in the path do not make an Ollama target: only the
    // host:port segment is searched.
    assert_eq!(infer_kind("http://myhost:8080/x11434"), ProviderKind::OpenAICompatible);
    assert_eq!(infer_kind("http://myhost:8080/v1/11434"), ProviderKind::OpenAICompatible);
}

#[test]
fn openai_model_list_is_decoded() {
    let body = "{\"data\":[{\"id\":\"m1\",\"object\":\"model\"},{\"id\":\"m2\"}],\"object\":\"list\"}";
    let reply = HttpOutcome::Response { status: 200, body: body.to_string() };
    let r = classify_models_reply(reply, ProviderKind::OpenAICompatible);
    assert_eq!(r, Ok(vec!["m1".to_string(), "m2".to_string()]));
}

#[test]
fn ollama_model_list_is_decoded() {
    let body = "{\"models\":[{\"name\":\"llama\",\"size\":42},{\"name\":\"phi\"}]}";
    let reply = HttpOutcome::Response { status: 200, body: body.to_string() };
    let r = classify_models_reply(reply, ProviderKind::Ollama);
    assert_eq!(r, Ok(vec!["llama".to_string(), "phi".to_string()]));
}

#[test]
fn wrong_shape_is_a_parse_error() {
    let body = "{\"models\":[{\"name\":\"llama\"}]}";
    let reply = HttpOutcome::Response { status: 200, body: body.to_string() };
    match classify_models_reply(reply, ProviderKind::OpenAICompatible) {
        Err(ProviderError::Parse(msg)) => assert!(msg.contains("data")),
        other => panic!("expected a parse error, got {:?}", other),
    }
}

#[test]
fn invalid_json_reports_decoder_message() {
    let reply = HttpOutcome::Response { status: 200, body: "nope".to_string() };
    match classify_models_reply(reply, ProviderKind::Ollama) {
        Err(ProviderError::Parse(msg)) => assert!(!msg.is_empty()),
        other => panic!("expected a parse error, got {:?}", other),
    }
}

#[test]
fn non_success_status_is_a_server_error() {
    let reply = HttpOutcome::Response { status: 503, body: "busy".to_string() };
    let r = classify_models_reply(reply, ProviderKind::OpenAICompatible);
    assert_eq!(r, Err(ProviderError::Server(503)));
}

#[test]
fn transport_failure_is_reported() {
    let reply = HttpOutcome::RequestFailure("connection refused".to_string());
    let r = classify_models_reply(reply, ProviderKind::Ollama);
    assert_eq!(r, Err(ProviderError::Transport("connection refused".to_string())));
}

#[test]
fn client_failure_is_reported() {
    let reply = HttpOutcome::ClientFailure("bad builder".to_string());
    let r = classify_models_reply(reply, ProviderKind::Ollama);
    assert_eq!(r, Err(ProviderError::ClientConstruction("bad builder".to_string())));
}

#[test]
fn list_models_resolves_logs_and_returns() {
    let body = "{\"data\":[{\"id\":\"m1\"}]}";
    let mut client = OneShotClient::new(HttpOutcome::Response { status: 200, body: body.to_string() });
    let mut log = LogState::new();
    let target = ServerTarget {
        base_url: "http://host:1234".to_string(),
        kind: ProviderKind::OpenAICompatible,
    };
    let r = list_models(&mut client, &mut log, &target, 5000);
    assert_eq!(r, Ok(vec!["m1".to_string()]));
    assert_eq!(client.gets, 1);
    assert_eq!(client.urls[0], "http://host:1234/v1/models");
    assert_eq!(client.timeouts[0], 5000);
    let snap = log.snapshot();
    assert_eq!(snap.len(), 2);
    assert!(snap.iter().all(|e| e.target == "server_check"));
    assert_eq!(snap[0].message, "Checking server at http://host:1234/v1/models");
    assert_eq!(snap[0].level, "info");
    assert_eq!(snap[1].message, "Successfully fetched 1 models");
}

#[test]
fn list_models_failure_is_logged_once() {
    let mut client = OneShotClient::new(HttpOutcome::Response { status: 404, body: String::new() });
    let mut log = LogState::new();
    let target = ServerTarget {
        base_url: "http://host:11434".to_string(),
        kind: ProviderKind::Ollama,
    };
    let r = list_models(&mut client, &mut log, &target, 3000);
    assert_eq!(r, Err(ProviderError::Server(404)));
    let snap = log.snapshot();
    assert_eq!(snap.len(), 2);
    assert_eq!(snap[1].level, "error");
    assert_eq!(snap[1].message, "Server returned error: 404");
}

#[test]
fn provider_error_messages() {
    assert_eq!(ProviderError::Server(500).message(), "Server returned error: 500");
    assert_eq!(
        ProviderError::Transport("x".to_string()).message(),
        "Request failed: x"
    );
    assert_eq!(
        ProviderError::ClientConstruction("y".to_string()).message(),
        "Failed to create HTTP client: y"
    );
    assert_eq!(
        ProviderError::Parse("z".to_string()).message(),
        "Failed to parse response: z"
    );
    assert_eq!(ProviderError::Timestamp.message(), "Failed to read the clock");
}
