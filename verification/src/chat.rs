//! The chat-completion pipeline: input validation, provider-shaped
//! request payloads, bounded retries, and response-content extraction.
//! The transport performs each attempt; everything decided between
//! attempts is verified, and the whole call leaves a trace that the
//! retry laws are stated over.

use vstd::prelude::*;
use vstd::string::*;

use crate::errors::ChatError;
use crate::http::{HttpClient, HttpOutcome, is_success_status, spec_success_status};
use crate::json_data::{
    decode_string_at, decode_string_in_first, spec_decoded_string_at, spec_decoded_string_in_first,
};
use crate::log_ring::{
    LogEntryView, LogState, add_entry_best_effort, lemma_trail_refl, spec_log_trail, spec_logged,
};
use crate::relay::RelaySlot;
use crate::resolver::{ProviderKind, ServerTarget, resolve_target, spec_chat_url};
use crate::text::{append_json_string, spec_json_string, spec_u64_string, u64_to_string};

verus! {

/// Temperature applied to OpenAI-compatible requests when the caller
/// supplies none, in hundredths.
pub const DEFAULT_TEMPERATURE_CENTI: u32 = 70;

/// Total number of attempts a chat call may take: the first attempt
/// plus two retries.
pub const MAX_ATTEMPTS: u64 = 3;

/// A temperature in hundredths, rendered as a decimal with two
/// fractional digits: 70 becomes `0.70`.
pub open spec fn spec_temperature_text(centi: u32) -> Seq<char> {
    spec_u64_string((centi / 100) as u64) + seq![
        '.',
        crate::text::spec_digit(((centi % 100) / 10) as u64),
        crate::text::spec_digit((centi % 10) as u64),
    ]
}

/// Renders a temperature given in hundredths.
pub fn temperature_text(centi: u32) -> (r: String)
    ensures
        r@ == spec_temperature_text(centi),
{
    let mut out = u64_to_string((centi / 100) as u64);
    crate::text::push_char(&mut out, '.');
    let frac = centi % 100;
    let hi = frac / 10;
    let lo = centi % 10;
    proof {
        assert(hi < 10) by (nonlinear_arith)
            requires
                frac < 100,
                hi == frac / 10,
        ;
    }
    crate::text::push_char(&mut out, crate::text::digit_char(hi as u64));
    crate::text::push_char(&mut out, crate::text::digit_char(lo as u64));
    assert(out@ =~= spec_temperature_text(centi));
    out
}

/// The temperature field of the outbound payload, with the comma that
/// joins it to the fields before it. Ollama requests omit the field
/// when the caller gave no temperature, letting the server default
/// apply; OpenAI-compatible requests always carry one, defaulting to
/// [`DEFAULT_TEMPERATURE_CENTI`].
pub open spec fn spec_temperature_field(temp_centi: Option<u32>, kind: ProviderKind) -> Seq<char> {
    match kind {
        ProviderKind::Ollama => match temp_centi {
            Some(t) => ",\"temperature\":"@ + spec_temperature_text(t),
            None => Seq::<char>::empty(),
        },
        ProviderKind::OpenAICompatible => ",\"temperature\":"@ + spec_temperature_text(
            match temp_centi {
                Some(t) => t,
                None => DEFAULT_TEMPERATURE_CENTI,
            },
        ),
    }
}

/// The outbound chat request: one user message for the model, the
/// provider-shaped temperature field, and streaming switched off.
pub open spec fn spec_chat_payload(
    model: Seq<char>,
    message: Seq<char>,
    temp_centi: Option<u32>,
    kind: ProviderKind,
) -> Seq<char> {
    "{\"model\":"@ + spec_json_string(model)
        + ",\"messages\":[{\"role\":\"user\",\"content\":"@ + spec_json_string(message) + "}]"@
        + spec_temperature_field(temp_centi, kind) + ",\"stream\":false}"@
}

/// Builds the outbound chat request body.
pub fn build_chat_payload(
    model: &str,
    message: &str,
    temp_centi: Option<u32>,
    kind: ProviderKind,
) -> (r: String)
    ensures
        r@ == spec_chat_payload(model@, message@, temp_centi, kind),
{
    let mut out = String::from_str("{\"model\":");
    append_json_string(&mut out, model);
    out.append(",\"messages\":[{\"role\":\"user\",\"content\":");
    append_json_string(&mut out, message);
    out.append("}]");
    match kind {
        ProviderKind::Ollama => {
            match temp_centi {
                Some(t) => {
                    out.append(",\"temperature\":");
                    let tt = temperature_text(t);
                    out.append(tt.as_str());
                },
                None => {},
            }
        },
        ProviderKind::OpenAICompatible => {
            out.append(",\"temperature\":");
            let tt = temperature_text(
                match temp_centi {
                    Some(t) => t,
                    None => DEFAULT_TEMPERATURE_CENTI,
                },
            );
            out.append(tt.as_str());
        },
    }
    out.append(",\"stream\":false}");
    assert(out@ =~= spec_chat_payload(model@, message@, temp_centi, kind));
    out
}

/// The assistant text carried by a success body, under the unified
/// response schema: `message.content` (Ollama shape) when present and
/// non-empty, else `choices[0].message.content` (OpenAI shape) when
/// present and non-empty, else nothing.
pub open spec fn spec_chat_content(body: Seq<char>) -> Option<Seq<char>> {
    match spec_decoded_string_at(body, "message"@, "content"@) {
        Some(direct) => if direct.len() > 0 {
            Some(direct)
        } else {
            spec_nonempty(spec_decoded_string_in_first(body, "choices"@, "message"@, "content"@))
        },
        None => spec_nonempty(
            spec_decoded_string_in_first(body, "choices"@, "message"@, "content"@),
        ),
    }
}

/// Keeps a decoded string only when it is non-empty.
pub open spec fn spec_nonempty(s: Option<Seq<char>>) -> Option<Seq<char>> {
    match s {
        Some(t) => if t.len() > 0 {
            Some(t)
        } else {
            None
        },
        None => None,
    }
}

/// Extracts the assistant text from a success body.
pub fn chat_content(body: &str) -> (r: Option<String>)
    ensures
        match r {
            Some(s) => spec_chat_content(body@) == Some(s@) && s@.len() > 0,
            None => spec_chat_content(body@) is None,
        },
{
    match decode_string_at(body, "message", "content") {
        Some(direct) => {
            if direct.unicode_len() > 0 {
                return Some(direct);
            }
            nonempty_choice(body)
        },
        None => nonempty_choice(body),
    }
}

/// The OpenAI-shape fallback of [`chat_content`].
fn nonempty_choice(body: &str) -> (r: Option<String>)
    ensures
        match r {
            Some(s) => spec_nonempty(
                spec_decoded_string_in_first(body@, "choices"@, "message"@, "content"@),
            ) == Some(s@) && s@.len() > 0,
            None => spec_nonempty(
                spec_decoded_string_in_first(body@, "choices"@, "message"@, "content"@),
            ) is None,
        },
{
    match decode_string_in_first(body, "choices", "message", "content") {
        Some(s) => {
            if s.unicode_len() > 0 {
                Some(s)
            } else {
                None
            }
        },
        None => None,
    }
}

/// How one attempt ends: usable content, an error worth retrying, or
/// an error no retry can fix.
#[derive(Debug, PartialEq, Eq)]
pub enum AttemptOutcome {
    /// The attempt produced non-empty assistant text.
    Success(String),
    /// Transport failure or non-success status: a later attempt may
    /// fare better.
    Retryable(ChatError),
    /// Client construction failed or the body carried no content: a
    /// retry cannot fix it.
    Fatal(ChatError),
}

/// Whether a retry is allowed after this reply: only a request that
/// failed in transit or a non-success status.
pub open spec fn spec_retryable(o: HttpOutcome) -> bool {
    match o {
        HttpOutcome::ClientFailure(_) => false,
        HttpOutcome::RequestFailure(_) => true,
        HttpOutcome::Response { status, .. } => !spec_success_status(status),
    }
}

/// The chat pipeline's verdict on one HTTP reply.
pub open spec fn spec_attempt_classified(o: HttpOutcome, d: AttemptOutcome) -> bool {
    match o {
        HttpOutcome::ClientFailure(e) => d matches AttemptOutcome::Fatal(
            ChatError::ClientConstruction(m),
        ) && m@ == e@,
        HttpOutcome::RequestFailure(e) => d matches AttemptOutcome::Retryable(
            ChatError::Transport(m),
        ) && m@ == e@,
        HttpOutcome::Response { status, body } => {
            if !spec_success_status(status) {
                d matches AttemptOutcome::Retryable(ChatError::Server { status: s, body: b })
                    && s == status && b@ == body@
            } else {
                match spec_chat_content(body@) {
                    Some(c) => d matches AttemptOutcome::Success(s) && s@ == c,
                    None => d matches AttemptOutcome::Fatal(ChatError::MissingContent(b)) && b@
                        == body@,
                }
            }
        },
    }
}

/// Classifies one HTTP reply: transport failures and non-success
/// statuses may be retried; a constructed-client failure and a success
/// body without usable content end the call at once.
pub fn classify_chat_reply(outcome: HttpOutcome) -> (d: AttemptOutcome)
    ensures
        spec_attempt_classified(outcome, d),
{
    match outcome {
        HttpOutcome::ClientFailure(e) => AttemptOutcome::Fatal(ChatError::ClientConstruction(e)),
        HttpOutcome::RequestFailure(e) => AttemptOutcome::Retryable(ChatError::Transport(e)),
        HttpOutcome::Response { status, body } => {
            if !is_success_status(status) {
                AttemptOutcome::Retryable(ChatError::Server { status, body })
            } else {
                match chat_content(body.as_str()) {
                    Some(content) => AttemptOutcome::Success(content),
                    None => AttemptOutcome::Fatal(ChatError::MissingContent(body)),
                }
            }
        },
    }
}

/// What a chat call returns for the reply of its final attempt.
pub open spec fn spec_chat_result(o: HttpOutcome, r: Result<String, ChatError>) -> bool {
    match o {
        HttpOutcome::ClientFailure(e) => r matches Err(ChatError::ClientConstruction(m)) && m@
            == e@,
        HttpOutcome::RequestFailure(e) => r matches Err(ChatError::Transport(m)) && m@ == e@,
        HttpOutcome::Response { status, body } => {
            if !spec_success_status(status) {
                r matches Err(ChatError::Server { status: s, body: b }) && s == status && b@
                    == body@
            } else {
                match spec_chat_content(body@) {
                    Some(c) => r matches Ok(s) && s@ == c,
                    None => r matches Err(ChatError::MissingContent(b)) && b@ == body@,
                }
            }
        },
    }
}

/// The trace a finished chat call leaves: the replies of its attempts,
/// in order. Every attempt before the last came back retryable, a
/// retryable last reply means the budget of [`MAX_ATTEMPTS`] was
/// spent, and the call's result is the verdict on the last reply — in
/// particular, the error surfaced is the last one observed.
pub open spec fn spec_complete_trace(os: Seq<HttpOutcome>, r: Result<String, ChatError>) -> bool {
    &&& 1 <= os.len() <= MAX_ATTEMPTS
    &&& forall|i: int| 0 <= i < os.len() - 1 ==> spec_retryable(#[trigger] os[i])
    &&& (spec_retryable(os.last()) ==> os.len() == MAX_ATTEMPTS)
    &&& spec_chat_result(os.last(), r)
}

/// Whether all three required chat inputs are present.
pub open spec fn spec_valid_inputs(url: Seq<char>, model: Seq<char>, message: Seq<char>) -> bool {
    url.len() > 0 && model.len() > 0 && message.len() > 0
}

/// The audit trail a chat call leaves in the log: an opening entry
/// naming the resolved chat endpoint (absent only when the clock gave
/// it no stamp), followed by nothing but entries tagged `chat`.
pub open spec fn spec_chat_audit(
    pre: Seq<LogEntryView>,
    mid: Seq<LogEntryView>,
    post: Seq<LogEntryView>,
    url: Seq<char>,
    kind: ProviderKind,
) -> bool {
    &&& (spec_logged(
        pre,
        mid,
        "info"@,
        "Sending chat request to "@ + spec_chat_url(url, kind),
        "chat"@,
    ) || mid == pre)
    &&& spec_log_trail(mid, post, "chat"@)
}

/// Current time as an RFC 3339 text, for the mirrored event.
///
/// Relies on `chrono::Local::now` and `DateTime::to_rfc3339`, guarded
/// by `SystemTime::duration_since`: a clock standing before the epoch,
/// which `chrono` would refuse, yields an empty text instead, so the
/// event still goes out. The text depends on the clock and time zone,
/// so nothing is promised of it.
#[verifier::external_body]
fn now_rfc3339() -> (r: String) {
    match std::time::SystemTime::now().duration_since(std::time::UNIX_EPOCH) {
        Ok(_) => chrono::Local::now().to_rfc3339(),
        Err(_) => String::new(),
    }
}

/// Issues a chat completion against the target.
///
/// Empty inputs are rejected before anything else happens. Otherwise
/// the chat endpoint is resolved, the provider-shaped payload built,
/// and up to [`MAX_ATTEMPTS`] attempts posted, pausing between them;
/// the call leaves a trace per [`spec_complete_trace`], so retries
/// happen only on retryable replies and the surfaced error is the last
/// observed. On success the exchange is mirrored onto the relay when a
/// listener is registered; the steps are logged, tagged `chat`,
/// best-effort.
pub fn complete<C: HttpClient>(
    client: &mut C,
    log: &mut LogState,
    relay: &mut RelaySlot,
    target: &ServerTarget,
    model: &str,
    message: &str,
    temperature_centi: Option<u32>,
) -> (r: Result<String, ChatError>)
    requires
        old(log).wf(),
    ensures
        final(log).wf(),
        !spec_valid_inputs(target.base_url@, model@, message@) ==> {
            &&& r matches Err(ChatError::InvalidInput)
            &&& final(relay)@ == old(relay)@
            &&& final(log)@ == old(log)@
        },
        spec_valid_inputs(target.base_url@, model@, message@) ==> {
            &&& !(r matches Err(ChatError::InvalidInput))
            &&& exists|os: Seq<HttpOutcome>| #[trigger] spec_complete_trace(os, r)
            &&& (r matches Ok(c) ==> c@.len() > 0)
            &&& exists|mid: Seq<LogEntryView>|
                #[trigger] spec_chat_audit(
                    old(log)@,
                    mid,
                    final(log)@,
                    target.base_url@,
                    target.kind,
                )
        },
        match r {
            Ok(c) => match old(relay)@.current {
                Some(conn) => exists|ts: Seq<char>|
                    crate::relay::spec_queued(
                        old(relay)@,
                        final(relay)@,
                        conn,
                        #[trigger] crate::relay::spec_chat_event(model@, message@, c@, ts),
                    ),
                None => final(relay)@ == old(relay)@,
            },
            Err(_) => final(relay)@ == old(relay)@,
        },
{
    if target.base_url.as_str().unicode_len() == 0 || model.unicode_len() == 0
        || message.unicode_len() == 0 {
        return Err(ChatError::InvalidInput);
    }
    let endpoint = resolve_target(target);
    let payload = build_chat_payload(model, message, temperature_centi, target.kind);
    let mut opening = String::from_str("Sending chat request to ");
    opening.append(endpoint.chat_url.as_str());
    let opened = log.add_entry("info", opening.as_str(), "chat");
    let ghost mid0 = log@;
    proof {
        match opened {
            Ok(()) => {
                assert(spec_logged(
                    old(log)@,
                    mid0,
                    "info"@,
                    "Sending chat request to "@ + spec_chat_url(target.base_url@, target.kind),
                    "chat"@,
                ));
            },
            Err(_) => {},
        }
        lemma_trail_refl(mid0, "chat"@);
    }
    let mut attempt: u64 = 1;
    let ghost mut os: Seq<HttpOutcome> = Seq::empty();
    loop
        invariant
            1 <= attempt <= MAX_ATTEMPTS,
            os.len() == attempt - 1,
            forall|i: int| 0 <= i < os.len() ==> spec_retryable(#[trigger] os[i]),
            log.wf(),
            relay@ == old(relay)@,
            spec_valid_inputs(target.base_url@, model@, message@),
            spec_log_trail(mid0, log@, "chat"@),
            spec_logged(
                old(log)@,
                mid0,
                "info"@,
                "Sending chat request to "@ + spec_chat_url(target.base_url@, target.kind),
                "chat"@,
            ) || mid0 == old(log)@,
        decreases MAX_ATTEMPTS - attempt,
    {
        let outcome = client.post_json(endpoint.chat_url.as_str(), payload.as_str());
        let ghost o = outcome;
        match classify_chat_reply(outcome) {
            AttemptOutcome::Success(content) => {
                proof {
                    os = os.push(o);
                    assert(os.last() == o);
                    assert(spec_complete_trace(os, Ok(content)));
                }
                add_entry_best_effort(log, "info", "Chat completion succeeded", "chat", Ghost(mid0));
                let ts = now_rfc3339();
                let _delivered = relay.publish_chat_response(
                    model,
                    message,
                    content.as_str(),
                    ts.as_str(),
                );
                proof {
                    assert(spec_chat_audit(
                        old(log)@,
                        mid0,
                        log@,
                        target.base_url@,
                        target.kind,
                    ));
                }
                return Ok(content);
            },
            AttemptOutcome::Fatal(e) => {
                proof {
                    os = os.push(o);
                    assert(os.last() == o);
                    assert(spec_complete_trace(os, Err(e)));
                }
                let m = e.message();
                add_entry_best_effort(log, "error", m.as_str(), "chat", Ghost(mid0));
                proof {
                    assert(spec_chat_audit(
                        old(log)@,
                        mid0,
                        log@,
                        target.base_url@,
                        target.kind,
                    ));
                }
                return Err(e);
            },
            AttemptOutcome::Retryable(e) => {
                proof {
                    os = os.push(o);
                }
                let m = e.message();
                add_entry_best_effort(log, "error", m.as_str(), "chat", Ghost(mid0));
                if attempt == MAX_ATTEMPTS {
                    proof {
                        assert(os.last() == o);
                        assert(spec_complete_trace(os, Err(e)));
                        assert(spec_chat_audit(
                            old(log)@,
                            mid0,
                            log@,
                            target.base_url@,
                            target.kind,
                        ));
                    }
                    return Err(e);
                }
                client.pause_between_attempts();
                attempt = attempt + 1;
            },
        }
    }
}

/// Retry budget law: a call whose every attempt failed in transit took
/// exactly [`MAX_ATTEMPTS`] attempts and surfaced the transport error
/// of the final one.
pub proof fn lemma_retry_budget(os: Seq<HttpOutcome>, r: Result<String, ChatError>)
    requires
        spec_complete_trace(os, r),
        forall|i: int| 0 <= i < os.len() ==> (#[trigger] os[i]) is RequestFailure,
    ensures
        os.len() == MAX_ATTEMPTS,
        os.last() matches HttpOutcome::RequestFailure(e) && r matches Err(ChatError::Transport(m))
            && m@ == e@,
{
    assert(os[os.len() - 1] is RequestFailure);
    assert(spec_retryable(os.last()));
}

/// No retry on parse failure: a call whose first reply was a success
/// status with a body carrying no usable content stopped after that
/// single attempt and surfaced the body.
pub proof fn lemma_no_retry_on_parse_failure(os: Seq<HttpOutcome>, r: Result<
    String,
    ChatError,
>)
    requires
        spec_complete_trace(os, r),
        os[0] matches HttpOutcome::Response { status, body } && spec_success_status(status)
            && spec_chat_content(body@) is None,
    ensures
        os.len() == 1,
        os[0] matches HttpOutcome::Response { status, body } && r matches Err(
            ChatError::MissingContent(b),
        ) && b@ == body@,
{
    assert(!spec_retryable(os[0]));
    if os.len() > 1 {
        assert(spec_retryable(os[0]));
    }
    assert(os.last() == os[0]);
}

} // verus!
