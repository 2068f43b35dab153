//! The model directory: asks a resolved endpoint which models it
//! serves and decodes one of the two known response shapes. No
//! retries: a failure is reported, logged once, and handed back.

use vstd::prelude::*;
use vstd::string::*;

use crate::errors::{ProviderError, spec_provider_error_message};
use crate::http::{HttpClient, HttpOutcome, is_success_status, spec_success_status};
use crate::json_data::{decode_string_list, spec_decoded_string_list};
use crate::log_ring::{LogState, spec_logged};
use crate::resolver::{ProviderKind, ServerTarget, resolve_target, spec_models_url};
use crate::text::{spec_u64_string, u64_to_string};

verus! {

/// What a success body yields under the provider's model-list shape:
/// OpenAI-style bodies carry the names as the `id` of each record in
/// the `data` array, Ollama-style bodies as the `name` of each record
/// in the `models` array.
pub open spec fn spec_models_decoded(body: Seq<char>, kind: ProviderKind) -> Result<
    Seq<Seq<char>>,
    Seq<char>,
> {
    match kind {
        ProviderKind::OpenAICompatible => spec_decoded_string_list(body, "data"@, "id"@),
        ProviderKind::Ollama => spec_decoded_string_list(body, "models"@, "name"@),
    }
}

/// The directory's verdict on one HTTP outcome: which result a
/// model-list call returns for which reply.
pub open spec fn spec_models_classified(
    o: HttpOutcome,
    kind: ProviderKind,
    r: Result<Vec<String>, ProviderError>,
) -> bool {
    match o {
        HttpOutcome::ClientFailure(e) => r matches Err(ProviderError::ClientConstruction(m))
            && m@ == e@,
        HttpOutcome::RequestFailure(e) => r matches Err(ProviderError::Transport(m)) && m@ == e@,
        HttpOutcome::Response { status, body } => {
            if !spec_success_status(status) {
                r matches Err(ProviderError::Server(s)) && s == status
            } else {
                match spec_models_decoded(body@, kind) {
                    Ok(names) => r matches Ok(v) && v.deep_view() == names,
                    Err(msg) => r matches Err(ProviderError::Parse(m)) && m@ == msg,
                }
            }
        },
    }
}

/// Decodes a success body under the provider's model-list shape.
fn decode_models(body: &str, kind: ProviderKind) -> (r: Result<Vec<String>, String>)
    ensures
        match r {
            Ok(v) => spec_models_decoded(body@, kind) == Ok::<Seq<Seq<char>>, Seq<char>>(
                v.deep_view(),
            ),
            Err(e) => spec_models_decoded(body@, kind) == Err::<Seq<Seq<char>>, Seq<char>>(e@),
        },
{
    match kind {
        ProviderKind::OpenAICompatible => decode_string_list(body, "data", "id"),
        ProviderKind::Ollama => decode_string_list(body, "models", "name"),
    }
}

/// Turns one HTTP outcome into the model-list result: construction and
/// transport failures and non-success statuses are reported as they
/// are, a success body is decoded under the provider's shape, and a
/// body matching no shape is a parse error. Nothing is retried.
pub fn classify_models_reply(outcome: HttpOutcome, kind: ProviderKind) -> (r: Result<
    Vec<String>,
    ProviderError,
>)
    ensures
        spec_models_classified(outcome, kind, r),
{
    match outcome {
        HttpOutcome::ClientFailure(e) => Err(ProviderError::ClientConstruction(e)),
        HttpOutcome::RequestFailure(e) => Err(ProviderError::Transport(e)),
        HttpOutcome::Response { status, body } => {
            if !is_success_status(status) {
                Err(ProviderError::Server(status))
            } else {
                match decode_models(body.as_str(), kind) {
                    Ok(names) => Ok(names),
                    Err(msg) => Err(ProviderError::Parse(msg)),
                }
            }
        },
    }
}

/// The text of the log line each model-list outcome leaves behind.
pub open spec fn spec_models_outcome_message(r: &Result<Vec<String>, ProviderError>) -> Seq<
    char,
> {
    match r {
        Ok(v) => "Successfully fetched "@ + spec_u64_string(v@.len() as u64) + " models"@,
        Err(e) => spec_provider_error_message(e),
    }
}

/// Asks the target which models it serves.
///
/// Resolves the models endpoint, logs the attempt, issues one GET with
/// the given timeout, and classifies the reply per
/// [`spec_models_classified`]; every branch then logs its outcome,
/// tagged `server_check`. Fails with `Timestamp`, leaving the log
/// untouched, only when the opening log line itself could not be
/// stamped.
pub fn list_models<C: HttpClient>(
    client: &mut C,
    log: &mut LogState,
    target: &ServerTarget,
    timeout_ms: u64,
) -> (r: Result<Vec<String>, ProviderError>)
    requires
        old(log).wf(),
    ensures
        final(log).wf(),
        r matches Err(ProviderError::Timestamp) ==> final(log)@ == old(log)@,
        !(r matches Err(ProviderError::Timestamp)) ==> exists|o: HttpOutcome|
            #[trigger] spec_models_classified(o, target.kind, r),
        !(r matches Err(ProviderError::Timestamp)) ==> exists|mid: Seq<
            crate::log_ring::LogEntryView,
        >|
            {
                &&& #[trigger] spec_logged(
                    old(log)@,
                    mid,
                    "info"@,
                    "Checking server at "@ + spec_models_url(target.base_url@, target.kind),
                    "server_check"@,
                )
                &&& (final(log)@ == mid || spec_logged(
                    mid,
                    final(log)@,
                    if r is Ok {
                        "info"@
                    } else {
                        "error"@
                    },
                    spec_models_outcome_message(&r),
                    "server_check"@,
                ))
            },
{
    let endpoint = resolve_target(target);
    let mut opening = String::from_str("Checking server at ");
    opening.append(endpoint.models_url.as_str());
    if log.add_entry("info", opening.as_str(), "server_check").is_err() {
        return Err(ProviderError::Timestamp);
    }
    let ghost mid = log@;
    let outcome = client.get(endpoint.models_url.as_str(), timeout_ms);
    let ghost o = outcome;
    let r = classify_models_reply(outcome, target.kind);
    match &r {
        Ok(names) => {
            let mut m = String::from_str("Successfully fetched ");
            m.append(u64_to_string(names.len() as u64).as_str());
            m.append(" models");
            let _ = log.add_entry("info", m.as_str(), "server_check");
        },
        Err(e) => {
            let m = e.message();
            let _ = log.add_entry("error", m.as_str(), "server_check");
        },
    }
    proof {
        assert(spec_models_classified(o, target.kind, r));
    }
    r
}

} // verus!
