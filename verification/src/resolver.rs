//! Endpoint resolution: turns a caller-supplied base URL and provider
//! kind into the concrete model-list and chat endpoints.
//!
//! The rules are pure text rewriting, so the same input always yields
//! the same endpoints; nothing here touches the network.

use vstd::prelude::*;
use vstd::string::*;

use crate::text::{
    contains_str, ends_with_str, find_str, spec_contains, spec_ends_with, spec_find,
};

verus! {

/// The class of model-serving HTTP API a target speaks.
#[derive(Clone, Copy, Debug, PartialEq, Eq, Structural)]
pub enum ProviderKind {
    /// OpenAI-style endpoints under `/v1` (LM Studio and friends).
    OpenAICompatible,
    /// Ollama-style endpoints under `/api`.
    Ollama,
}

/// A caller-supplied server to talk to: its base URL and the provider
/// family it was declared as.
pub struct ServerTarget {
    pub base_url: String,
    pub kind: ProviderKind,
}

/// The concrete URLs derived from a [`ServerTarget`].
pub struct ResolvedEndpoint {
    pub models_url: String,
    pub chat_url: String,
}

/// The base URL with a single trailing slash removed, if one is there.
pub open spec fn spec_normalized(u: Seq<char>) -> Seq<char> {
    if u.len() > 0 && u[u.len() - 1] == '/' {
        u.drop_last()
    } else {
        u
    }
}

/// The models endpoint for an OpenAI-compatible base URL: `/models`
/// under an explicit `/v1`, `/v1/models` when no `/v1` is anywhere in
/// the URL, and the URL unchanged when `/v1/` already occurs inside it.
pub open spec fn spec_openai_models_url(u: Seq<char>) -> Seq<char> {
    let n = spec_normalized(u);
    if spec_ends_with(n, "/v1"@) {
        n + "/models"@
    } else if !spec_contains(n, "/v1/"@) {
        n + "/v1/models"@
    } else {
        n
    }
}

/// The chat endpoint for an OpenAI-compatible base URL; mirrors
/// [`spec_openai_models_url`] with `/chat/completions`.
pub open spec fn spec_openai_chat_url(u: Seq<char>) -> Seq<char> {
    let n = spec_normalized(u);
    if spec_ends_with(n, "/v1"@) {
        n + "/chat/completions"@
    } else if !spec_contains(n, "/v1/"@) {
        n + "/v1/chat/completions"@
    } else {
        n
    }
}

/// The Ollama base: normalized, with one trailing `/api/tags` removed
/// so that a URL pasted from the models endpoint still resolves.
pub open spec fn spec_ollama_base(u: Seq<char>) -> Seq<char> {
    let n = spec_normalized(u);
    if spec_ends_with(n, "/api/tags"@) {
        n.take(n.len() - "/api/tags"@.len())
    } else {
        n
    }
}

/// The models endpoint for an Ollama base URL.
pub open spec fn spec_ollama_models_url(u: Seq<char>) -> Seq<char> {
    spec_ollama_base(u) + "/api/tags"@
}

/// The chat endpoint for an Ollama base URL.
pub open spec fn spec_ollama_chat_url(u: Seq<char>) -> Seq<char> {
    spec_ollama_base(u) + "/api/chat"@
}

/// The models endpoint for a base URL under the given provider kind.
pub open spec fn spec_models_url(u: Seq<char>, kind: ProviderKind) -> Seq<char> {
    match kind {
        ProviderKind::OpenAICompatible => spec_openai_models_url(u),
        ProviderKind::Ollama => spec_ollama_models_url(u),
    }
}

/// The chat endpoint for a base URL under the given provider kind.
pub open spec fn spec_chat_url(u: Seq<char>, kind: ProviderKind) -> Seq<char> {
    match kind {
        ProviderKind::OpenAICompatible => spec_openai_chat_url(u),
        ProviderKind::Ollama => spec_ollama_chat_url(u),
    }
}

/// The URL's `host:port` segment: what stands between the first `://`
/// and the next slash (the whole remainder when no slash follows; the
/// leading text up to the first slash when no scheme is given).
pub open spec fn spec_authority(u: Seq<char>) -> Seq<char> {
    let rest = match spec_find(u, "://"@) {
        Some(i) => u.skip(i + "://"@.len()),
        None => u,
    };
    match spec_find(rest, "/"@) {
        Some(j) => rest.take(j),
        None => rest,
    }
}

/// The provider kind read off the URL itself: the conventional Ollama
/// port number in the `host:port` segment marks an Ollama target. The
/// segment alone is searched, so a path that happens to contain the
/// digits does not change the provider.
pub open spec fn spec_inferred_kind(u: Seq<char>) -> ProviderKind {
    if spec_contains(spec_authority(u), "11434"@) {
        ProviderKind::Ollama
    } else {
        ProviderKind::OpenAICompatible
    }
}

/// Strips a single trailing slash.
fn normalized<'a>(s: &'a str) -> (r: &'a str)
    ensures
        r@ == spec_normalized(s@),
{
    let n = s.unicode_len();
    if n > 0 && s.get_char(n - 1) == '/' {
        let r = s.substring_char(0, n - 1);
        assert(r@ =~= s@.drop_last());
        r
    } else {
        s
    }
}

/// Derives both endpoints for a base URL under a provider kind. Pure:
/// equal inputs give equal endpoints, call after call.
pub fn resolve(base_url: &str, kind: ProviderKind) -> (r: ResolvedEndpoint)
    ensures
        r.models_url@ == spec_models_url(base_url@, kind),
        r.chat_url@ == spec_chat_url(base_url@, kind),
{
    let n = normalized(base_url);
    match kind {
        ProviderKind::OpenAICompatible => {
            if ends_with_str(n, "/v1") {
                ResolvedEndpoint {
                    models_url: String::from_str(n).concat("/models"),
                    chat_url: String::from_str(n).concat("/chat/completions"),
                }
            } else if !contains_str(n, "/v1/") {
                ResolvedEndpoint {
                    models_url: String::from_str(n).concat("/v1/models"),
                    chat_url: String::from_str(n).concat("/v1/chat/completions"),
                }
            } else {
                ResolvedEndpoint {
                    models_url: String::from_str(n),
                    chat_url: String::from_str(n),
                }
            }
        },
        ProviderKind::Ollama => {
            let len = n.unicode_len();
            let tags = "/api/tags";
            let tags_len = tags.unicode_len();
            let base = if ends_with_str(n, tags) {
                let b = n.substring_char(0, len - tags_len);
                assert(b@ =~= n@.take(n@.len() - "/api/tags"@.len()));
                b
            } else {
                n
            };
            ResolvedEndpoint {
                models_url: String::from_str(base).concat("/api/tags"),
                chat_url: String::from_str(base).concat("/api/chat"),
            }
        },
    }
}

/// Resolves a full [`ServerTarget`].
pub fn resolve_target(target: &ServerTarget) -> (r: ResolvedEndpoint)
    ensures
        r.models_url@ == spec_models_url(target.base_url@, target.kind),
        r.chat_url@ == spec_chat_url(target.base_url@, target.kind),
{
    resolve(target.base_url.as_str(), target.kind)
}

/// Cuts the `host:port` segment out of a URL.
fn authority_of<'a>(s: &'a str) -> (r: &'a str)
    ensures
        r@ == spec_authority(s@),
{
    let n = s.unicode_len();
    let sep = "://";
    let rest = match find_str(s, sep) {
        Some(i) => {
            proof {
                crate::text::lemma_find_is_first(s@, sep@);
            }
            let r = s.substring_char(i + sep.unicode_len(), n);
            assert(r@ =~= s@.skip(i + "://"@.len()));
            r
        },
        None => s,
    };
    match find_str(rest, "/") {
        Some(j) => {
            proof {
                crate::text::lemma_find_is_first(rest@, "/"@);
            }
            let r = rest.substring_char(0, j);
            assert(r@ =~= rest@.take(j as int));
            r
        },
        None => rest,
    }
}

/// Reads the provider kind off the URL when the caller did not declare
/// one.
pub fn infer_kind(base_url: &str) -> (r: ProviderKind)
    ensures
        r == spec_inferred_kind(base_url@),
{
    if contains_str(authority_of(base_url), "11434") {
        ProviderKind::Ollama
    } else {
        ProviderKind::OpenAICompatible
    }
}

/// Resolution is deterministic: identical inputs yield identical
/// endpoints, however often the derivation is repeated.
pub proof fn lemma_resolver_deterministic(
    u1: Seq<char>,
    k1: ProviderKind,
    u2: Seq<char>,
    k2: ProviderKind,
)
    requires
        u1 == u2,
        k1 == k2,
    ensures
        spec_models_url(u1, k1) == spec_models_url(u2, k2),
        spec_chat_url(u1, k1) == spec_chat_url(u2, k2),
{
}

} // verus!
