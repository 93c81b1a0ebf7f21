//! Readiness of the local LLM service used for transcript post-processing.
//!
//! Starting the server, probing it and pulling models are outside work; the
//! decisions between those steps — when to start, when to give up, when a
//! model must be pulled, which model names count as a match — are verified
//! here.  The driving loop observes the service, asks
//! [`ensure_ollama_ready`] what to do next, performs that one action, and
//! observes again.

use vstd::prelude::*;
use crate::text::{contains_ci, spec_contains_ci, find_first, matches_here, match_at, str_eq};

verus! {

/// Default Ollama server URL.
pub const DEFAULT_OLLAMA_URL: &'static str = "http://localhost:11434";

/// Default Ollama model for post-processing.
pub const DEFAULT_OLLAMA_MODEL: &'static str = "qwen2.5:1.5b";

/// Default time the service keeps a model loaded after a request.
pub const DEFAULT_OLLAMA_KEEP_ALIVE: &'static str = "5m";

/// Whether a server URL points at this machine, so that the service may be
/// auto-started.
pub fn ollama_url_is_local(url: &str) -> (r: bool)
    ensures
        r == (spec_contains_ci(url@, "localhost"@) || spec_contains_ci(url@, "127.0.0.1"@)),
{
    contains_ci(url, "localhost") || contains_ci(url, "127.0.0.1")
}

/// What the driving loop has observed about the service.
#[derive(Debug, Clone, Copy, PartialEq, Eq, Structural)]
pub struct OllamaStatus {
    /// Whether the server answers at the configured URL.
    pub running: bool,
    /// Whether the server binary is installed.
    pub installed: bool,
    /// Whether the configured URL points at this machine.
    pub url_is_local: bool,
    /// Whether the wanted model is available on the server.
    pub has_model: bool,
}

/// The single next step towards a ready service.
#[derive(Debug, Clone, Copy, PartialEq, Eq, Structural)]
pub enum OllamaAction {
    /// Server running, model present: nothing left to do.
    Ready,
    /// Start the server in the background, then re-observe.
    StartServer,
    /// Pull the wanted model, then re-observe.
    PullModel,
    /// A remote server is unreachable; it cannot be started from here.
    FailRemoteUnreachable,
    /// The server binary is not installed.
    FailNotInstalled,
}

/// Decide the next step towards a running service that has the wanted
/// model: an unreachable remote URL and a missing binary fail outright; a
/// stopped local server is started; a missing model is pulled; otherwise
/// the service is ready.
pub fn ensure_ollama_ready(status: &OllamaStatus) -> (a: OllamaAction)
    ensures
        !status.running && !status.url_is_local ==> a == OllamaAction::FailRemoteUnreachable,
        !status.running && status.url_is_local && !status.installed ==> a
            == OllamaAction::FailNotInstalled,
        !status.running && status.url_is_local && status.installed ==> a
            == OllamaAction::StartServer,
        status.running && !status.has_model ==> a == OllamaAction::PullModel,
        status.running && status.has_model ==> a == OllamaAction::Ready,
{
    if !status.running {
        if !status.url_is_local {
            OllamaAction::FailRemoteUnreachable
        } else if !status.installed {
            OllamaAction::FailNotInstalled
        } else {
            OllamaAction::StartServer
        }
    } else if !status.has_model {
        OllamaAction::PullModel
    } else {
        OllamaAction::Ready
    }
}

/// The base of a model name: everything before the first `:` tag
/// separator.
pub open spec fn spec_model_base(wanted: Seq<char>) -> Seq<char> {
    if crate::text::spec_find(wanted, ":"@) >= 0 {
        wanted.subrange(0, crate::text::spec_find(wanted, ":"@))
    } else {
        wanted
    }
}

/// Whether an available model name satisfies a wanted one: an exact match,
/// or any tag of the wanted base (`phi3` matches `phi3:latest`).
pub open spec fn spec_model_matches(name: Seq<char>, wanted: Seq<char>) -> bool {
    name == wanted || match_at(name, spec_model_base(wanted), 0)
}

/// Whether one available model name satisfies the wanted model.
pub fn model_matches(name: &str, wanted: &str) -> (r: bool)
    ensures
        r == spec_model_matches(name@, wanted@),
{
    if str_eq(name, wanted) {
        return true;
    }
    let base: &str = match find_first(wanted, ":") {
        Option::Some(pos) => wanted.substring_char(0, pos),
        Option::None => wanted,
    };
    if base.unicode_len() <= name.unicode_len() {
        matches_here(name, base, 0)
    } else {
        false
    }
}

/// Whether any of the server's model names satisfies the wanted model.
#[verifier::loop_isolation(false)]
pub fn has_model_in(names: &Vec<String>, wanted: &str) -> (r: bool)
    ensures
        r == (exists|i: int|
            0 <= i < names@.len() && spec_model_matches(names@[i]@, wanted@)),
{
    let mut i: usize = 0;
    while i < names.len()
        invariant
            i <= names@.len(),
            forall|j: int| 0 <= j < i ==> !spec_model_matches(names@[j]@, wanted@),
        decreases names@.len() - i,
    {
        if model_matches(names[i].as_str(), wanted) {
            return true;
        }
        i = i + 1;
    }
    false
}

} // verus!
