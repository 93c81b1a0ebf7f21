//! Settings for external services.

use vstd::prelude::*;
use crate::ollama::{DEFAULT_OLLAMA_KEEP_ALIVE, DEFAULT_OLLAMA_MODEL, DEFAULT_OLLAMA_URL};

verus! {

/// Configuration of the local LLM service used for post-processing.
#[derive(Debug, Clone, PartialEq, Eq)]
pub struct OllamaConfig {
    /// Server URL, if configured.
    pub url: Option<String>,
    /// Model name for post-processing, if configured.
    pub model: Option<String>,
    /// How long the server keeps the model loaded after a request, if
    /// configured.
    pub keep_alive: Option<String>,
}

impl OllamaConfig {
    /// The configured keep-alive duration, or the documented default.
    pub fn keep_alive(&self) -> (r: String)
        ensures
            self.keep_alive matches Option::Some(k) ==> r@ == k@,
            self.keep_alive is None ==> r@ == DEFAULT_OLLAMA_KEEP_ALIVE@,
    {
        match &self.keep_alive {
            Option::Some(k) => k.clone(),
            Option::None => DEFAULT_OLLAMA_KEEP_ALIVE.to_owned(),
        }
    }
}

impl Default for OllamaConfig {
    /// The documented defaults: the local server URL, the small default
    /// model, and the server's native keep-alive.
    fn default() -> (c: Self)
        ensures
            c.url matches Option::Some(u) && u@ == DEFAULT_OLLAMA_URL@,
            c.model matches Option::Some(m) && m@ == DEFAULT_OLLAMA_MODEL@,
            c.keep_alive matches Option::Some(k) && k@ == DEFAULT_OLLAMA_KEEP_ALIVE@,
    {
        OllamaConfig {
            url: Option::Some(DEFAULT_OLLAMA_URL.to_owned()),
            model: Option::Some(DEFAULT_OLLAMA_MODEL.to_owned()),
            keep_alive: Option::Some(DEFAULT_OLLAMA_KEEP_ALIVE.to_owned()),
        }
    }
}

/// Settings for all external services.
#[derive(Debug, Clone, PartialEq, Eq)]
pub struct ServicesSettings {
    /// The local LLM service's configuration.
    pub ollama: OllamaConfig,
}

impl Default for ServicesSettings {
    /// Every service at its documented defaults.
    fn default() -> (s: Self)
        ensures
            s.ollama.url matches Option::Some(u) && u@ == DEFAULT_OLLAMA_URL@,
            s.ollama.model matches Option::Some(m) && m@ == DEFAULT_OLLAMA_MODEL@,
            s.ollama.keep_alive matches Option::Some(k) && k@ == DEFAULT_OLLAMA_KEEP_ALIVE@,
    {
        ServicesSettings { ollama: OllamaConfig::default() }
    }
}

} // verus!
