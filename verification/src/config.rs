//! Configuration values handed to the process at start-up. Loading
//! them from disk is the embedding application's concern.

use vstd::prelude::*;

verus! {

/// Which providers are configured; an absent entry means the
/// matching autopilot mode cannot serve requests.
pub struct Config {
    pub groq_client: Option<TokenClient>,
    pub ollama_client: Option<Client>,
}

/// An endpoint that authenticates with a bearer token.
pub struct TokenClient {
    pub url: String,
    pub token: String,
}

/// An endpoint addressed by URL and model name.
pub struct Client {
    pub url: String,
    pub model: String,
}

} // verus!
