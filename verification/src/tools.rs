//! What the tools for images, videos and the vector database decide before
//! and after they talk to their services.

pub mod generate_image;
pub mod generate_video;
pub mod query_vector_db;

use vstd::prelude::*;

verus! {

/// What is known of the keys that could pay for a call, in the order in
/// which they are tried.
pub struct ApiKeySources {
    /// The token that the provider's configuration carries.
    pub bearer_token: Option<String>,
    /// The provider's own key, or why it cannot be read.
    pub provider_key: Result<Option<String>, String>,
    /// The key of the logged-in account, if it is one, or why it cannot be
    /// read.
    pub account_key: Option<Result<String, String>>,
    /// The key in the environment.
    pub env_key: Option<String>,
}

/// What the model is told when no key is found.
pub const API_KEY_REQUIRED: &'static str = "OpenAI API key required for this tool. Run `codex login --api-key` or set OPENAI_API_KEY.";

/// Which source decides: the first in the order token, provider, account,
/// environment that has something to say. A source that cannot be read ends
/// the search with its error.
pub open spec fn spec_resolve_api_key(sources: ApiKeySources) -> Result<Seq<char>, Seq<char>> {
    if sources.bearer_token is Some {
        Ok(sources.bearer_token->0@)
    } else if sources.provider_key is Err {
        Err(sources.provider_key->Err_0@)
    } else if sources.provider_key->Ok_0 is Some {
        Ok(sources.provider_key->Ok_0->0@)
    } else if sources.account_key is Some {
        match sources.account_key->0 {
            Ok(key) => Ok(key@),
            Err(cause) => Err(cause@),
        }
    } else if sources.env_key is Some {
        Ok(sources.env_key->0@)
    } else {
        Err(API_KEY_REQUIRED@)
    }
}

/// The key that pays for a call, or what the model is told instead.
pub fn resolve_openai_api_key(sources: ApiKeySources) -> (r: Result<String, String>)
    ensures
        match spec_resolve_api_key(sources) {
            Ok(key) => r matches Ok(k) && k@ == key,
            Err(message) => r matches Err(m) && m@ == message,
        },
{
    let ApiKeySources { bearer_token, provider_key, account_key, env_key } = sources;
    if let Some(token) = bearer_token {
        return Ok(token);
    }
    match provider_key {
        Err(cause) => {
            return Err(cause);
        },
        Ok(Some(key)) => {
            return Ok(key);
        },
        Ok(None) => {},
    }
    if let Some(account) = account_key {
        return account;
    }
    if let Some(key) = env_key {
        return Ok(key);
    }
    Err(API_KEY_REQUIRED.to_string())
}

/// The provider that the tools talk to, or what the model is told when none
/// is configured.
pub fn openai_provider_for_tools<T>(provider: Option<T>) -> (r: Result<T, String>)
    ensures
        match provider {
            Some(p) => r == Ok::<T, String>(p),
            None => r matches Err(m) && m@ == "OpenAI provider is not configured"@,
        },
{
    match provider {
        Some(p) => Ok(p),
        None => Err("OpenAI provider is not configured".to_string()),
    }
}

} // verus!
