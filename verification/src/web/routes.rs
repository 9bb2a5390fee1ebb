//! Routing of an embedding request to a provider.

use crate::text::{strip_prefixes, trim_start_matches};
use crate::web::config::LocalConfig;
use crate::web::errors::ApiError;
use vstd::prelude::*;

verus! {

/// The model of the local provider, for a request that names none.
pub const DEFAULT_OLLAMA_EMBEDDING_MODEL: &'static str = "nomic-embed-text";

/// The models that are served by OpenAI.
pub const OPENAI_EMBEDDING_MODELS: [&'static str; 2] = [
    "text-embedding-3-small",
    "text-embedding-3-large",
];

/// What an `Authorization` header begins with, before the key.
pub const BEARER: &'static str = "Bearer ";

/// Whether `model` names a model that is served by OpenAI.
pub open spec fn is_openai_model(model: Seq<char>) -> bool {
    model == "text-embedding-3-small"@ || model == "text-embedding-3-large"@
}

/// The key that an `Authorization` header with the value `authorization`
/// carries: the value without the `Bearer ` that it begins with.
pub open spec fn bearer_key(authorization: Seq<char>) -> Seq<char> {
    strip_prefixes(authorization, BEARER@)
}

/// The provider that serves a request.
#[derive(Debug)]
#[allow(inconsistent_fields)]
pub enum Provider {
    /// The local provider at `url`, with `model` or, without one, its default
    /// model.
    Ollama { url: String, model: Option<String> },
    /// OpenAI, with the key and the model of the request.
    OpenAI { api_key: String, model: String },
}

fn openai_serves(model: &String) -> (b: bool)
    ensures
        b == is_openai_model(model@),
{
    *model == OPENAI_EMBEDDING_MODELS[0].to_owned() || *model
        == OPENAI_EMBEDDING_MODELS[1].to_owned()
}

/// The key for OpenAI: the one of the request's `Authorization` header where
/// the request has that header, else the configured one, if any.
pub fn openai_api_key(authorization: Option<String>, fallback: Option<String>) -> (key: Option<
    String,
>)
    ensures
        match authorization {
            Some(value) => key matches Some(k) && k@ == bearer_key(value@),
            None => key == fallback,
        },
{
    match authorization {
        Some(value) => {
            proof {
                reveal_strlit("Bearer ");
            }
            Some(trim_start_matches(value.as_str(), BEARER).to_owned())
        },
        None => fallback,
    }
}

/// Picks the provider for a request. Without a model the local provider
/// serves, with its default model. A model of OpenAI goes to OpenAI and needs
/// a key. Any other model goes to the local provider.
pub fn choose_provider(model: Option<String>, api_key: Option<String>, ollama_api_url: String) -> (r:
    Result<Provider, ApiError>)
    ensures
        match model {
            None => r matches Ok(Provider::Ollama { url, model: None }) && url == ollama_api_url,
            Some(name) => if is_openai_model(name@) {
                match api_key {
                    Some(key) => r matches Ok(Provider::OpenAI { api_key: k, model: m }) && k
                        == key && m == name,
                    None => r matches Err(ApiError::BadRequest(msg)) && msg@
                        == "OpenAI API key is required"@,
                }
            } else {
                r matches Ok(Provider::Ollama { url, model: Some(m) }) && url == ollama_api_url
                    && m == name
            },
        },
{
    match model {
        None => Ok(Provider::Ollama { url: ollama_api_url, model: None }),
        Some(name) => {
            if openai_serves(&name) {
                match api_key {
                    Some(key) => Ok(Provider::OpenAI { api_key: key, model: name }),
                    None => Err(ApiError::BadRequest("OpenAI API key is required".to_owned())),
                }
            } else {
                Ok(Provider::Ollama { url: ollama_api_url, model: Some(name) })
            }
        },
    }
}

/// The model that the response names: the one of the request, else the
/// default model of the local provider.
pub fn response_model(model: Option<String>) -> (name: String)
    ensures
        name@ == match model {
            Some(m) => m@,
            None => DEFAULT_OLLAMA_EMBEDDING_MODEL@,
        },
{
    match model {
        Some(m) => m,
        None => DEFAULT_OLLAMA_EMBEDDING_MODEL.to_owned(),
    }
}

} // verus!
