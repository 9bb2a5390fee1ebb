//! Configuration of the REST service, from the values of its settings.

use crate::text::{parse_u16, parse_unsigned};
use vstd::prelude::*;

verus! {

/// The port the server listens on when none is configured.
pub const DEFAULT_PORT: u16 = 8080;

/// Where the local embedding provider is reached when nothing else is
/// configured.
pub const DEFAULT_OLLAMA_API_URL: &'static str = "http://localhost:11434/api/embed";

/// Configuration for the web server.
#[derive(Debug)]
pub struct Config {
    /// The port the server should listen on.
    pub port: u16,
}

/// Configuration for the local environment.
#[derive(Debug)]
pub struct LocalConfig {
    /// The URL of the Ollama embedding API.
    pub ollama_api_url: String,
    /// Fallback OpenAI API key.
    pub fallback_openai_api_key: Option<String>,
}

impl Config {
    /// The port that the setting `port` stands for: its number where it is the
    /// decimal numeral of a port, the default where it is not, or is absent.
    pub open spec fn port_of(port: Option<Seq<char>>) -> u16 {
        match port {
            Some(text) => match parse_u16(text) {
                Some(number) => number,
                None => DEFAULT_PORT,
            },
            None => DEFAULT_PORT,
        }
    }

    /// Builds the configuration from the value of the port setting, if there
    /// is one.
    pub fn build(port: Option<String>) -> (config: Config)
        ensures
            config.port == Config::port_of(
                match port {
                    Some(text) => Some(text@),
                    None => None,
                },
            ),
    {
        let port = match port {
            Some(text) => match parse_unsigned(text.as_str()) {
                Some(number) => number,
                None => DEFAULT_PORT,
            },
            None => DEFAULT_PORT,
        };
        Config { port }
    }
}

impl LocalConfig {
    /// Builds the configuration from the values of the provider URL setting
    /// and of the API key setting, where they are there. Without a URL the
    /// default one is taken.
    pub fn build(ollama_api_url: Option<String>, openai_api_key: Option<String>) -> (config:
        LocalConfig)
        ensures
            config.ollama_api_url@ == match ollama_api_url {
                Some(url) => url@,
                None => DEFAULT_OLLAMA_API_URL@,
            },
            config.fallback_openai_api_key == openai_api_key,
    {
        let ollama_api_url = match ollama_api_url {
            Some(url) => url,
            None => DEFAULT_OLLAMA_API_URL.to_owned(),
        };
        LocalConfig { ollama_api_url, fallback_openai_api_key: openai_api_key }
    }
}

} // verus!
