use embedder::web::config::{DEFAULT_OLLAMA_API_URL, DEFAULT_PORT};
use embedder::web::routes::{BEARER, DEFAULT_OLLAMA_EMBEDDING_MODEL, OPENAI_EMBEDDING_MODELS};
use embedder::{
    choose_provider, openai_api_key, response_model, ApiError, Config, LocalConfig, Provider,
};

fn some(text: &str) -> Option<String> {
    Some(text.to_string())
}

#[test]
fn the_port_defaults_to_8080() {
    assert_eq!(DEFAULT_PORT, 8080);
    assert_eq!(Config::build(None).port, 8080);
}

#[test]
fn the_port_is_read_from_its_numeral() {
    assert_eq!(Config::build(some("9000")).port, 9000);
    assert_eq!(Config::build(some("0")).port, 0);
    assert_eq!(Config::build(some("80")).port, 80);
    assert_eq!(Config::build(some("65535")).port, 65535);
    assert_eq!(Config::build(some("+443")).port, 443);
    assert_eq!(Config::build(some("0008081")).port, 8081);
}

#[test]
fn a_port_that_is_no_numeral_gives_the_default() {
    for text in
        ["", "+", "-", "-1", "65536", "99999999999999999999", " 80", "80 ", "8_080", "80a", "0x50",
            "++1", "8.0", "\u{0663}"]
    {
        assert_eq!(Config::build(some(text)).port, 8080);
    }
}

#[test]
fn the_local_configuration_takes_what_is_set() {
    let config = LocalConfig::build(some("http://ollama:11434/api/embed"), some("sk-fallback"));
    assert_eq!(config.ollama_api_url, "http://ollama:11434/api/embed");
    assert_eq!(config.fallback_openai_api_key, some("sk-fallback"));
}

#[test]
fn the_local_configuration_has_a_default_url_and_no_default_key() {
    let config = LocalConfig::build(None, None);
    assert_eq!(config.ollama_api_url, "http://localhost:11434/api/embed");
    assert_eq!(config.ollama_api_url, DEFAULT_OLLAMA_API_URL);
    assert_eq!(config.fallback_openai_api_key, None);
}

#[test]
fn the_header_overrides_the_fallback_key() {
    assert_eq!(openai_api_key(some("Bearer sk-request"), some("sk-fallback")), some("sk-request"));
    assert_eq!(openai_api_key(some("Bearer sk-request"), None), some("sk-request"));
}

#[test]
fn without_a_header_the_fallback_key_is_taken() {
    assert_eq!(openai_api_key(None, some("sk-fallback")), some("sk-fallback"));
    assert_eq!(openai_api_key(None, None), None);
}

#[test]
fn the_bearer_prefix_is_removed_as_often_as_it_stands_in_front() {
    assert_eq!(BEARER, "Bearer ");
    assert_eq!(openai_api_key(some("Bearer Bearer abc"), None), some("abc"));
    assert_eq!(openai_api_key(some("abc"), None), some("abc"));
    assert_eq!(openai_api_key(some("Bearer "), None), some(""));
    assert_eq!(openai_api_key(some("Bearer"), None), some("Bearer"));
    assert_eq!(openai_api_key(some("bearer abc"), None), some("bearer abc"));
    assert_eq!(openai_api_key(some(" Bearer abc"), None), some(" Bearer abc"));
    assert_eq!(openai_api_key(some("Bearer abc Bearer def"), None), some("abc Bearer def"));
    assert_eq!(openai_api_key(some(""), some("sk-fallback")), some(""));
}

#[test]
fn a_request_without_a_model_goes_to_the_local_provider() {
    let provider = choose_provider(None, some("sk"), "http://local".to_string()).unwrap();
    assert!(matches!(provider, Provider::Ollama { url, model: None } if url == "http://local"));
    let provider = choose_provider(None, None, "http://local".to_string()).unwrap();
    assert!(matches!(provider, Provider::Ollama { url, model: None } if url == "http://local"));
}

#[test]
fn an_openai_model_with_a_key_goes_to_openai() {
    assert_eq!(OPENAI_EMBEDDING_MODELS, ["text-embedding-3-small", "text-embedding-3-large"]);
    for model in OPENAI_EMBEDDING_MODELS {
        let provider = choose_provider(some(model), some("sk"), "http://local".to_string()).unwrap();
        assert!(
            matches!(provider, Provider::OpenAI { api_key, model: m } if api_key == "sk" && m == model)
        );
    }
}

#[test]
fn an_openai_model_without_a_key_is_a_bad_request() {
    for model in OPENAI_EMBEDDING_MODELS {
        let err = choose_provider(some(model), None, "http://local".to_string()).unwrap_err();
        assert!(matches!(&err, ApiError::BadRequest(msg) if msg == "OpenAI API key is required"));
        assert_eq!(err.to_string(), "Bad Request: OpenAI API key is required");
        assert_eq!(err.status_code(), 400);
    }
}

#[test]
fn any_other_model_goes_to_the_local_provider() {
    for model in ["nomic-embed-text", "text-embedding-ada-002", "", "Text-Embedding-3-Large"] {
        for key in [None, some("sk")] {
            let provider = choose_provider(some(model), key, "http://local".to_string()).unwrap();
            assert!(matches!(
                provider,
                Provider::Ollama { url, model: Some(m) } if url == "http://local" && m == model
            ));
        }
    }
}

#[test]
fn the_response_names_the_model_of_the_request() {
    assert_eq!(response_model(some("text-embedding-3-large")), "text-embedding-3-large");
    assert_eq!(response_model(some("anything")), "anything");
}

#[test]
fn the_response_names_the_default_model_where_the_request_names_none() {
    assert_eq!(DEFAULT_OLLAMA_EMBEDDING_MODEL, "nomic-embed-text");
    assert_eq!(response_model(None), "nomic-embed-text");
}
