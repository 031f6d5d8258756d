use llm_backend::body::build_body;
use llm_backend::headers::{
    build_headers, build_ollama_headers, build_tgi_headers, Header, NAME, VERSION,
};
use llm_backend::json::{entries_get, JsonValue};
use llm_backend::model::{u32_decimal, Backend, Error, Ide};

fn hf() -> Backend {
    Backend::HuggingFace { url: "https://api.example".to_string() }
}

fn tgi() -> Backend {
    Backend::Tgi { url: "http://tgi.example".to_string() }
}

fn ollama() -> Backend {
    Backend::Ollama { url: "http://localhost:11434".to_string() }
}

fn openai() -> Backend {
    Backend::OpenAi { url: "http://localhost:8000".to_string() }
}

fn build(backend: &Backend, extra: Vec<(String, JsonValue)>) -> Vec<(String, JsonValue)> {
    build_body(backend, "m".to_string(), "hello".to_string(), extra)
}

#[test]
fn inference_family_bodies_carry_required_fields() {
    for backend in [hf(), tgi()] {
        let body = build(&backend, Vec::new());
        assert_eq!(entries_get(&body, "inputs"), Some(&JsonValue::Str("hello".to_string())));
        match entries_get(&body, "parameters") {
            Some(JsonValue::Obj(params)) => {
                assert_eq!(
                    entries_get(params, "return_full_text"),
                    Some(&JsonValue::Bool(false))
                );
            }
            other => panic!("parameters should be an object, got {:?}", other),
        }
    }
}

#[test]
fn completion_family_bodies_carry_required_fields() {
    for backend in [ollama(), openai()] {
        let body = build(&backend, Vec::new());
        assert_eq!(entries_get(&body, "prompt"), Some(&JsonValue::Str("hello".to_string())));
        assert_eq!(entries_get(&body, "model"), Some(&JsonValue::Str("m".to_string())));
        assert_eq!(entries_get(&body, "stream"), Some(&JsonValue::Bool(false)));
        assert_eq!(entries_get(&body, "n_predict"), Some(&JsonValue::Int(32)));
    }
}

#[test]
fn existing_parameters_object_is_extended() {
    let extra = vec![(
        "parameters".to_string(),
        JsonValue::Obj(vec![("temperature".to_string(), JsonValue::Int(1))]),
    )];
    let body = build(&hf(), extra);
    match entries_get(&body, "parameters") {
        Some(JsonValue::Obj(params)) => {
            assert_eq!(entries_get(params, "temperature"), Some(&JsonValue::Int(1)));
            assert_eq!(entries_get(params, "return_full_text"), Some(&JsonValue::Bool(false)));
        }
        other => panic!("parameters should be an object, got {:?}", other),
    }
}

#[test]
fn non_object_parameters_are_replaced() {
    let extra = vec![("parameters".to_string(), JsonValue::Str("high".to_string()))];
    let body = build(&tgi(), extra);
    match entries_get(&body, "parameters") {
        Some(JsonValue::Obj(params)) => {
            assert_eq!(entries_get(params, "return_full_text"), Some(&JsonValue::Bool(false)));
            assert_eq!(entries_get(params, "parameters"), None);
        }
        other => panic!("parameters should be an object, got {:?}", other),
    }
}

#[test]
fn caller_fields_pass_through_unchanged() {
    let extra = vec![("max_new_tokens".to_string(), JsonValue::Int(60))];
    let body = build(&hf(), extra);
    assert_eq!(entries_get(&body, "max_new_tokens"), Some(&JsonValue::Int(60)));
    let extra = vec![("seed".to_string(), JsonValue::Int(7))];
    let body = build(&openai(), extra);
    assert_eq!(entries_get(&body, "seed"), Some(&JsonValue::Int(7)));
}

#[test]
fn textual_numbers_pass_through_unchanged() {
    let extra = vec![("temperature".to_string(), JsonValue::OtherNum("0.7".to_string()))];
    let body = build(&openai(), extra);
    assert_eq!(
        entries_get(&body, "temperature"),
        Some(&JsonValue::OtherNum("0.7".to_string()))
    );
}

fn get_header<'a>(headers: &'a [Header], name: &str) -> Option<&'a str> {
    headers.iter().find(|h| h.name == name).map(|h| h.value.as_str())
}

#[test]
fn user_agent_names_product_and_ide() {
    let headers = build_tgi_headers(None, Ide::Neovim).unwrap();
    let expected = format!("{}/{}; rust/unknown; ide/Neovim", NAME, VERSION);
    assert_eq!(get_header(&headers, "user-agent"), Some(expected.as_str()));
}

#[test]
fn no_token_means_no_authorization_header() {
    for backend in [hf(), tgi(), ollama(), openai()] {
        let headers = build_headers(&backend, None, Ide::Emacs).unwrap();
        assert_eq!(get_header(&headers, "authorization"), None);
    }
}

#[test]
fn token_becomes_a_bearer_authorization_header() {
    let token = "demo-token-123".to_string();
    for backend in [hf(), tgi(), openai()] {
        let headers = build_headers(&backend, Some(&token), Ide::VSCode).unwrap();
        assert_eq!(
            get_header(&headers, "authorization"),
            Some("Bearer demo-token-123")
        );
    }
}

#[test]
fn local_server_sends_no_headers_even_with_token() {
    let token = "demo-token-123".to_string();
    let headers = build_headers(&ollama(), Some(&token), Ide::JetBrains).unwrap();
    assert!(headers.is_empty());
    assert!(build_ollama_headers().is_empty());
}

#[test]
fn control_character_in_token_is_a_header_error() {
    let token = "bad\ntoken".to_string();
    assert_eq!(
        build_headers(&hf(), Some(&token), Ide::Neovim),
        Err(Error::InvalidHeaderValue)
    );
    let del = "bad\u{7f}token".to_string();
    assert_eq!(
        build_headers(&tgi(), Some(&del), Ide::Neovim),
        Err(Error::InvalidHeaderValue)
    );
}

#[test]
fn tab_and_non_ascii_are_legal_header_values() {
    let token = "a\tb-\u{e9}".to_string();
    let headers = build_headers(&hf(), Some(&token), Ide::Neovim).unwrap();
    assert_eq!(get_header(&headers, "authorization"), Some("Bearer a\tb-\u{e9}"));
}

#[test]
fn build_returns_headers_and_body_together() {
    let token = "demo-token-123".to_string();
    let (headers, body) = llm_backend::build(
        &hf(),
        "m".to_string(),
        "hello".to_string(),
        Some(&token),
        Ide::Neovim,
        Vec::new(),
    )
    .unwrap();
    assert_eq!(get_header(&headers, "authorization"), Some("Bearer demo-token-123"));
    assert_eq!(entries_get(&body, "inputs"), Some(&JsonValue::Str("hello".to_string())));
    let bad = "bad\ntoken".to_string();
    let r = llm_backend::build(
        &hf(),
        "m".to_string(),
        "hello".to_string(),
        Some(&bad),
        Ide::Neovim,
        Vec::new(),
    );
    assert!(matches!(r, Err(Error::InvalidHeaderValue)));
}

#[test]
fn decimal_rendering_is_exact() {
    assert_eq!(u32_decimal(0), "0".to_string());
    assert_eq!(u32_decimal(7), "7".to_string());
    assert_eq!(u32_decimal(10), "10".to_string());
    assert_eq!(u32_decimal(1234567890), "1234567890".to_string());
    assert_eq!(u32_decimal(4294967295), "4294967295".to_string());
}
