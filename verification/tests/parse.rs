use llm_backend::decode::{
    parse_api_text, parse_generations, parse_ollama_text, parse_openai_text, parse_tgi_text,
};
use llm_backend::model::{
    ApiError, Backend, Error, Generation, OpenAIError, OpenAIErrorDetail, OpenAIErrorLoc,
};

fn gen(text: &str) -> Generation {
    Generation { generated_text: text.to_string() }
}

fn hf() -> Backend {
    Backend::HuggingFace { url: "https://api.example".to_string() }
}

fn tgi() -> Backend {
    Backend::Tgi { url: "http://tgi.example".to_string() }
}

fn ollama() -> Backend {
    Backend::Ollama { url: "http://localhost:11434".to_string() }
}

fn openai() -> Backend {
    Backend::OpenAi { url: "http://localhost:8000".to_string() }
}

#[test]
fn hf_single_generation_round_trip() {
    let r = parse_generations(&hf(), "{\"generated_text\": \"foo\"}");
    assert_eq!(r, Ok(vec![gen("foo")]));
}

#[test]
fn hf_list_round_trip_preserves_order() {
    let r = parse_generations(&hf(), "[{\"generated_text\":\"a\"},{\"generated_text\":\"b\"}]");
    assert_eq!(r, Ok(vec![gen("a"), gen("b")]));
}

#[test]
fn hf_error_object_is_inference_api_error() {
    let r = parse_api_text("{\"error\": \"overloaded\"}");
    assert_eq!(r, Err(Error::InferenceApi(ApiError { error: "overloaded".to_string() })));
}

#[test]
fn hf_extra_fields_are_ignored() {
    let r = parse_api_text("{\"generated_text\": \"foo\", \"details\": {\"seed\": 1}}");
    assert_eq!(r, Ok(vec![gen("foo")]));
}

#[test]
fn tgi_single_generation_round_trip() {
    let r = parse_tgi_text("{\"generated_text\": \"foo\"}");
    assert_eq!(r, Ok(vec![gen("foo")]));
}

#[test]
fn tgi_list_round_trip_preserves_order() {
    let r = parse_generations(&tgi(), "[{\"generated_text\":\"a\"},{\"generated_text\":\"b\"}]");
    assert_eq!(r, Ok(vec![gen("a"), gen("b")]));
}

#[test]
fn tgi_error_object_is_tgi_error() {
    let r = parse_tgi_text("{\"error\": \"batch full\"}");
    assert_eq!(r, Err(Error::Tgi(ApiError { error: "batch full".to_string() })));
}

#[test]
fn ollama_content_shape_round_trip() {
    let r = parse_generations(&ollama(), "{\"content\": \"hi\"}");
    assert_eq!(r, Ok(vec![gen("hi")]));
}

#[test]
fn ollama_response_shape_round_trip() {
    let r = parse_ollama_text("{\"response\": \"hi\"}");
    assert_eq!(r, Ok(vec![gen("hi")]));
}

#[test]
fn ollama_content_tried_before_response() {
    let r = parse_ollama_text("{\"content\": \"first\", \"response\": \"second\"}");
    assert_eq!(r, Ok(vec![gen("first")]));
}

#[test]
fn ollama_error_object_is_ollama_error() {
    let r = parse_ollama_text("{\"error\": \"model not found\"}");
    assert_eq!(r, Err(Error::Ollama(ApiError { error: "model not found".to_string() })));
}

#[test]
fn openai_choices_round_trip() {
    let r = parse_generations(&openai(), "{\"choices\":[{\"text\":\"x\"},{\"text\":\"y\"}]}");
    assert_eq!(r, Ok(vec![gen("x"), gen("y")]));
}

#[test]
fn openai_empty_choices_is_empty_success() {
    let r = parse_openai_text("{\"choices\":[]}");
    assert_eq!(r, Ok(vec![]));
}

#[test]
fn openai_detail_renders_one_line_per_record() {
    let r = parse_openai_text(
        "{\"detail\":[{\"loc\":\"prompt\",\"msg\":\"required\",\"type\":\"missing\"}]}",
    );
    match r {
        Err(Error::OpenAI(e)) => {
            assert_eq!(e.message(), "prompt: required (missing)".to_string());
        }
        other => panic!("expected an OpenAI error, got {:?}", other),
    }
}

#[test]
fn openai_detail_structure_is_kept() {
    let r = parse_openai_text(
        "{\"detail\":[{\"loc\":2,\"msg\":\"too short\",\"type\":\"value_error\"}]}",
    );
    let expected = OpenAIError {
        detail: vec![OpenAIErrorDetail {
            loc: OpenAIErrorLoc::Index(2),
            msg: "too short".to_string(),
            kind: "value_error".to_string(),
        }],
    };
    assert_eq!(r, Err(Error::OpenAI(expected)));
}

#[test]
fn openai_integer_loc_renders_in_decimal() {
    let r = parse_openai_text(
        "{\"detail\":[{\"loc\":41,\"msg\":\"bad\",\"type\":\"value_error\"}]}",
    );
    match r {
        Err(Error::OpenAI(e)) => assert_eq!(e.message(), "41: bad (value_error)".to_string()),
        other => panic!("expected an OpenAI error, got {:?}", other),
    }
}

#[test]
fn openai_details_join_with_newlines() {
    let r = parse_openai_text(
        "{\"detail\":[{\"loc\":\"prompt\",\"msg\":\"required\",\"type\":\"missing\"},{\"loc\":0,\"msg\":\"bad\",\"type\":\"type_error\"}]}",
    );
    match r {
        Err(Error::OpenAI(e)) => {
            assert_eq!(e.message(), "prompt: required (missing)\n0: bad (type_error)".to_string());
        }
        other => panic!("expected an OpenAI error, got {:?}", other),
    }
}

#[test]
fn openai_loc_out_of_range_is_malformed() {
    let r = parse_openai_text(
        "{\"detail\":[{\"loc\":4294967296,\"msg\":\"bad\",\"type\":\"value_error\"}]}",
    );
    assert_eq!(r, Err(Error::MalformedResponse));
    let r = parse_openai_text(
        "{\"detail\":[{\"loc\":-1,\"msg\":\"bad\",\"type\":\"value_error\"}]}",
    );
    assert_eq!(r, Err(Error::MalformedResponse));
}

#[test]
fn openai_broken_choices_falls_back_to_detail() {
    let r = parse_openai_text(
        "{\"choices\":[{\"no_text\":1}],\"detail\":[{\"loc\":\"prompt\",\"msg\":\"required\",\"type\":\"missing\"}]}",
    );
    assert!(matches!(r, Err(Error::OpenAI(_))));
}

#[test]
fn hf_empty_list_is_empty_success() {
    assert_eq!(parse_api_text("[]"), Ok(vec![]));
}

#[test]
fn tgi_empty_list_is_empty_success() {
    assert_eq!(parse_tgi_text("[]"), Ok(vec![]));
}

#[test]
fn hf_non_string_generated_text_is_malformed() {
    assert_eq!(parse_api_text("{\"generated_text\": 5}"), Err(Error::MalformedResponse));
}

#[test]
fn ollama_non_string_content_falls_back_to_response() {
    let r = parse_ollama_text("{\"content\": 5, \"response\": \"hi\"}");
    assert_eq!(r, Ok(vec![gen("hi")]));
}

#[test]
fn openai_non_array_choices_is_malformed() {
    assert_eq!(parse_openai_text("{\"choices\": \"x\"}"), Err(Error::MalformedResponse));
}

#[test]
fn openai_empty_detail_is_an_error_with_empty_message() {
    match parse_openai_text("{\"detail\": []}") {
        Err(Error::OpenAI(e)) => {
            assert!(e.detail.is_empty());
            assert_eq!(e.message(), String::new());
        }
        other => panic!("expected an OpenAI error, got {:?}", other),
    }
}

#[test]
fn scalar_documents_are_malformed() {
    for backend in [hf(), tgi(), ollama(), openai()] {
        for text in ["null", "true", "3", "\"hi\""] {
            assert_eq!(parse_generations(&backend, text), Err(Error::MalformedResponse));
        }
    }
}

#[test]
fn empty_input_is_malformed_for_every_provider() {
    for backend in [hf(), tgi(), ollama(), openai()] {
        assert_eq!(parse_generations(&backend, ""), Err(Error::MalformedResponse));
    }
}

#[test]
fn non_json_input_is_malformed_for_every_provider() {
    for backend in [hf(), tgi(), ollama(), openai()] {
        assert_eq!(
            parse_generations(&backend, "service unavailable"),
            Err(Error::MalformedResponse)
        );
    }
}

#[test]
fn unknown_shape_is_malformed_not_empty_success() {
    for backend in [hf(), tgi(), ollama(), openai()] {
        let r = parse_generations(&backend, "{\"status\": \"ok\"}");
        assert_eq!(r, Err(Error::MalformedResponse));
    }
}

#[test]
fn parsing_twice_gives_equal_results() {
    let texts = [
        "{\"generated_text\": \"foo\"}",
        "[{\"generated_text\":\"a\"},{\"generated_text\":\"b\"}]",
        "{\"error\": \"nope\"}",
        "not json",
    ];
    for backend in [hf(), tgi(), ollama(), openai()] {
        for text in texts {
            assert_eq!(
                parse_generations(&backend, text),
                parse_generations(&backend, text)
            );
        }
    }
}
