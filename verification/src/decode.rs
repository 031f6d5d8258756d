//! The response parsers.
//!
//! Each provider's response is decoded by shape discrimination without
//! a type tag: the known shapes are tried in a fixed declared order and
//! the first structural match wins; when none matches, the parse fails
//! with the generic [`Error::MalformedResponse`]. Reading the text into
//! a JSON document is entrusted to serde_json; every shape decision
//! afterwards is verified against the spec functions below.

use vstd::prelude::*;

use crate::json::{
    entries_get, jget, lemma_seq_of_items, seq_of_items, Json, JsonValue,
};
use crate::model::{
    ApiError, Backend, Error, ErrorV, Generation, OpenAIError, OpenAIErrorDetail,
    OpenAIErrorDetailV, OpenAIErrorLoc, OpenAIErrorLocV,
};

verus! {

/// The document a response text denotes, or nothing when serde_json
/// refuses the text (not valid JSON, or nested beyond its recursion
/// limit). Numbers that fit `i64` are kept exactly; any other number
/// is kept as its textual form in [`Json::OtherNum`].
pub uninterp spec fn spec_json_text(text: Seq<char>) -> Option<Json>;

/// The document a `serde_json::Value` holds, under the same reading of
/// numbers as [`spec_json_text`].
pub uninterp spec fn spec_value_json(v: serde_json::Value) -> Json;

#[verifier::external_type_specification]
#[verifier::external_body]
pub struct ExSerdeValue(serde_json::Value);

/// Relies on serde_json::from_str::<serde_json::Value>: whether it
/// accepts the text, and which document it reads, depend on the text
/// alone.
#[verifier::external_body]
fn json_from_str(text: &str) -> (r: Option<serde_json::Value>)
    ensures
        r is Some <==> spec_json_text(text@) is Some,
        r matches Some(v) ==> spec_value_json(v) == spec_json_text(text@)->Some_0,
{
    serde_json::from_str::<serde_json::Value>(text).ok()
}

/// Relies on serde_json::Value being plain data: each variant carries
/// over to the matching [`JsonValue`] variant;
/// serde_json::Number::as_i64 reads the numbers that fit `i64`, and
/// Number::to_string writes the others in their textual form.
#[verifier::external_body]
fn json_of_value(v: serde_json::Value) -> (r: JsonValue)
    ensures
        r@ == spec_value_json(v),
{
    match v {
        serde_json::Value::Null => JsonValue::Null,
        serde_json::Value::Bool(b) => JsonValue::Bool(b),
        serde_json::Value::Number(n) => match n.as_i64() {
            Some(i) => JsonValue::Int(i),
            None => JsonValue::OtherNum(n.to_string()),
        },
        serde_json::Value::String(s) => JsonValue::Str(s),
        serde_json::Value::Array(a) => JsonValue::Arr(a.into_iter().map(json_of_value).collect()),
        serde_json::Value::Object(o) => JsonValue::Obj(
            o.into_iter().map(|(k, x)| (k, json_of_value(x))).collect(),
        ),
    }
}

/// Reads response text into the library's own document model.
fn decode(text: &str) -> (r: Option<JsonValue>)
    ensures
        r is Some <==> spec_json_text(text@) is Some,
        r matches Some(v) ==> v@ == spec_json_text(text@)->Some_0,
{
    match json_from_str(text) {
        Some(v) => Some(json_of_value(v)),
        None => None,
    }
}

/// A generation object: an object whose `generated_text` is a string.
pub open spec fn is_generation_json(j: Json) -> bool {
    jget(j, "generated_text"@) matches Some(t) && t is Str
}

/// The produced text of a generation object.
pub open spec fn gen_text_of(j: Json) -> Seq<char> {
    jget(j, "generated_text"@)->Some_0->Str_0
}

/// A sequence made only of generation objects.
pub open spec fn is_generation_seq(s: Seq<Json>) -> bool {
    forall|i: int| 0 <= i < s.len() ==> is_generation_json(#[trigger] s[i])
}

/// The produced texts of a sequence of generation objects, in order.
pub open spec fn gen_texts_of(s: Seq<Json>) -> Seq<Seq<char>> {
    Seq::new(s.len(), |i: int| gen_text_of(s[i]))
}

/// An error object: an object whose `error` is a string.
pub open spec fn is_api_error_json(j: Json) -> bool {
    jget(j, "error"@) matches Some(t) && t is Str
}

/// The message of an error object.
pub open spec fn api_error_of(j: Json) -> Seq<char> {
    jget(j, "error"@)->Some_0->Str_0
}

/// Maps an exec parse result to its mathematical image.
pub open spec fn outcome_of(r: Result<Vec<Generation>, Error>) -> Result<
    Seq<Seq<char>>,
    ErrorV,
> {
    match r {
        Ok(g) => Ok(g.deep_view()),
        Err(e) => Err(e@),
    }
}

/// Collects the produced texts of a list response, or nothing when
/// some element is no generation object.
fn collect_generations(items: &Vec<JsonValue>) -> (r: Option<Vec<Generation>>)
    ensures
        match r {
            Some(gens) => is_generation_seq(seq_of_items(items@)) && gens.deep_view()
                == gen_texts_of(seq_of_items(items@)),
            None => !is_generation_seq(seq_of_items(items@)),
        },
{
    let mut gens: Vec<Generation> = Vec::new();
    let mut i: usize = 0;
    while i < items.len()
        invariant
            i <= items@.len(),
            gens@.len() == i as int,
            forall|j: int| 0 <= j < i ==> is_generation_json(#[trigger] items@[j].spec_view()),
            forall|j: int|
                0 <= j < i ==> (#[trigger] gens@[j]).generated_text@ == gen_text_of(
                    items@[j].spec_view(),
                ),
        decreases items@.len() - i,
    {
        match &items[i] {
            JsonValue::Obj(es) => {
                match entries_get(es, "generated_text") {
                    Some(JsonValue::Str(s)) => {
                        gens.push(Generation { generated_text: s.clone() });
                    },
                    _ => {
                        proof {
                            lemma_seq_of_items(items@);
                            assert(!is_generation_json(seq_of_items(items@)[i as int]));
                        }
                        return None;
                    },
                }
            },
            _ => {
                proof {
                    lemma_seq_of_items(items@);
                    assert(!is_generation_json(seq_of_items(items@)[i as int]));
                }
                return None;
            },
        }
        i = i + 1;
    }
    proof {
        lemma_seq_of_items(items@);
        assert(gens.deep_view() =~= gen_texts_of(seq_of_items(items@)));
    }
    Some(gens)
}

/// The HuggingFace-style parse, over the decoded document: a single
/// generation object, then a list of them, then an error object.
pub open spec fn spec_parse_api(d: Option<Json>) -> Result<Seq<Seq<char>>, ErrorV> {
    match d {
        None => Err(ErrorV::MalformedResponse),
        Some(j) => if is_generation_json(j) {
            Ok(seq![gen_text_of(j)])
        } else if j is Arr && is_generation_seq(j->Arr_0) {
            Ok(gen_texts_of(j->Arr_0))
        } else if is_api_error_json(j) {
            Err(ErrorV::InferenceApi(api_error_of(j)))
        } else {
            Err(ErrorV::MalformedResponse)
        },
    }
}

/// Parses a HuggingFace-style response.
pub fn parse_api_text(text: &str) -> (r: Result<Vec<Generation>, Error>)
    ensures
        outcome_of(r) == spec_parse_api(spec_json_text(text@)),
{
    let decoded = decode(text);
    let v = match decoded {
        None => {
            return Err(Error::MalformedResponse);
        },
        Some(v) => v,
    };
    match v {
        JsonValue::Obj(entries) => {
            match entries_get(&entries, "generated_text") {
                Some(JsonValue::Str(s)) => {
                    let gens = vec![Generation { generated_text: s.clone() }];
                    proof {
                        assert(gens.deep_view() =~= seq![s@]);
                    }
                    Ok(gens)
                },
                _ => {
                    match entries_get(&entries, "error") {
                        Some(JsonValue::Str(s)) => {
                            Err(Error::InferenceApi(ApiError { error: s.clone() }))
                        },
                        _ => Err(Error::MalformedResponse),
                    }
                },
            }
        },
        JsonValue::Arr(items) => {
            match collect_generations(&items) {
                Some(gens) => Ok(gens),
                None => Err(Error::MalformedResponse),
            }
        },
        _ => Err(Error::MalformedResponse),
    }
}

/// The InferenceServer (TGI-like) parse: the same shapes in the same
/// order as the HuggingFace parse; only the error object lands in its
/// own kind.
pub open spec fn spec_parse_tgi(d: Option<Json>) -> Result<Seq<Seq<char>>, ErrorV> {
    match d {
        None => Err(ErrorV::MalformedResponse),
        Some(j) => if is_generation_json(j) {
            Ok(seq![gen_text_of(j)])
        } else if j is Arr && is_generation_seq(j->Arr_0) {
            Ok(gen_texts_of(j->Arr_0))
        } else if is_api_error_json(j) {
            Err(ErrorV::Tgi(api_error_of(j)))
        } else {
            Err(ErrorV::MalformedResponse)
        },
    }
}

/// Parses an InferenceServer (TGI-like) response.
pub fn parse_tgi_text(text: &str) -> (r: Result<Vec<Generation>, Error>)
    ensures
        outcome_of(r) == spec_parse_tgi(spec_json_text(text@)),
{
    let decoded = decode(text);
    let v = match decoded {
        None => {
            return Err(Error::MalformedResponse);
        },
        Some(v) => v,
    };
    match v {
        JsonValue::Obj(entries) => {
            match entries_get(&entries, "generated_text") {
                Some(JsonValue::Str(s)) => {
                    let gens = vec![Generation { generated_text: s.clone() }];
                    proof {
                        assert(gens.deep_view() =~= seq![s@]);
                    }
                    Ok(gens)
                },
                _ => {
                    match entries_get(&entries, "error") {
                        Some(JsonValue::Str(s)) => Err(Error::Tgi(ApiError { error: s.clone() })),
                        _ => Err(Error::MalformedResponse),
                    }
                },
            }
        },
        JsonValue::Arr(items) => {
            match collect_generations(&items) {
                Some(gens) => Ok(gens),
                None => Err(Error::MalformedResponse),
            }
        },
        _ => Err(Error::MalformedResponse),
    }
}

/// A completion-style object: an object whose `content` is a string.
pub open spec fn is_content_json(j: Json) -> bool {
    jget(j, "content"@) matches Some(t) && t is Str
}

/// A generation-style object: an object whose `response` is a string.
pub open spec fn is_response_json(j: Json) -> bool {
    jget(j, "response"@) matches Some(t) && t is Str
}

/// The LocalServer (Ollama-like) parse: a `content` object, then a
/// `response` object, then an error object.
pub open spec fn spec_parse_ollama(d: Option<Json>) -> Result<Seq<Seq<char>>, ErrorV> {
    match d {
        None => Err(ErrorV::MalformedResponse),
        Some(j) => if is_content_json(j) {
            Ok(seq![jget(j, "content"@)->Some_0->Str_0])
        } else if is_response_json(j) {
            Ok(seq![jget(j, "response"@)->Some_0->Str_0])
        } else if is_api_error_json(j) {
            Err(ErrorV::Ollama(api_error_of(j)))
        } else {
            Err(ErrorV::MalformedResponse)
        },
    }
}

/// Parses a LocalServer (Ollama-like) response.
pub fn parse_ollama_text(text: &str) -> (r: Result<Vec<Generation>, Error>)
    ensures
        outcome_of(r) == spec_parse_ollama(spec_json_text(text@)),
{
    let decoded = decode(text);
    let v = match decoded {
        None => {
            return Err(Error::MalformedResponse);
        },
        Some(v) => v,
    };
    match v {
        JsonValue::Obj(entries) => {
            match entries_get(&entries, "content") {
                Some(JsonValue::Str(s)) => {
                    let gens = vec![Generation { generated_text: s.clone() }];
                    proof {
                        assert(gens.deep_view() =~= seq![s@]);
                    }
                    return Ok(gens);
                },
                _ => {},
            }
            match entries_get(&entries, "response") {
                Some(JsonValue::Str(s)) => {
                    let gens = vec![Generation { generated_text: s.clone() }];
                    proof {
                        assert(gens.deep_view() =~= seq![s@]);
                    }
                    return Ok(gens);
                },
                _ => {},
            }
            match entries_get(&entries, "error") {
                Some(JsonValue::Str(s)) => Err(Error::Ollama(ApiError { error: s.clone() })),
                _ => Err(Error::MalformedResponse),
            }
        },
        _ => Err(Error::MalformedResponse),
    }
}

/// A choice: an object whose `text` is a string.
pub open spec fn is_choice_json(j: Json) -> bool {
    jget(j, "text"@) matches Some(t) && t is Str
}

/// A sequence made only of choices.
pub open spec fn is_choice_seq(s: Seq<Json>) -> bool {
    forall|i: int| 0 <= i < s.len() ==> is_choice_json(#[trigger] s[i])
}

/// The texts of a sequence of choices, in order.
pub open spec fn choice_texts_of(s: Seq<Json>) -> Seq<Seq<char>> {
    Seq::new(s.len(), |i: int| jget(s[i], "text"@)->Some_0->Str_0)
}

/// An OpenAI-compatible success: an object whose `choices` is an array
/// of choices.
pub open spec fn is_openai_gen_json(j: Json) -> bool {
    jget(j, "choices"@) matches Some(c) && c is Arr && is_choice_seq(c->Arr_0)
}

/// A validation record's `loc`: a string, or an integer index that
/// fits `u32`.
pub open spec fn is_loc_json(j: Json) -> bool {
    j is Str || (j is Int && 0 <= j->Int_0 <= u32::MAX)
}

/// The image of a `loc` value.
pub open spec fn loc_view_of(j: Json) -> OpenAIErrorLocV {
    match j {
        Json::Str(s) => OpenAIErrorLocV::Text(s),
        _ => OpenAIErrorLocV::Index(j->Int_0 as u32),
    }
}

/// A validation record: an object with a `loc`, a string `msg` and a
/// string `type`.
pub open spec fn is_detail_json(j: Json) -> bool {
    &&& jget(j, "loc"@) matches Some(l) && is_loc_json(l)
    &&& jget(j, "msg"@) matches Some(m) && m is Str
    &&& jget(j, "type"@) matches Some(t) && t is Str
}

/// The image of a validation record.
pub open spec fn detail_view_of(j: Json) -> OpenAIErrorDetailV {
    OpenAIErrorDetailV {
        loc: loc_view_of(jget(j, "loc"@)->Some_0),
        msg: jget(j, "msg"@)->Some_0->Str_0,
        kind: jget(j, "type"@)->Some_0->Str_0,
    }
}

/// A sequence made only of validation records.
pub open spec fn is_detail_seq(s: Seq<Json>) -> bool {
    forall|i: int| 0 <= i < s.len() ==> is_detail_json(#[trigger] s[i])
}

/// The images of a sequence of validation records, in order.
pub open spec fn detail_views_of(s: Seq<Json>) -> Seq<OpenAIErrorDetailV> {
    Seq::new(s.len(), |i: int| detail_view_of(s[i]))
}

/// An OpenAI-compatible error: an object whose `detail` is an array of
/// validation records.
pub open spec fn is_openai_error_json(j: Json) -> bool {
    jget(j, "detail"@) matches Some(d) && d is Arr && is_detail_seq(d->Arr_0)
}

/// Collects the texts of a `choices` array, or nothing when some
/// element is no choice.
fn collect_choices(items: &Vec<JsonValue>) -> (r: Option<Vec<Generation>>)
    ensures
        match r {
            Some(gens) => is_choice_seq(seq_of_items(items@)) && gens.deep_view()
                == choice_texts_of(seq_of_items(items@)),
            None => !is_choice_seq(seq_of_items(items@)),
        },
{
    let mut gens: Vec<Generation> = Vec::new();
    let mut i: usize = 0;
    while i < items.len()
        invariant
            i <= items@.len(),
            gens@.len() == i as int,
            forall|j: int| 0 <= j < i ==> is_choice_json(#[trigger] items@[j].spec_view()),
            forall|j: int|
                0 <= j < i ==> (#[trigger] gens@[j]).generated_text@ == jget(
                    items@[j].spec_view(),
                    "text"@,
                )->Some_0->Str_0,
        decreases items@.len() - i,
    {
        match &items[i] {
            JsonValue::Obj(es) => {
                match entries_get(es, "text") {
                    Some(JsonValue::Str(s)) => {
                        gens.push(Generation { generated_text: s.clone() });
                    },
                    _ => {
                        proof {
                            lemma_seq_of_items(items@);
                            assert(!is_choice_json(seq_of_items(items@)[i as int]));
                        }
                        return None;
                    },
                }
            },
            _ => {
                proof {
                    lemma_seq_of_items(items@);
                    assert(!is_choice_json(seq_of_items(items@)[i as int]));
                }
                return None;
            },
        }
        i = i + 1;
    }
    proof {
        lemma_seq_of_items(items@);
        assert(gens.deep_view() =~= choice_texts_of(seq_of_items(items@)));
    }
    Some(gens)
}

/// Collects the validation records of a `detail` array, or nothing
/// when some element is no record.
fn collect_details(items: &Vec<JsonValue>) -> (r: Option<Vec<OpenAIErrorDetail>>)
    ensures
        match r {
            Some(ds) => is_detail_seq(seq_of_items(items@)) && ds.deep_view() == detail_views_of(
                seq_of_items(items@),
            ),
            None => !is_detail_seq(seq_of_items(items@)),
        },
{
    let mut ds: Vec<OpenAIErrorDetail> = Vec::new();
    let mut i: usize = 0;
    while i < items.len()
        invariant
            i <= items@.len(),
            ds@.len() == i as int,
            forall|j: int| 0 <= j < i ==> is_detail_json(#[trigger] items@[j].spec_view()),
            forall|j: int|
                0 <= j < i ==> (#[trigger] ds@[j])@ == detail_view_of(items@[j].spec_view()),
        decreases items@.len() - i,
    {
        match &items[i] {
            JsonValue::Obj(es) => {
                let loc = match entries_get(es, "loc") {
                    Some(JsonValue::Str(s)) => OpenAIErrorLoc::Text(s.clone()),
                    Some(JsonValue::Int(n)) => {
                        if *n < 0 || *n > 4294967295i64 {
                            proof {
                                lemma_seq_of_items(items@);
                                assert(!is_detail_json(seq_of_items(items@)[i as int]));
                            }
                            return None;
                        }
                        OpenAIErrorLoc::Index(*n as u32)
                    },
                    _ => {
                        proof {
                            lemma_seq_of_items(items@);
                            assert(!is_detail_json(seq_of_items(items@)[i as int]));
                        }
                        return None;
                    },
                };
                let msg = match entries_get(es, "msg") {
                    Some(JsonValue::Str(s)) => s.clone(),
                    _ => {
                        proof {
                            lemma_seq_of_items(items@);
                            assert(!is_detail_json(seq_of_items(items@)[i as int]));
                        }
                        return None;
                    },
                };
                let kind = match entries_get(es, "type") {
                    Some(JsonValue::Str(s)) => s.clone(),
                    _ => {
                        proof {
                            lemma_seq_of_items(items@);
                            assert(!is_detail_json(seq_of_items(items@)[i as int]));
                        }
                        return None;
                    },
                };
                ds.push(OpenAIErrorDetail { loc, msg, kind });
            },
            _ => {
                proof {
                    lemma_seq_of_items(items@);
                    assert(!is_detail_json(seq_of_items(items@)[i as int]));
                }
                return None;
            },
        }
        i = i + 1;
    }
    proof {
        lemma_seq_of_items(items@);
        assert(ds.deep_view() =~= detail_views_of(seq_of_items(items@)));
    }
    Some(ds)
}

/// The OpenAI-compatible parse: a `choices` object, then a `detail`
/// error object.
pub open spec fn spec_parse_openai(d: Option<Json>) -> Result<Seq<Seq<char>>, ErrorV> {
    match d {
        None => Err(ErrorV::MalformedResponse),
        Some(j) => if is_openai_gen_json(j) {
            Ok(choice_texts_of(jget(j, "choices"@)->Some_0->Arr_0))
        } else if is_openai_error_json(j) {
            Err(ErrorV::OpenAI(detail_views_of(jget(j, "detail"@)->Some_0->Arr_0)))
        } else {
            Err(ErrorV::MalformedResponse)
        },
    }
}

/// Parses an OpenAI-compatible response.
pub fn parse_openai_text(text: &str) -> (r: Result<Vec<Generation>, Error>)
    ensures
        outcome_of(r) == spec_parse_openai(spec_json_text(text@)),
{
    let decoded = decode(text);
    let v = match decoded {
        None => {
            return Err(Error::MalformedResponse);
        },
        Some(v) => v,
    };
    match v {
        JsonValue::Obj(entries) => {
            match entries_get(&entries, "choices") {
                Some(JsonValue::Arr(items)) => {
                    match collect_choices(items) {
                        Some(gens) => {
                            return Ok(gens);
                        },
                        None => {},
                    }
                },
                _ => {},
            }
            match entries_get(&entries, "detail") {
                Some(JsonValue::Arr(items)) => {
                    match collect_details(items) {
                        Some(ds) => Err(Error::OpenAI(OpenAIError { detail: ds })),
                        None => Err(Error::MalformedResponse),
                    }
                },
                _ => Err(Error::MalformedResponse),
            }
        },
        _ => Err(Error::MalformedResponse),
    }
}

/// What parsing owes for a provider, over the decoded document.
pub open spec fn spec_parse_generations(backend: Backend, d: Option<Json>) -> Result<
    Seq<Seq<char>>,
    ErrorV,
> {
    match backend {
        Backend::HuggingFace { .. } => spec_parse_api(d),
        Backend::Ollama { .. } => spec_parse_ollama(d),
        Backend::OpenAi { .. } => spec_parse_openai(d),
        Backend::Tgi { .. } => spec_parse_tgi(d),
    }
}

/// Routes response parsing on the provider tag.
pub fn parse_generations(backend: &Backend, text: &str) -> (r: Result<Vec<Generation>, Error>)
    ensures
        outcome_of(r) == spec_parse_generations(*backend, spec_json_text(text@)),
{
    match backend {
        Backend::HuggingFace { .. } => parse_api_text(text),
        Backend::Ollama { .. } => parse_ollama_text(text),
        Backend::OpenAi { .. } => parse_openai_text(text),
        Backend::Tgi { .. } => parse_tgi_text(text),
    }
}

/// Law: text that is not valid JSON yields the generic malformed
/// error for every provider — never an empty generation sequence.
pub proof fn lemma_undecodable_is_malformed(backend: Backend)
    ensures
        spec_parse_generations(backend, None) == Err::<Seq<Seq<char>>, ErrorV>(
            ErrorV::MalformedResponse,
        ),
{
}

/// Law: parsing is a pure function of the provider tag and the text;
/// two results that meet [`parse_generations`]'s contract for the same
/// inputs have the same image.
pub proof fn lemma_parse_deterministic(
    backend: Backend,
    text: Seq<char>,
    r1: Result<Vec<Generation>, Error>,
    r2: Result<Vec<Generation>, Error>,
)
    requires
        outcome_of(r1) == spec_parse_generations(backend, spec_json_text(text)),
        outcome_of(r2) == spec_parse_generations(backend, spec_json_text(text)),
    ensures
        outcome_of(r1) == outcome_of(r2),
{
}

} // verus!
