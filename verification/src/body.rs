//! The request-body builder.
//!
//! Two incompatible wire shapes exist: the inference-endpoint shape
//! (HuggingFace and the TGI-like inference server) and the
//! completion-endpoint shape (the Ollama-like local server and the
//! OpenAI-compatible server). [`build_body`] shapes the caller's open
//! parameter document for the selected provider; every caller-supplied
//! field that the shape does not claim passes through unchanged.

use vstd::map::*;
use vstd::prelude::*;

use crate::json::{
    map_of_entries, lemma_map_of_entries_push, lemma_map_of_entries_remove, Json, JsonValue,
    entries_find_last,
};
use crate::model::Backend;

verus! {

/// The providers that use the inference-endpoint body shape
/// (`inputs` + `parameters`); the others use the completion-endpoint
/// shape (`prompt`, `model`, `stream`, `n_predict`).
pub open spec fn is_inference_family(backend: Backend) -> bool {
    backend is HuggingFace || backend is Tgi
}

/// The `parameters` value of an inference-family body: the
/// caller-supplied `parameters` object with `return_full_text` set to
/// `false`, or a fresh object carrying only that field.
pub open spec fn spec_inference_parameters(body: Map<Seq<char>, Json>) -> Json {
    if body.contains_key("parameters"@) && body["parameters"@] is Obj {
        Json::Obj(body["parameters"@]->Obj_0.insert("return_full_text"@, Json::Bool(false)))
    } else {
        Json::Obj(Map::empty().insert("return_full_text"@, Json::Bool(false)))
    }
}

/// The finished request body for the selected provider, as a map.
pub open spec fn spec_build_body(
    backend: Backend,
    model: Seq<char>,
    prompt: Seq<char>,
    body: Map<Seq<char>, Json>,
) -> Map<Seq<char>, Json> {
    if is_inference_family(backend) {
        body.insert("inputs"@, Json::Str(prompt)).insert(
            "parameters"@,
            spec_inference_parameters(body),
        )
    } else {
        body.insert("prompt"@, Json::Str(prompt)).insert("model"@, Json::Str(model)).insert(
            "stream"@,
            Json::Bool(false),
        ).insert("n_predict"@, Json::Int(32))
    }
}

/// The field names a body builder writes are pairwise distinct.
proof fn lemma_body_keys_distinct()
    ensures
        "inputs"@ != "parameters"@,
        "prompt"@ != "model"@,
        "prompt"@ != "stream"@,
        "prompt"@ != "n_predict"@,
        "model"@ != "stream"@,
        "model"@ != "n_predict"@,
        "stream"@ != "n_predict"@,
{
    reveal_strlit("inputs");
    reveal_strlit("parameters");
    reveal_strlit("prompt");
    reveal_strlit("model");
    reveal_strlit("stream");
    reveal_strlit("n_predict");
    assert("inputs"@.len() == 6);
    assert("parameters"@.len() == 10);
    assert("prompt"@.len() == 6);
    assert("model"@.len() == 5);
    assert("stream"@.len() == 6);
    assert("n_predict"@.len() == 9);
    assert("prompt"@[0] == 'p');
    assert("stream"@[0] == 's');
}

/// Shapes the caller's open parameter document into the final request
/// body for the selected provider. Pure; never fails.
pub fn build_body(
    backend: &Backend,
    model: String,
    prompt: String,
    request_body: Vec<(String, JsonValue)>,
) -> (r: Vec<(String, JsonValue)>)
    ensures
        map_of_entries(r@) == spec_build_body(
            *backend,
            model@,
            prompt@,
            map_of_entries(request_body@),
        ),
{
    broadcast use lemma_map_of_entries_push;

    let ghost m0 = map_of_entries(request_body@);
    let mut body = request_body;
    match backend {
        Backend::HuggingFace { .. } | Backend::Tgi { .. } => {
            body.push(("inputs".to_owned(), JsonValue::Str(prompt)));
            let ghost m1 = map_of_entries(body@);
            let mut replaced = false;
            if let Some(i) = entries_find_last(&body, "parameters") {
                let is_obj = match &body[i].1 {
                    JsonValue::Obj(_) => true,
                    _ => false,
                };
                if is_obj {
                    let ghost pre = body@;
                    let entry = body.remove(i);
                    let mut params = match entry.1 {
                        JsonValue::Obj(es) => es,
                        _ => {
                            proof {
                                assert(false);
                            }
                            Vec::new()
                        },
                    };
                    let ghost params0 = params@;
                    params.push(("return_full_text".to_owned(), JsonValue::Bool(false)));
                    body.push(("parameters".to_owned(), JsonValue::Obj(params)));
                    replaced = true;
                    proof {
                        lemma_body_keys_distinct();
                        assert(m0.contains_key("parameters"@));
                        assert(m0["parameters"@] == m1["parameters"@]);
                        assert(m1["parameters"@] == Json::Obj(map_of_entries(params0)));
                        assert(map_of_entries(params@) == map_of_entries(params0).insert(
                            "return_full_text"@,
                            Json::Bool(false),
                        ));
                        assert(spec_inference_parameters(m0) == Json::Obj(map_of_entries(params@)));
                        assert(map_of_entries(body@) == map_of_entries(pre.remove(i as int)).insert(
                            "parameters"@,
                            Json::Obj(map_of_entries(params@)),
                        ));
                        let target = m1.insert("parameters"@, spec_inference_parameters(m0));
                        assert_maps_equal!(map_of_entries(body@), target, k => {
                            if k != "parameters"@ {
                                lemma_map_of_entries_remove(pre, i as int, k);
                            }
                        });
                    }
                }
            }
            if !replaced {
                let mut params: Vec<(String, JsonValue)> = Vec::new();
                let ghost params0 = params@;
                params.push(("return_full_text".to_owned(), JsonValue::Bool(false)));
                body.push(("parameters".to_owned(), JsonValue::Obj(params)));
                proof {
                    lemma_body_keys_distinct();
                    assert(!(m0.contains_key("parameters"@) && m0["parameters"@] is Obj));
                    assert(map_of_entries(params@) == map_of_entries(params0).insert(
                        "return_full_text"@,
                        Json::Bool(false),
                    ));
                    assert(map_of_entries(params@) =~= Map::<Seq<char>, Json>::empty().insert(
                        "return_full_text"@,
                        Json::Bool(false),
                    ));
                    assert(spec_inference_parameters(m0) == Json::Obj(map_of_entries(params@)));
                    assert(map_of_entries(body@) =~= m1.insert(
                        "parameters"@,
                        spec_inference_parameters(m0),
                    ));
                }
            }
        },
        Backend::Ollama { .. } | Backend::OpenAi { .. } => {
            body.push(("prompt".to_owned(), JsonValue::Str(prompt)));
            body.push(("model".to_owned(), JsonValue::Str(model)));
            body.push(("stream".to_owned(), JsonValue::Bool(false)));
            body.push(("n_predict".to_owned(), JsonValue::Int(32)));
        },
    }
    body
}

/// An inference-family body carries `inputs = prompt` and an object
/// `parameters` whose `return_full_text` is `false`.
pub open spec fn inference_body_shaped(m: Map<Seq<char>, Json>, prompt: Seq<char>) -> bool {
    &&& m.contains_key("inputs"@) && m["inputs"@] == Json::Str(prompt)
    &&& m.contains_key("parameters"@) && m["parameters"@] is Obj
    &&& m["parameters"@]->Obj_0.contains_key("return_full_text"@)
    &&& m["parameters"@]->Obj_0["return_full_text"@] == Json::Bool(false)
}

/// A completion-family body carries `prompt`, `model`, `stream = false`
/// and `n_predict = 32`.
pub open spec fn completion_body_shaped(
    m: Map<Seq<char>, Json>,
    model: Seq<char>,
    prompt: Seq<char>,
) -> bool {
    &&& m.contains_key("prompt"@) && m["prompt"@] == Json::Str(prompt)
    &&& m.contains_key("model"@) && m["model"@] == Json::Str(model)
    &&& m.contains_key("stream"@) && m["stream"@] == Json::Bool(false)
    &&& m.contains_key("n_predict"@) && m["n_predict"@] == Json::Int(32)
}

/// Law: for every provider and every caller-supplied document, the
/// built body carries the provider family's required fields.
pub proof fn lemma_build_body_required_fields(
    backend: Backend,
    model: Seq<char>,
    prompt: Seq<char>,
    body: Map<Seq<char>, Json>,
)
    ensures
        is_inference_family(backend) ==> inference_body_shaped(
            spec_build_body(backend, model, prompt, body),
            prompt,
        ),
        !is_inference_family(backend) ==> completion_body_shaped(
            spec_build_body(backend, model, prompt, body),
            model,
            prompt,
        ),
{
    lemma_body_keys_distinct();
}

} // verus!
