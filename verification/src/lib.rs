//! Backend adaptation layer for a code-completion assistant.
//!
//! The library translates one canonical completion request into the wire
//! format of one of four interchangeable text-generation providers, and
//! translates each provider's response (success or error) back into one
//! uniform result type: a sequence of [`model::Generation`] values or a
//! typed [`model::Error`].

use vstd::prelude::*;

pub mod body;
pub mod decode;
pub mod headers;
pub mod json;
pub mod model;

use crate::body::{build_body, spec_build_body};
use crate::headers::{build_headers, spec_build_headers, spec_headers_ok, Header};
use crate::json::{map_of_entries, JsonValue};
use crate::model::{Backend, Error, ErrorV, Ide};

verus! {

/// The dispatcher's request-side entry: the headers and the body to
/// hand to the transport, or the header-construction error that
/// aborts the call.
pub fn build(
    backend: &Backend,
    model: String,
    prompt: String,
    api_token: Option<&String>,
    ide: Ide,
    request_body: Vec<(String, JsonValue)>,
) -> (r: Result<(Vec<Header>, Vec<(String, JsonValue)>), Error>)
    ensures
        r is Ok <==> (*backend is Ollama || spec_headers_ok(api_token.deep_view(), ide)),
        r matches Ok(p) ==> p.0.deep_view() == spec_build_headers(
            *backend,
            api_token.deep_view(),
            ide,
        ) && map_of_entries(p.1@) == spec_build_body(
            *backend,
            model@,
            prompt@,
            map_of_entries(request_body@),
        ),
        r matches Err(e) ==> e@ == ErrorV::InvalidHeaderValue,
{
    let headers = match build_headers(backend, api_token, ide) {
        Ok(h) => h,
        Err(e) => {
            return Err(e);
        },
    };
    let body = build_body(backend, model, prompt, request_body);
    Ok((headers, body))
}

} // verus!
