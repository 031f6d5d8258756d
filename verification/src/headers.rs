//! The header builders.
//!
//! The HuggingFace, InferenceServer and OpenAI-compatible providers
//! share one policy: a `User-Agent` header naming the product and the
//! calling client, plus `Authorization: Bearer {token}` when a token is
//! present. The LocalServer provider sends no headers at all.
//!
//! A header value may only hold horizontal tab or a byte that is
//! neither an ASCII control character nor DEL; a token or client tag
//! that breaks this rule aborts the call with
//! [`Error::InvalidHeaderValue`] before any network I/O.

use vstd::prelude::*;
use vstd::string::StrSliceExecFns;
use vstd::string::StringExecFns;

use crate::model::{Backend, Error, ErrorV, Ide};

verus! {

/// The product name reported in `User-Agent`.
pub const NAME: &'static str = "llm-ls";

/// The product version reported in `User-Agent`.
pub const VERSION: &'static str = "0.5.3";

/// One outgoing HTTP header.
#[derive(Clone, Debug, PartialEq, Eq)]
pub struct Header {
    pub name: String,
    pub value: String,
}

/// Mathematical image of [`Header`].
pub struct HeaderV {
    pub name: Seq<char>,
    pub value: Seq<char>,
}

impl View for Header {
    type V = HeaderV;

    open spec fn view(&self) -> HeaderV {
        HeaderV { name: self.name@, value: self.value@ }
    }
}

impl DeepView for Header {
    type V = HeaderV;

    open spec fn deep_view(&self) -> HeaderV {
        self.view()
    }
}

/// A character an HTTP header value may hold: horizontal tab, or any
/// character that is neither an ASCII control character nor DEL.
pub open spec fn valid_header_value_char(c: char) -> bool {
    c == '\t' || (c as u32 >= 32 && c as u32 != 127)
}

/// A string usable as an HTTP header value.
pub open spec fn valid_header_value(s: Seq<char>) -> bool {
    forall|i: int| 0 <= i < s.len() ==> valid_header_value_char(#[trigger] s[i])
}

/// Whether every character of `s` may stand in a header value.
fn check_header_value(s: &str) -> (r: bool)
    ensures
        r == valid_header_value(s@),
{
    let n = s.unicode_len();
    let mut i: usize = 0;
    while i < n
        invariant
            n == s@.len(),
            i <= n,
            forall|j: int| 0 <= j < i ==> valid_header_value_char(#[trigger] s@[j]),
        decreases n - i,
    {
        let c = s.get_char(i);
        if !(c == '\t' || (c as u32 >= 32 && c as u32 != 127)) {
            return false;
        }
        i = i + 1;
    }
    true
}

/// The `User-Agent` value for a client tag.
pub open spec fn spec_user_agent(ide: Ide) -> Seq<char> {
    NAME@ + "/"@ + VERSION@ + "; rust/unknown; ide/"@ + ide.spec_name()
}

/// The `Authorization` value for a bearer token.
pub open spec fn spec_bearer(token: Seq<char>) -> Seq<char> {
    "Bearer "@ + token
}

/// Whether the shared header policy succeeds for this token and client
/// tag: both constructed header values must be valid.
pub open spec fn spec_headers_ok(token: Option<Seq<char>>, ide: Ide) -> bool {
    &&& valid_header_value(spec_user_agent(ide))
    &&& (token matches Some(t) ==> valid_header_value(spec_bearer(t)))
}

/// The header set of the shared policy: `User-Agent`, then
/// `Authorization` exactly when a token is present.
pub open spec fn spec_auth_headers(token: Option<Seq<char>>, ide: Ide) -> Seq<HeaderV> {
    match token {
        Some(t) => seq![
            HeaderV { name: "user-agent"@, value: spec_user_agent(ide) },
            HeaderV { name: "authorization"@, value: spec_bearer(t) },
        ],
        None => seq![HeaderV { name: "user-agent"@, value: spec_user_agent(ide) }],
    }
}

/// Headers for the InferenceServer (TGI-like) provider.
pub fn build_tgi_headers(api_token: Option<&String>, ide: Ide) -> (r: Result<Vec<Header>, Error>)
    ensures
        r is Ok <==> spec_headers_ok(api_token.deep_view(), ide),
        r matches Ok(hs) ==> hs.deep_view() == spec_auth_headers(api_token.deep_view(), ide),
        r matches Err(e) ==> e@ == ErrorV::InvalidHeaderValue,
{
    let mut user_agent = String::new();
    user_agent.append(NAME);
    user_agent.append("/");
    user_agent.append(VERSION);
    user_agent.append("; rust/unknown; ide/");
    user_agent.append(ide.name());
    if !check_header_value(user_agent.as_str()) {
        return Err(Error::InvalidHeaderValue);
    }
    let mut headers: Vec<Header> = Vec::new();
    headers.push(Header { name: "user-agent".to_owned(), value: user_agent });
    if let Some(token) = api_token {
        let mut bearer = String::new();
        bearer.append("Bearer ");
        bearer.append(token.as_str());
        if !check_header_value(bearer.as_str()) {
            return Err(Error::InvalidHeaderValue);
        }
        headers.push(Header { name: "authorization".to_owned(), value: bearer });
        proof {
            assert(headers.deep_view() =~= spec_auth_headers(api_token.deep_view(), ide));
        }
    } else {
        proof {
            assert(headers.deep_view() =~= spec_auth_headers(api_token.deep_view(), ide));
        }
    }
    Ok(headers)
}

/// Headers for the HuggingFace provider: the shared policy.
pub fn build_api_headers(api_token: Option<&String>, ide: Ide) -> (r: Result<Vec<Header>, Error>)
    ensures
        r is Ok <==> spec_headers_ok(api_token.deep_view(), ide),
        r matches Ok(hs) ==> hs.deep_view() == spec_auth_headers(api_token.deep_view(), ide),
        r matches Err(e) ==> e@ == ErrorV::InvalidHeaderValue,
{
    build_tgi_headers(api_token, ide)
}

/// Headers for the LocalServer (Ollama-like) provider: none.
pub fn build_ollama_headers() -> (r: Vec<Header>)
    ensures
        r.deep_view() == Seq::<HeaderV>::empty(),
{
    let headers: Vec<Header> = Vec::new();
    proof {
        assert(headers.deep_view() =~= Seq::<HeaderV>::empty());
    }
    headers
}

/// Headers for the OpenAI-compatible provider: the shared policy.
pub fn build_openai_headers(api_token: Option<&String>, ide: Ide) -> (r: Result<Vec<Header>, Error>)
    ensures
        r is Ok <==> spec_headers_ok(api_token.deep_view(), ide),
        r matches Ok(hs) ==> hs.deep_view() == spec_auth_headers(api_token.deep_view(), ide),
        r matches Err(e) ==> e@ == ErrorV::InvalidHeaderValue,
{
    build_api_headers(api_token, ide)
}

/// The header set the dispatcher owes for a provider, when it succeeds.
pub open spec fn spec_build_headers(
    backend: Backend,
    token: Option<Seq<char>>,
    ide: Ide,
) -> Seq<HeaderV> {
    if backend is Ollama {
        Seq::empty()
    } else {
        spec_auth_headers(token, ide)
    }
}

/// Routes header construction on the provider tag.
pub fn build_headers(backend: &Backend, api_token: Option<&String>, ide: Ide) -> (r: Result<
    Vec<Header>,
    Error,
>)
    ensures
        r is Ok <==> (*backend is Ollama || spec_headers_ok(api_token.deep_view(), ide)),
        r matches Ok(hs) ==> hs.deep_view() == spec_build_headers(
            *backend,
            api_token.deep_view(),
            ide,
        ),
        r matches Err(e) ==> e@ == ErrorV::InvalidHeaderValue,
{
    match backend {
        Backend::HuggingFace { .. } => build_api_headers(api_token, ide),
        Backend::Ollama { .. } => Ok(build_ollama_headers()),
        Backend::OpenAi { .. } => build_openai_headers(api_token, ide),
        Backend::Tgi { .. } => build_tgi_headers(api_token, ide),
    }
}

/// Law: no provider ever emits an `Authorization` header without a
/// token, and with a token the shared policy emits exactly one, whose
/// value is `Bearer {token}`.
pub proof fn lemma_headers_authorization(backend: Backend, token: Option<Seq<char>>, ide: Ide)
    ensures
        match token {
            None => forall|i: int|
                0 <= i < spec_build_headers(backend, token, ide).len() ==> (
                #[trigger] spec_build_headers(backend, token, ide)[i]).name != "authorization"@,
            Some(t) => !(backend is Ollama) ==> {
                let hs = spec_build_headers(backend, token, ide);
                &&& hs.last().name == "authorization"@
                &&& hs.last().value == "Bearer "@ + t
                &&& forall|i: int|
                    0 <= i < hs.len() - 1 ==> (#[trigger] hs[i]).name != "authorization"@
            },
        },
{
    reveal_strlit("user-agent");
    reveal_strlit("authorization");
    assert("user-agent"@.len() == 10);
    assert("authorization"@.len() == 13);
}

} // verus!
