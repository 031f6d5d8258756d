//! The uniform result model: the canonical [`Generation`] record, the
//! caller-facing [`Error`] taxonomy, and the request-side tags
//! ([`Backend`], [`Ide`]) the dispatcher routes on.

use vstd::prelude::*;
use vstd::string::StringExecFns;

verus! {

/// Selects which text-generation provider the request is shaped for.
/// The adaptation layer only inspects the tag; the connection data is
/// owned and used by the caller's transport.
#[derive(Clone, Debug, PartialEq, Eq)]
pub enum Backend {
    HuggingFace { url: String },
    Ollama { url: String },
    OpenAi { url: String },
    Tgi { url: String },
}

/// The client identity reported in the `User-Agent` header.
#[derive(Clone, Copy, Debug, PartialEq, Eq)]
pub enum Ide {
    Neovim,
    VSCode,
    JetBrains,
    Emacs,
    Jupyter,
    Sublime,
    VisualStudio,
    Unknown,
}

impl Ide {
    /// The tag for this client, as it appears in the `User-Agent` header.
    pub open spec fn spec_name(self) -> Seq<char> {
        match self {
            Ide::Neovim => "Neovim"@,
            Ide::VSCode => "VSCode"@,
            Ide::JetBrains => "JetBrains"@,
            Ide::Emacs => "Emacs"@,
            Ide::Jupyter => "Jupyter"@,
            Ide::Sublime => "Sublime"@,
            Ide::VisualStudio => "VisualStudio"@,
            Ide::Unknown => "Unknown"@,
        }
    }

    pub fn name(&self) -> (r: &'static str)
        ensures
            r@ == self.spec_name(),
    {
        match self {
            Ide::Neovim => "Neovim",
            Ide::VSCode => "VSCode",
            Ide::JetBrains => "JetBrains",
            Ide::Emacs => "Emacs",
            Ide::Jupyter => "Jupyter",
            Ide::Sublime => "Sublime",
            Ide::VisualStudio => "VisualStudio",
            Ide::Unknown => "Unknown",
        }
    }
}

/// One produced text completion from a provider.
#[derive(Clone, Debug, PartialEq, Eq)]
pub struct Generation {
    pub generated_text: String,
}

impl View for Generation {
    type V = Seq<char>;

    open spec fn view(&self) -> Seq<char> {
        self.generated_text@
    }
}

impl DeepView for Generation {
    type V = Seq<char>;

    open spec fn deep_view(&self) -> Seq<char> {
        self.generated_text@
    }
}

/// The message-string error payload shared by the HuggingFace,
/// InferenceServer and LocalServer wire protocols.
#[derive(Clone, Debug, PartialEq, Eq)]
pub struct ApiError {
    pub error: String,
}

impl View for ApiError {
    type V = Seq<char>;

    open spec fn view(&self) -> Seq<char> {
        self.error@
    }
}

/// The `loc` field of an OpenAI-compatible validation record:
/// either a parameter name or a positional index.
#[derive(Clone, Debug, PartialEq, Eq)]
pub enum OpenAIErrorLoc {
    Text(String),
    Index(u32),
}

/// Mathematical image of [`OpenAIErrorLoc`].
pub enum OpenAIErrorLocV {
    Text(Seq<char>),
    Index(u32),
}

impl View for OpenAIErrorLoc {
    type V = OpenAIErrorLocV;

    open spec fn view(&self) -> OpenAIErrorLocV {
        match self {
            OpenAIErrorLoc::Text(s) => OpenAIErrorLocV::Text(s@),
            OpenAIErrorLoc::Index(i) => OpenAIErrorLocV::Index(*i),
        }
    }
}

/// One validation record of an OpenAI-compatible error response.
#[derive(Clone, Debug, PartialEq, Eq)]
pub struct OpenAIErrorDetail {
    pub loc: OpenAIErrorLoc,
    pub msg: String,
    pub kind: String,
}

/// Mathematical image of [`OpenAIErrorDetail`].
pub struct OpenAIErrorDetailV {
    pub loc: OpenAIErrorLocV,
    pub msg: Seq<char>,
    pub kind: Seq<char>,
}

impl View for OpenAIErrorDetail {
    type V = OpenAIErrorDetailV;

    open spec fn view(&self) -> OpenAIErrorDetailV {
        OpenAIErrorDetailV { loc: self.loc@, msg: self.msg@, kind: self.kind@ }
    }
}

impl DeepView for OpenAIErrorDetail {
    type V = OpenAIErrorDetailV;

    open spec fn deep_view(&self) -> OpenAIErrorDetailV {
        self.view()
    }
}

/// The OpenAI-compatible error payload: an ordered sequence of
/// validation records.
#[derive(Clone, Debug, PartialEq, Eq)]
pub struct OpenAIError {
    pub detail: Vec<OpenAIErrorDetail>,
}

impl View for OpenAIError {
    type V = Seq<OpenAIErrorDetailV>;

    open spec fn view(&self) -> Seq<OpenAIErrorDetailV> {
        self.detail.deep_view()
    }
}

impl OpenAIError {
    /// The message a caller can surface verbatim: one line per
    /// validation record, newline-joined.
    pub fn message(&self) -> (r: String)
        ensures
            r@ == spec_details_render(self@),
    {
        let mut out = String::new();
        let mut i: usize = 0;
        while i < self.detail.len()
            invariant
                i <= self.detail@.len(),
                out@ == spec_details_render(self@.take(i as int)),
            decreases self.detail@.len() - i,
        {
            if i != 0 {
                out.append("\n");
            }
            let d = &self.detail[i];
            match &d.loc {
                OpenAIErrorLoc::Text(s) => out.append(s.as_str()),
                OpenAIErrorLoc::Index(n) => {
                    let digits = u32_decimal(*n);
                    out.append(digits.as_str());
                },
            }
            out.append(": ");
            out.append(d.msg.as_str());
            out.append(" (");
            out.append(d.kind.as_str());
            out.append(")");
            proof {
                assert(self@.take((i + 1) as int).drop_last() =~= self@.take(i as int));
                assert(self@.take((i + 1) as int).last() == self.detail@[i as int]@);
                assert(out@ =~= spec_details_render(self@.take((i + 1) as int)));
            }
            i = i + 1;
        }
        proof {
            assert(self@.take(self.detail@.len() as int) =~= self@);
        }
        out
    }
}

/// The character of one decimal digit.
pub open spec fn digit_of(d: nat) -> char {
    if d == 0 {
        '0'
    } else if d == 1 {
        '1'
    } else if d == 2 {
        '2'
    } else if d == 3 {
        '3'
    } else if d == 4 {
        '4'
    } else if d == 5 {
        '5'
    } else if d == 6 {
        '6'
    } else if d == 7 {
        '7'
    } else if d == 8 {
        '8'
    } else {
        '9'
    }
}

/// The decimal digits of `n`, most significant first, no leading
/// zeros.
pub open spec fn spec_decimal(n: nat) -> Seq<char>
    decreases n,
{
    if n < 10 {
        seq![digit_of(n)]
    } else {
        spec_decimal(n / 10).push(digit_of(n % 10))
    }
}

/// One decimal digit as text.
fn digit_str(d: u32) -> (r: &'static str)
    requires
        d < 10,
    ensures
        r@ == seq![digit_of(d as nat)],
{
    let r = match d {
        0u32 => "0",
        1u32 => "1",
        2u32 => "2",
        3u32 => "3",
        4u32 => "4",
        5u32 => "5",
        6u32 => "6",
        7u32 => "7",
        8u32 => "8",
        _ => "9",
    };
    proof {
        reveal_strlit("0");
        reveal_strlit("1");
        reveal_strlit("2");
        reveal_strlit("3");
        reveal_strlit("4");
        reveal_strlit("5");
        reveal_strlit("6");
        reveal_strlit("7");
        reveal_strlit("8");
        reveal_strlit("9");
        assert(r@ =~= seq![digit_of(d as nat)]);
    }
    r
}

/// Writes `n` in decimal.
pub fn u32_decimal(n: u32) -> (r: String)
    ensures
        r@ == spec_decimal(n as nat),
    decreases n,
{
    if n < 10 {
        digit_str(n).to_owned()
    } else {
        let mut s = u32_decimal(n / 10);
        s.append(digit_str(n % 10));
        proof {
            assert(s@ =~= spec_decimal(n as nat));
        }
        s
    }
}

/// The natural text of a `loc`: the name itself, or the index in
/// decimal.
pub open spec fn spec_loc_render(l: OpenAIErrorLocV) -> Seq<char> {
    match l {
        OpenAIErrorLocV::Text(s) => s,
        OpenAIErrorLocV::Index(i) => spec_decimal(i as nat),
    }
}

/// One rendered validation record: `{location}: {message} ({kind})`.
pub open spec fn spec_detail_render(d: OpenAIErrorDetailV) -> Seq<char> {
    spec_loc_render(d.loc) + ": "@ + d.msg + " ("@ + d.kind + ")"@
}

/// The rendered records, newline-joined.
pub open spec fn spec_details_render(s: Seq<OpenAIErrorDetailV>) -> Seq<char>
    decreases s.len(),
{
    if s.len() == 0 {
        Seq::empty()
    } else if s.len() == 1 {
        spec_detail_render(s[0])
    } else {
        spec_details_render(s.drop_last()) + "\n"@ + spec_detail_render(s.last())
    }
}

/// Mathematical image of [`Error`].
pub enum ErrorV {
    InvalidHeaderValue,
    MalformedResponse,
    Tgi(Seq<char>),
    InferenceApi(Seq<char>),
    Ollama(Seq<char>),
    OpenAI(Seq<OpenAIErrorDetailV>),
}

/// Every failure the adaptation layer reports to its caller.
#[derive(Clone, Debug, PartialEq, Eq)]
pub enum Error {
    /// A header value held a character that is invalid in an HTTP header.
    InvalidHeaderValue,
    /// The response text matched no known shape of the selected provider.
    MalformedResponse,
    /// A typed error reported by an InferenceServer (TGI-like) provider.
    Tgi(ApiError),
    /// A typed error reported by a HuggingFace-style provider.
    InferenceApi(ApiError),
    /// A typed error reported by a LocalServer (Ollama-like) provider.
    Ollama(ApiError),
    /// A typed error reported by an OpenAI-compatible provider.
    OpenAI(OpenAIError),
}

impl View for Error {
    type V = ErrorV;

    open spec fn view(&self) -> ErrorV {
        match self {
            Error::InvalidHeaderValue => ErrorV::InvalidHeaderValue,
            Error::MalformedResponse => ErrorV::MalformedResponse,
            Error::Tgi(e) => ErrorV::Tgi(e@),
            Error::InferenceApi(e) => ErrorV::InferenceApi(e@),
            Error::Ollama(e) => ErrorV::Ollama(e@),
            Error::OpenAI(e) => ErrorV::OpenAI(e@),
        }
    }
}

} // verus!
