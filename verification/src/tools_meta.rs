//! The built-in local tools' data model and their pure computation: time
//! formatting selection by locale, webpage-reader URL normalization, the
//! interactive-form shapes, and the tool-server registry records. The
//! clock, the HTTP fetches and the timezone database stay outside the
//! library.

use vstd::prelude::*;

use crate::server::{find_char, first_idx, starts_with, starts_with_str};
use crate::text::str_eq;

verus! {

/// Arguments of the local-time tool.
pub struct LocalTimeArgs {
    pub timezone: Option<String>,
    pub locale: Option<String>,
}

/// Output of the local-time tool.
pub struct LocalTimeOutput {
    pub timezone: String,
    pub formatted: String,
    pub iso: String,
    pub unix: i64,
}

/// The local-time tool.
pub struct LocalTimeTool;

/// Why a local-time request is rejected.
pub enum LocalTimeError {
    InvalidTimezone(String),
}

impl LocalTimeError {
    /// The human-readable message of this error.
    pub fn message(&self) -> (r: String)
        ensures
            match self {
                LocalTimeError::InvalidTimezone(tz) => r@ == "Invalid timezone: "@ + tz@,
            },
    {
        match self {
            LocalTimeError::InvalidTimezone(tz) => {
                let mut out = String::new();
                out.append("Invalid timezone: ");
                out.append(tz.as_str());
                out
            },
        }
    }
}

/// The language code of a locale: the part before the first dash.
pub open spec fn locale_language(locale: Seq<char>) -> Seq<char> {
    match first_idx(locale, '-') {
        Some(i) => locale.take(i),
        None => locale,
    }
}

/// The date format pattern for a language.
pub open spec fn spec_date_format(lang: Seq<char>) -> Seq<char> {
    if lang == "zh"@ || lang == "ja"@ {
        "%Y\u{5e74}%m\u{6708}%d\u{65e5} %H:%M:%S"@
    } else if lang == "ko"@ {
        "%Y\u{b144} %m\u{c6d4} %d\u{c77c} %H:%M:%S"@
    } else if lang == "de"@ || lang == "ru"@ {
        "%d.%m.%Y %H:%M:%S"@
    } else if lang == "fr"@ || lang == "es"@ || lang == "it"@ || lang == "pt"@ || lang == "ar"@
        || lang == "hi"@ {
        "%d/%m/%Y %H:%M:%S"@
    } else {
        "%Y-%m-%d %H:%M:%S"@
    }
}

/// The date format pattern to render a time under a locale.
pub fn date_format_for_locale(locale: &str) -> (r: &'static str)
    ensures
        r@ == spec_date_format(locale_language(locale@)),
{
    let n = locale.unicode_len();
    let lang: String = match find_char(locale, '-') {
        Some(i) => locale.substring_char(0, i).to_owned(),
        None => locale.to_owned(),
    };
    proof {
        assert(lang@ == locale_language(locale@));
    }
    let l = lang.as_str();
    if str_eq(l, "zh") || str_eq(l, "ja") {
        "%Y\u{5e74}%m\u{6708}%d\u{65e5} %H:%M:%S"
    } else if str_eq(l, "ko") {
        "%Y\u{b144} %m\u{c6d4} %d\u{c77c} %H:%M:%S"
    } else if str_eq(l, "de") || str_eq(l, "ru") {
        "%d.%m.%Y %H:%M:%S"
    } else if str_eq(l, "fr") || str_eq(l, "es") || str_eq(l, "it") || str_eq(l, "pt") || str_eq(
        l,
        "ar",
    ) || str_eq(l, "hi") {
        "%d/%m/%Y %H:%M:%S"
    } else {
        "%Y-%m-%d %H:%M:%S"
    }
}

/// Arguments of the webpage-reader tool.
pub struct WebpageReaderArgs {
    pub url: String,
}

/// Output of the webpage-reader tool.
pub struct WebpageReaderOutput {
    pub url: String,
    pub content: String,
    pub source: String,
}

/// Why a webpage fetch failed.
pub enum WebpageReaderError {
    Network(String),
    HttpError(String),
    ReadError,
}

impl WebpageReaderError {
    /// The human-readable message of this error.
    pub fn message(&self) -> (r: String)
        ensures
            match self {
                WebpageReaderError::Network(e) => r@ == "Network error: "@ + e@,
                WebpageReaderError::HttpError(e) => r@ == "HTTP error: "@ + e@,
                WebpageReaderError::ReadError => r@ == "Failed to read content"@,
            },
    {
        match self {
            WebpageReaderError::Network(e) => {
                let mut out = String::new();
                out.append("Network error: ");
                out.append(e.as_str());
                out
            },
            WebpageReaderError::HttpError(e) => {
                let mut out = String::new();
                out.append("HTTP error: ");
                out.append(e.as_str());
                out
            },
            WebpageReaderError::ReadError => String::from_str("Failed to read content"),
        }
    }
}

/// The input with any reader-proxy prefix already present stripped: the
/// first matching prefix of the recognized forms.
pub open spec fn strip_reader_prefix(input: Seq<char>) -> Seq<char> {
    if starts_with(input, "https://r.jina.ai/http://"@) {
        input.skip("https://r.jina.ai/http://"@.len() as int)
    } else if starts_with(input, "https://r.jina.ai/https://"@) {
        input.skip("https://r.jina.ai/https://"@.len() as int)
    } else if starts_with(input, "http://r.jina.ai/http://"@) {
        input.skip("http://r.jina.ai/http://"@.len() as int)
    } else if starts_with(input, "http://r.jina.ai/https://"@) {
        input.skip("http://r.jina.ai/https://"@.len() as int)
    } else if starts_with(input, "r.jina.ai/"@) {
        input.skip("r.jina.ai/"@.len() as int)
    } else {
        input
    }
}

/// A scheme prefix repeatedly stripped from the front.
pub open spec fn strip_all_prefix(s: Seq<char>, p: Seq<char>) -> Seq<char>
    decreases s.len(),
{
    if p.len() > 0 && starts_with(s, p) {
        strip_all_prefix(s.skip(p.len() as int), p)
    } else {
        s
    }
}

/// The reader-proxy target for a normalized URL: both schemes stripped,
/// then prefixed with the reader endpoint.
pub open spec fn reader_target(normalized: Seq<char>) -> Seq<char> {
    if starts_with(normalized, "http://"@) || starts_with(normalized, "https://"@) {
        "https://r.jina.ai/"@ + strip_all_prefix(
            strip_all_prefix(normalized, "https://"@),
            "http://"@,
        )
    } else {
        "https://r.jina.ai/"@ + normalized
    }
}

/// Strip every repetition of a prefix from the front of a text.
fn strip_all_prefix_exec(s: &str, p: &str) -> (r: String)
    requires
        p@.len() > 0,
    ensures
        r@ == strip_all_prefix(s@, p@),
    decreases s@.len(),
{
    if starts_with_str(s, p) {
        let n = s.unicode_len();
        let pn = p.unicode_len();
        let rest = s.substring_char(pn, n);
        strip_all_prefix_exec(rest, p)
    } else {
        s.to_owned()
    }
}

/// Normalize a webpage URL into its reader-proxy form: an already
/// proxied input is unwrapped first, then the target is rebuilt behind
/// the reader endpoint. The returned pair is the unwrapped URL and the
/// proxied URL to fetch.
pub fn normalize_reader_url(input_url: &str) -> (r: (String, String))
    ensures
        ({
            let normalized = strip_reader_prefix(input_url@);
            r.0@ == normalized && r.1@ == reader_target(normalized)
        }),
{
    let n = input_url.unicode_len();
    let normalized: String = if starts_with_str(input_url, "https://r.jina.ai/http://") {
        proof {
            reveal_strlit("https://r.jina.ai/http://");
        }
        input_url.substring_char(25, n).to_owned()
    } else if starts_with_str(input_url, "https://r.jina.ai/https://") {
        proof {
            reveal_strlit("https://r.jina.ai/http://");
            reveal_strlit("https://r.jina.ai/https://");
        }
        input_url.substring_char(26, n).to_owned()
    } else if starts_with_str(input_url, "http://r.jina.ai/http://") {
        proof {
            reveal_strlit("https://r.jina.ai/http://");
            reveal_strlit("https://r.jina.ai/https://");
            reveal_strlit("http://r.jina.ai/http://");
        }
        input_url.substring_char(24, n).to_owned()
    } else if starts_with_str(input_url, "http://r.jina.ai/https://") {
        proof {
            reveal_strlit("https://r.jina.ai/http://");
            reveal_strlit("https://r.jina.ai/https://");
            reveal_strlit("http://r.jina.ai/http://");
            reveal_strlit("http://r.jina.ai/https://");
        }
        input_url.substring_char(25, n).to_owned()
    } else if starts_with_str(input_url, "r.jina.ai/") {
        proof {
            reveal_strlit("https://r.jina.ai/http://");
            reveal_strlit("https://r.jina.ai/https://");
            reveal_strlit("http://r.jina.ai/http://");
            reveal_strlit("http://r.jina.ai/https://");
            reveal_strlit("r.jina.ai/");
        }
        input_url.substring_char(10, n).to_owned()
    } else {
        input_url.to_owned()
    };
    proof {
        assert(normalized@ == strip_reader_prefix(input_url@));
    }
    let target: String = if starts_with_str(normalized.as_str(), "http://") || starts_with_str(
        normalized.as_str(),
        "https://",
    ) {
        proof {
            reveal_strlit("https://");
            reveal_strlit("http://");
        }
        let a = strip_all_prefix_exec(normalized.as_str(), "https://");
        let b = strip_all_prefix_exec(a.as_str(), "http://");
        let mut t = String::from_str("https://r.jina.ai/");
        t.append(b.as_str());
        t
    } else {
        let mut t = String::from_str("https://r.jina.ai/");
        t.append(normalized.as_str());
        t
    };
    (normalized, target)
}

/// The interactive-form tool.
pub struct InteractiveFormTool;

/// Why a form definition is rejected.
pub enum InteractiveFormError {
    InvalidForm,
}

impl InteractiveFormError {
    /// The human-readable message of this error.
    pub fn message(&self) -> (r: &'static str)
        ensures
            r@ == "Invalid form definition"@,
    {
        "Invalid form definition"
    }
}

/// One registered tool server.
pub struct McpServerConfig {
    pub name: String,
    pub url: String,
    pub transport: String,
    pub bearer_token: Option<String>,
    pub headers: Vec<(String, String)>,
}

/// The reported status of one registered tool server.
pub struct McpServerStatus {
    pub name: String,
    pub url: String,
    pub transport: String,
    pub tools_count: u32,
    pub connected: bool,
}

/// The response listing every registered tool server.
pub struct ListServersResponse {
    pub success: bool,
    pub servers: Vec<McpServerStatus>,
    pub total_tools: usize,
}

} // verus!
