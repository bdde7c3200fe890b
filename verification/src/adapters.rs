//! Provider adapters: per-vendor request-parameter assembly over one
//! shared base. Loosely-typed parameter bags become an explicit ordered
//! list of keyword arguments, each value carried as its JSON text.

use vstd::prelude::*;

use vstd::string::StringSliceAdditionalSpecFns;
use vstd::utf8::encode_utf8;

use crate::constants::{
    get_capabilities, get_provider_config, has_capabilities, spec_capabilities,
    ProviderCapabilities, ProviderConfig,
};
use crate::json::{json_compact, json_compact_of, json_quote, json_quoted, json_str_field,
    json_str_of, json_sub_field, json_sub_of, json_top_str, json_top_str_of};
use crate::text::{dec_of, find_first_tag, find_tag_spec, u64_to_dec};

verus! {

/// Credentials handed to an adapter.
pub struct ProviderCredentials {
    pub api_key: String,
    pub base_url: Option<String>,
}

/// Thinking-mode configuration; the budget is a token count.
pub struct ThinkingConfig {
    pub thinking_type: Option<String>,
    pub budget_tokens: Option<u32>,
}

/// Parameters for building one model invocation. Numeric sampling knobs
/// are carried as their JSON number text; structured knobs as their JSON
/// text.
pub struct BuildModelParams {
    pub api_key: String,
    pub model: Option<String>,
    pub temperature: Option<String>,
    pub top_k: Option<u32>,
    pub top_p: Option<String>,
    pub frequency_penalty: Option<String>,
    pub presence_penalty: Option<String>,
    pub response_format: Option<String>,
    pub thinking: Option<ThinkingConfig>,
    pub tools: Option<Vec<String>>,
    pub tool_choice: Option<String>,
    pub streaming: bool,
}

/// One complete tool call in adapter form.
pub struct ToolCall {
    pub id: String,
    pub tool_type: String,
    pub function: ToolCallFunction,
}

/// The function part of an adapter tool call.
pub struct ToolCallFunction {
    pub name: String,
    pub arguments: String,
}

/// What an adapter execution produced.
pub enum AdapterExecutionResult {
    Stream { model_id: String },
    Response { content: String, model_id: String },
    ToolCalls { tool_calls: Vec<ToolCall>, thought: Option<String>, model_id: String },
}

/// Comma-joined items.
pub open spec fn comma_join(items: Seq<Seq<char>>) -> Seq<char>
    decreases items.len(),
{
    if items.len() == 0 {
        Seq::empty()
    } else if items.len() == 1 {
        items[0]
    } else {
        comma_join(items.drop_last()) + ","@ + items.last()
    }
}

/// A JSON array text over serialized items.
pub open spec fn json_array_text(items: Seq<Seq<char>>) -> Seq<char> {
    "["@ + comma_join(items) + "]"@
}

/// The response-format argument (defaulting to plain text).
pub open spec fn seg_response_format(p: BuildModelParams) -> Seq<(Seq<char>, Seq<char>)> {
    seq![
        (
            "response_format"@,
            match p.response_format {
                Some(rf) => rf@,
                None => "{\"type\":\"text\"}"@,
            },
        ),
    ]
}

/// The thinking budget and mode arguments.
pub open spec fn seg_thinking(p: BuildModelParams) -> Seq<(Seq<char>, Seq<char>)> {
    match p.thinking {
        Some(t) => (match t.budget_tokens {
            Some(b) => seq![("thinking_budget"@, dec_of(b as nat))],
            None => Seq::<(Seq<char>, Seq<char>)>::empty(),
        }) + (match t.thinking_type {
            Some(tt) => seq![("thinking"@, "{\"type\":"@ + json_quoted(tt@) + "}"@)],
            None => Seq::<(Seq<char>, Seq<char>)>::empty(),
        }),
        None => Seq::<(Seq<char>, Seq<char>)>::empty(),
    }
}

/// The top-k argument.
pub open spec fn seg_top_k(p: BuildModelParams) -> Seq<(Seq<char>, Seq<char>)> {
    match p.top_k {
        Some(k) => seq![("top_k"@, dec_of(k as nat))],
        None => Seq::<(Seq<char>, Seq<char>)>::empty(),
    }
}

/// The top-p argument.
pub open spec fn seg_top_p(p: BuildModelParams) -> Seq<(Seq<char>, Seq<char>)> {
    match p.top_p {
        Some(v) => seq![("top_p"@, v@)],
        None => Seq::<(Seq<char>, Seq<char>)>::empty(),
    }
}

/// The frequency-penalty argument.
pub open spec fn seg_frequency_penalty(p: BuildModelParams) -> Seq<(Seq<char>, Seq<char>)> {
    match p.frequency_penalty {
        Some(v) => seq![("frequency_penalty"@, v@)],
        None => Seq::<(Seq<char>, Seq<char>)>::empty(),
    }
}

/// The presence-penalty argument.
pub open spec fn seg_presence_penalty(p: BuildModelParams) -> Seq<(Seq<char>, Seq<char>)> {
    match p.presence_penalty {
        Some(v) => seq![("presence_penalty"@, v@)],
        None => Seq::<(Seq<char>, Seq<char>)>::empty(),
    }
}

/// The tool-list argument, present only with tools.
pub open spec fn seg_tools(p: BuildModelParams) -> Seq<(Seq<char>, Seq<char>)> {
    match p.tools {
        Some(ts) => if ts.len() > 0 {
            seq![("tools"@, json_array_text(ts@.map_values(|s: String| s@)))]
        } else {
            Seq::<(Seq<char>, Seq<char>)>::empty()
        },
        None => Seq::<(Seq<char>, Seq<char>)>::empty(),
    }
}

/// The tool-choice argument.
pub open spec fn seg_tool_choice(p: BuildModelParams) -> Seq<(Seq<char>, Seq<char>)> {
    match p.tool_choice {
        Some(tc) => seq![("tool_choice"@, tc@)],
        None => Seq::<(Seq<char>, Seq<char>)>::empty(),
    }
}

/// The stream-options argument.
pub open spec fn seg_stream_options(p: BuildModelParams) -> Seq<(Seq<char>, Seq<char>)> {
    if p.streaming {
        seq![("stream_options"@, "{\"include_usage\":false}"@)]
    } else {
        Seq::<(Seq<char>, Seq<char>)>::empty()
    }
}

/// The key/value pairs every OpenAI-compatible adapter assembles, in
/// order: response format (defaulting to plain text), thinking budget and
/// mode, the sampling knobs, the tool list and choice, and stream
/// options.
pub open spec fn spec_base_kwargs(p: BuildModelParams) -> Seq<(Seq<char>, Seq<char>)> {
    seg_response_format(p) + seg_thinking(p) + seg_top_k(p) + seg_top_p(p)
        + seg_frequency_penalty(p) + seg_presence_penalty(p) + seg_tools(p) + seg_tool_choice(p)
        + seg_stream_options(p)
}

/// The view of a keyword-argument vector.
pub open spec fn kwargs_view(v: Seq<(String, String)>) -> Seq<(Seq<char>, Seq<char>)> {
    v.map_values(|e: (String, String)| (e.0@, e.1@))
}

/// Push one keyword argument.
fn push_kwarg(kwargs: &mut Vec<(String, String)>, key: &str, value: String)
    ensures
        kwargs_view(final(kwargs)@) == kwargs_view(old(kwargs)@).push((key@, value@)),
{
    let ghost prev = kwargs@;
    kwargs.push((key.to_owned(), value));
    proof {
        assert(kwargs_view(kwargs@) =~= kwargs_view(prev).push(
            (key@, kwargs@.last().1@),
        ));
    }
}

/// Build the comma-joined items of a JSON array.
fn join_comma(items: &Vec<String>) -> (r: String)
    ensures
        r@ == comma_join(items@.map_values(|s: String| s@)),
{
    let ghost views = items@.map_values(|s: String| s@);
    let mut out = String::new();
    let n = items.len();
    let mut i: usize = 0;
    proof {
        assert(comma_join(views.take(0)) =~= Seq::<char>::empty());
    }
    while i < n
        invariant
            i <= n,
            n == items@.len(),
            views == items@.map_values(|s: String| s@),
            out@ == comma_join(views.take(i as int)),
        decreases n - i,
    {
        proof {
            assert(views.take(i as int + 1).drop_last() =~= views.take(i as int));
            assert(views.take(i as int + 1).last() == views[i as int]);
        }
        if i > 0 {
            out.append(",");
        }
        out.append(items[i].as_str());
        proof {
            if i == 0 {
                assert(out@ =~= comma_join(views.take(1)));
            } else {
                assert(out@ =~= comma_join(views.take(i as int + 1)));
            }
        }
        i += 1;
    }
    proof {
        assert(views.take(n as int) =~= views);
    }
    out
}

/// Shared behavior of the OpenAI-compatible adapters.
pub struct BaseAdapter {
    pub provider_name: String,
}

impl BaseAdapter {
    /// An adapter for a named provider.
    pub fn new(provider_name: &str) -> (r: Self)
        ensures
            r.provider_name@ == provider_name@,
    {
        BaseAdapter { provider_name: provider_name.to_owned() }
    }

    /// The provider this adapter serves.
    pub fn provider_name(&self) -> (r: &str)
        ensures
            r@ == self.provider_name@,
    {
        self.provider_name.as_str()
    }

    /// The provider's configuration record.
    pub fn config(&self) -> (r: ProviderConfig) {
        get_provider_config(self.provider_name.as_str())
    }

    /// The provider's capability flags, all off outside the table.
    pub fn capabilities(&self) -> (r: ProviderCapabilities)
        ensures
            has_capabilities(self.provider_name@) ==> r == spec_capabilities(
                self.provider_name@,
            ),
            !has_capabilities(self.provider_name@) ==> r == (ProviderCapabilities {
                supports_streaming: false,
                supports_tool_calls: false,
                supports_streaming_tool_calls: false,
                supports_json_schema: false,
                supports_thinking: false,
                supports_vision: false,
            }),
    {
        match get_capabilities(self.provider_name.as_str()) {
            Some(c) => c,
            None => ProviderCapabilities {
                supports_streaming: false,
                supports_tool_calls: false,
                supports_streaming_tool_calls: false,
                supports_json_schema: false,
                supports_thinking: false,
                supports_vision: false,
            },
        }
    }

    /// Assemble the shared keyword arguments.
    pub fn build_model_kwargs(&self, params: &BuildModelParams) -> (r: Vec<(String, String)>)
        ensures
            kwargs_view(r@) == spec_base_kwargs(*params),
    {
        let mut kwargs: Vec<(String, String)> = Vec::new();
        proof {
            assert(kwargs_view(kwargs@) =~= Seq::<(Seq<char>, Seq<char>)>::empty());
        }
        add_response_format(&mut kwargs, params);
        add_thinking(&mut kwargs, params);
        add_top_k(&mut kwargs, params);
        add_top_p(&mut kwargs, params);
        add_frequency_penalty(&mut kwargs, params);
        add_presence_penalty(&mut kwargs, params);
        add_tools(&mut kwargs, params);
        add_tool_choice(&mut kwargs, params);
        add_stream_options(&mut kwargs, params);
        proof {
            assert(Seq::<(Seq<char>, Seq<char>)>::empty() + seg_response_format(*params)
                =~= seg_response_format(*params));
        }
        kwargs
    }

    /// Base URL: an explicit custom URL wins, the table serves otherwise.
    pub fn get_base_url(&self, custom_url: Option<&str>) -> (r: Option<String>)
        ensures
            custom_url matches Some(u) ==> r matches Some(v) && v@ == u@,
    {
        match custom_url {
            Some(u) => Some(u.to_owned()),
            None => crate::providers::resolve_base_url(self.provider_name.as_str(), None),
        }
    }
}

/// The Gemini adapter: its own parameter names and no custom base URL.
pub struct GeminiAdapter;

impl GeminiAdapter {
    /// The Gemini adapter.
    pub fn new() -> (r: Self) {
        GeminiAdapter
    }

    /// The provider this adapter serves.
    pub fn provider_name(&self) -> (r: &'static str)
        ensures
            r@ == "gemini"@,
    {
        "gemini"
    }

    /// The provider's configuration record.
    pub fn config(&self) -> (r: ProviderConfig) {
        get_provider_config("gemini")
    }

    /// The provider's capability flags.
    pub fn capabilities(&self) -> (r: Option<ProviderCapabilities>)
        ensures
            r matches Some(c) && c == spec_capabilities("gemini"@),
    {
        get_capabilities("gemini")
    }

    /// Gemini keyword arguments: its own casing for the sampling knobs, a
    /// thinking budget, and a response MIME type read from the response
    /// format.
    pub fn build_model_kwargs(&self, params: &BuildModelParams) -> (r: Vec<(String, String)>)
        ensures
            kwargs_view(r@) == spec_gemini_kwargs(*params),
    {
        let mut kwargs: Vec<(String, String)> = Vec::new();
        match params.top_k {
            Some(k) => {
                let d = u64_to_dec(k as u64);
                push_kwarg(&mut kwargs, "topK", d);
            },
            None => {},
        }
        match &params.top_p {
            Some(v) => push_kwarg(&mut kwargs, "topP", v.clone()),
            None => {},
        }
        match &params.thinking {
            Some(t) => {
                match t.budget_tokens {
                    Some(b) => {
                        let d = u64_to_dec(b as u64);
                        push_kwarg(&mut kwargs, "thinkingBudget", d);
                    },
                    None => {},
                }
            },
            None => {},
        }
        match &params.response_format {
            Some(rf) => {
                match json_str_field(rf.as_str().as_bytes(), "type") {
                    Some(t) => {
                        let q = json_quote(t.as_str());
                        push_kwarg(&mut kwargs, "responseMimeType", q);
                    },
                    None => {},
                }
            },
            None => {},
        }
        proof {
            assert(kwargs_view(kwargs@) =~= spec_gemini_kwargs(*params));
        }
        kwargs
    }

    /// Gemini ignores custom base URLs.
    pub fn get_base_url(&self, custom_url: Option<&str>) -> (r: Option<String>)
        ensures
            r is None,
    {
        None
    }
}

/// The Gemini keyword arguments over the response format's byte encoding.
pub open spec fn spec_gemini_kwargs(p: BuildModelParams) -> Seq<(Seq<char>, Seq<char>)> {
    (match p.top_k {
        Some(k) => seq![("topK"@, dec_of(k as nat))],
        None => Seq::<(Seq<char>, Seq<char>)>::empty(),
    }) + (match p.top_p {
        Some(v) => seq![("topP"@, v@)],
        None => Seq::<(Seq<char>, Seq<char>)>::empty(),
    }) + (match p.thinking {
        Some(t) => match t.budget_tokens {
            Some(b) => seq![("thinkingBudget"@, dec_of(b as nat))],
            None => Seq::<(Seq<char>, Seq<char>)>::empty(),
        },
        None => Seq::<(Seq<char>, Seq<char>)>::empty(),
    }) + (match p.response_format {
        Some(rf) => match json_str_of(encode_utf8(rf@), "type"@) {
            Some(t) => seq![("responseMimeType"@, json_quoted(t))],
            None => Seq::<(Seq<char>, Seq<char>)>::empty(),
        },
        None => Seq::<(Seq<char>, Seq<char>)>::empty(),
    })
}

/// The OpenAI adapter: the shared base behavior unchanged.
pub struct OpenAIAdapter {
    pub base: BaseAdapter,
}

impl OpenAIAdapter {
    /// The OpenAI adapter.
    pub fn new() -> (r: Self)
        ensures
            r.base.provider_name@ == "openai"@,
    {
        OpenAIAdapter { base: BaseAdapter::new("openai") }
    }

    /// The provider this adapter serves.
    pub fn provider_name(&self) -> (r: &'static str)
        ensures
            r@ == "openai"@,
    {
        "openai"
    }

    /// The shared keyword arguments unchanged.
    pub fn build_model_kwargs(&self, params: &BuildModelParams) -> (r: Vec<(String, String)>)
        ensures
            kwargs_view(r@) == spec_base_kwargs(*params),
    {
        self.base.build_model_kwargs(params)
    }

    /// Base URL: an explicit custom URL wins.
    pub fn get_base_url(&self, custom_url: Option<&str>) -> (r: Option<String>)
        ensures
            custom_url matches Some(u) ==> r matches Some(v) && v@ == u@,
    {
        match custom_url {
            Some(u) => Some(u.to_owned()),
            None => crate::providers::resolve_base_url("openai", None),
        }
    }
}

/// The OpenAI-compatibility adapter: base behavior with a mandatory
/// custom base URL.
pub struct OpenAICompatibilityAdapter {
    pub base: BaseAdapter,
}

impl OpenAICompatibilityAdapter {
    /// The OpenAI-compatibility adapter.
    pub fn new() -> (r: Self)
        ensures
            r.base.provider_name@ == "openai_compatibility"@,
    {
        OpenAICompatibilityAdapter { base: BaseAdapter::new("openai_compatibility") }
    }

    /// The provider this adapter serves.
    pub fn provider_name(&self) -> (r: &'static str)
        ensures
            r@ == "openai_compatibility"@,
    {
        "openai_compatibility"
    }

    /// The shared keyword arguments unchanged.
    pub fn build_model_kwargs(&self, params: &BuildModelParams) -> (r: Vec<(String, String)>)
        ensures
            kwargs_view(r@) == spec_base_kwargs(*params),
    {
        self.base.build_model_kwargs(params)
    }

    /// Only a caller-supplied URL serves.
    pub fn get_base_url(&self, custom_url: Option<&str>) -> (r: Option<String>)
        ensures
            match (r, custom_url) {
                (Some(v), Some(u)) => v@ == u@,
                (None, None) => true,
                _ => false,
            },
    {
        match custom_url {
            Some(u) => Some(u.to_owned()),
            None => None,
        }
    }
}

/// The Kimi adapter: base behavior, without streaming tool calls.
pub struct KimiAdapter {
    pub base: BaseAdapter,
}

impl KimiAdapter {
    /// The Kimi adapter.
    pub fn new() -> (r: Self)
        ensures
            r.base.provider_name@ == "kimi"@,
    {
        KimiAdapter { base: BaseAdapter::new("kimi") }
    }

    /// The provider this adapter serves.
    pub fn provider_name(&self) -> (r: &'static str)
        ensures
            r@ == "kimi"@,
    {
        "kimi"
    }

    /// The shared keyword arguments unchanged.
    pub fn build_model_kwargs(&self, params: &BuildModelParams) -> (r: Vec<(String, String)>)
        ensures
            kwargs_view(r@) == spec_base_kwargs(*params),
    {
        self.base.build_model_kwargs(params)
    }

    /// The Kimi endpoint does not stream tool calls.
    pub fn supports_streaming_tool_calls(&self) -> (r: bool)
        ensures
            !r,
    {
        false
    }
}

/// The Minimax adapter: keeps thinking content separate through a
/// reasoning split unless thinking is disabled.
pub struct MinimaxAdapter {
    pub base: BaseAdapter,
}

/// The Minimax extras: a reasoning split wherever thinking is requested
/// and not explicitly disabled.
pub open spec fn spec_minimax_extras(p: BuildModelParams) -> Seq<(Seq<char>, Seq<char>)> {
    match p.thinking {
        Some(t) => {
            let enabled = match t.thinking_type {
                Some(tt) => tt@ != "disabled"@,
                None => true,
            };
            if enabled {
                seq![("extra_body"@, "{\"reasoning_split\":true}"@)]
            } else {
                Seq::<(Seq<char>, Seq<char>)>::empty()
            }
        },
        None => Seq::<(Seq<char>, Seq<char>)>::empty(),
    }
}

impl MinimaxAdapter {
    /// The Minimax adapter.
    pub fn new() -> (r: Self)
        ensures
            r.base.provider_name@ == "minimax"@,
    {
        MinimaxAdapter { base: BaseAdapter::new("minimax") }
    }

    /// The provider this adapter serves.
    pub fn provider_name(&self) -> (r: &'static str)
        ensures
            r@ == "minimax"@,
    {
        "minimax"
    }

    /// The shared keyword arguments plus the reasoning split.
    pub fn build_model_kwargs(&self, params: &BuildModelParams) -> (r: Vec<(String, String)>)
        ensures
            kwargs_view(r@) == spec_base_kwargs(*params) + spec_minimax_extras(*params),
    {
        let mut kwargs = self.base.build_model_kwargs(params);
        match &params.thinking {
            Some(t) => {
                let enabled = match &t.thinking_type {
                    Some(tt) => !crate::text::str_eq(tt.as_str(), "disabled"),
                    None => true,
                };
                if enabled {
                    push_kwarg(&mut kwargs, "extra_body", String::from_str(
                        "{\"reasoning_split\":true}",
                    ));
                }
            },
            None => {},
        }
        proof {
            assert(kwargs_view(kwargs@) =~= spec_base_kwargs(*params) + spec_minimax_extras(
                *params,
            ));
        }
        kwargs
    }
}

/// The GLM adapter: thinking configuration mirrored into the extra body,
/// and tool streaming switched on for the models that support it.
pub struct GLMAdapter {
    pub base: BaseAdapter,
}

/// The GLM extras: the extra body mirroring the thinking mode, and a tool
/// stream flag when streaming with tools on a model that supports it.
pub open spec fn spec_glm_extras(p: BuildModelParams) -> Seq<(Seq<char>, Seq<char>)> {
    (match p.thinking {
        Some(t) => match t.thinking_type {
            Some(tt) => seq![
                ("extra_body"@, "{\"thinking\":{\"type\":"@ + json_quoted(tt@) + "}}"@),
            ],
            None => Seq::<(Seq<char>, Seq<char>)>::empty(),
        },
        None => Seq::<(Seq<char>, Seq<char>)>::empty(),
    }) + (if p.streaming && (match p.tools {
        Some(ts) => ts.len() > 0,
        None => false,
    }) && (match p.model {
        Some(m) => find_tag_spec(m@, seq!["glm-4.6"@, "glm-4.7"@], 0) is Some,
        None => false,
    }) {
        seq![("tool_stream"@, "true"@)]
    } else {
        Seq::<(Seq<char>, Seq<char>)>::empty()
    })
}

impl GLMAdapter {
    /// The GLM adapter.
    pub fn new() -> (r: Self)
        ensures
            r.base.provider_name@ == "glm"@,
    {
        GLMAdapter { base: BaseAdapter::new("glm") }
    }

    /// The provider this adapter serves.
    pub fn provider_name(&self) -> (r: &'static str)
        ensures
            r@ == "glm"@,
    {
        "glm"
    }

    /// The shared keyword arguments plus the GLM extras.
    pub fn build_model_kwargs(&self, params: &BuildModelParams) -> (r: Vec<(String, String)>)
        ensures
            kwargs_view(r@) == spec_base_kwargs(*params) + spec_glm_extras(*params),
    {
        let mut kwargs = self.base.build_model_kwargs(params);
        match &params.thinking {
            Some(t) => {
                match &t.thinking_type {
                    Some(tt) => {
                        let mut v = String::from_str("{\"thinking\":{\"type\":");
                        let q = json_quote(tt.as_str());
                        v.append(q.as_str());
                        v.append("}}");
                        push_kwarg(&mut kwargs, "extra_body", v);
                    },
                    None => {},
                }
            },
            None => {},
        }
        let has_tools = match &params.tools {
            Some(ts) => ts.len() > 0,
            None => false,
        };
        let model_supports = match &params.model {
            Some(m) => {
                let tags: Vec<&str> = vec!["glm-4.6", "glm-4.7"];
                proof {
                    assert(tags@.map_values(|t: &str| t@) =~= seq!["glm-4.6"@, "glm-4.7"@]);
                }
                find_first_tag(m.as_str(), &tags).is_some()
            },
            None => false,
        };
        if params.streaming && has_tools && model_supports {
            push_kwarg(&mut kwargs, "tool_stream", String::from_str("true"));
        }
        proof {
            assert(kwargs_view(kwargs@) =~= spec_base_kwargs(*params) + spec_glm_extras(*params));
        }
        kwargs
    }
}

/// The SiliconFlow adapter: an explicit thinking switch with a budget.
pub struct SiliconFlowAdapter {
    pub base: BaseAdapter,
}

/// The SiliconFlow extras: thinking enabled with a budget defaulting to
/// 1024 tokens, mirrored into the extra body.
pub open spec fn spec_siliconflow_extras(p: BuildModelParams) -> Seq<(Seq<char>, Seq<char>)> {
    match p.thinking {
        Some(t) => {
            let budget: nat = match t.budget_tokens {
                Some(b) => b as nat,
                None => 1024,
            };
            seq![
                ("enable_thinking"@, "true"@),
                ("thinking_budget"@, dec_of(budget)),
                ("extra_body"@, "{\"thinking_budget\":"@ + dec_of(budget) + "}"@),
            ]
        },
        None => Seq::<(Seq<char>, Seq<char>)>::empty(),
    }
}

impl SiliconFlowAdapter {
    /// The SiliconFlow adapter.
    pub fn new() -> (r: Self)
        ensures
            r.base.provider_name@ == "siliconflow"@,
    {
        SiliconFlowAdapter { base: BaseAdapter::new("siliconflow") }
    }

    /// The provider this adapter serves.
    pub fn provider_name(&self) -> (r: &'static str)
        ensures
            r@ == "siliconflow"@,
    {
        "siliconflow"
    }

    /// The shared keyword arguments plus the thinking switch.
    pub fn build_model_kwargs(&self, params: &BuildModelParams) -> (r: Vec<(String, String)>)
        ensures
            kwargs_view(r@) == spec_base_kwargs(*params) + spec_siliconflow_extras(*params),
    {
        let mut kwargs = self.base.build_model_kwargs(params);
        match &params.thinking {
            Some(t) => {
                let budget: u32 = match t.budget_tokens {
                    Some(b) => b,
                    None => 1024,
                };
                push_kwarg(&mut kwargs, "enable_thinking", String::from_str("true"));
                let d = u64_to_dec(budget as u64);
                push_kwarg(&mut kwargs, "thinking_budget", d.clone());
                let mut v = String::from_str("{\"thinking_budget\":");
                v.append(d.as_str());
                v.append("}");
                push_kwarg(&mut kwargs, "extra_body", v);
            },
            None => {},
        }
        proof {
            assert(kwargs_view(kwargs@) =~= spec_base_kwargs(*params) + spec_siliconflow_extras(
                *params,
            ));
        }
        kwargs
    }

    /// The SiliconFlow endpoint does not stream tool calls.
    pub fn supports_streaming_tool_calls(&self) -> (r: bool)
        ensures
            !r,
    {
        false
    }
}

/// The ModelScope adapter: thinking enabled only while streaming, and
/// explicitly disabled otherwise.
pub struct ModelScopeAdapter {
    pub base: BaseAdapter,
}

/// The ModelScope extras: while streaming with thinking, an enable switch
/// with a budget defaulting to 1024; while not streaming, an explicit
/// disable.
pub open spec fn spec_modelscope_extras(p: BuildModelParams) -> Seq<(Seq<char>, Seq<char>)> {
    if p.streaming && p.thinking is Some {
        let budget: nat = match p.thinking {
            Some(t) => match t.budget_tokens {
                Some(b) => b as nat,
                None => 1024,
            },
            None => 1024,
        };
        seq![
            (
                "extra_body"@,
                "{\"enable_thinking\":true,\"thinking_budget\":"@ + dec_of(budget) + "}"@,
            ),
            ("enable_thinking"@, "true"@),
            ("thinking_budget"@, dec_of(budget)),
        ]
    } else if !p.streaming {
        seq![
            ("extra_body"@, "{\"enable_thinking\":false}"@),
            ("enable_thinking"@, "false"@),
        ]
    } else {
        Seq::<(Seq<char>, Seq<char>)>::empty()
    }
}

impl ModelScopeAdapter {
    /// The ModelScope adapter.
    pub fn new() -> (r: Self)
        ensures
            r.base.provider_name@ == "modelscope"@,
    {
        ModelScopeAdapter { base: BaseAdapter::new("modelscope") }
    }

    /// The provider this adapter serves.
    pub fn provider_name(&self) -> (r: &'static str)
        ensures
            r@ == "modelscope"@,
    {
        "modelscope"
    }

    /// The shared keyword arguments plus the thinking switch.
    pub fn build_model_kwargs(&self, params: &BuildModelParams) -> (r: Vec<(String, String)>)
        ensures
            kwargs_view(r@) == spec_base_kwargs(*params) + spec_modelscope_extras(*params),
    {
        let mut kwargs = self.base.build_model_kwargs(params);
        if params.streaming && params.thinking.is_some() {
            let budget: u32 = match &params.thinking {
                Some(t) => match t.budget_tokens {
                    Some(b) => b,
                    None => 1024,
                },
                None => 1024,
            };
            let d = u64_to_dec(budget as u64);
            let mut v = String::from_str("{\"enable_thinking\":true,\"thinking_budget\":");
            v.append(d.as_str());
            v.append("}");
            push_kwarg(&mut kwargs, "extra_body", v);
            push_kwarg(&mut kwargs, "enable_thinking", String::from_str("true"));
            push_kwarg(&mut kwargs, "thinking_budget", d);
        } else if !params.streaming {
            push_kwarg(&mut kwargs, "extra_body", String::from_str(
                "{\"enable_thinking\":false}",
            ));
            push_kwarg(&mut kwargs, "enable_thinking", String::from_str("false"));
        }
        proof {
            assert(kwargs_view(kwargs@) =~= spec_base_kwargs(*params) + spec_modelscope_extras(
                *params,
            ));
        }
        kwargs
    }

    /// The ModelScope endpoint does not stream tool calls.
    pub fn supports_streaming_tool_calls(&self) -> (r: bool)
        ensures
            !r,
    {
        false
    }
}

/// The NVIDIA NIM adapter: thinking requested through chat-template
/// arguments.
pub struct NvidiaNimAdapter {
    pub base: BaseAdapter,
}

/// The serialized thinking configuration, with explicit nulls as the
/// vendor sees them.
pub open spec fn spec_thinking_json(t: ThinkingConfig) -> Seq<char> {
    "{\"type\":"@ + (match t.thinking_type {
        Some(tt) => json_quoted(tt@),
        None => "null"@,
    }) + ",\"budgetTokens\":"@ + (match t.budget_tokens {
        Some(b) => dec_of(b as nat),
        None => "null"@,
    }) + "}"@
}

/// The NVIDIA NIM extras: the thinking configuration forwarded as
/// chat-template arguments.
pub open spec fn spec_nvidia_extras(p: BuildModelParams) -> Seq<(Seq<char>, Seq<char>)> {
    match p.thinking {
        Some(t) => seq![
            ("chat_template_kwargs"@, "{\"thinking\":"@ + spec_thinking_json(t) + "}"@),
        ],
        None => Seq::<(Seq<char>, Seq<char>)>::empty(),
    }
}

impl NvidiaNimAdapter {
    /// The NVIDIA NIM adapter.
    pub fn new() -> (r: Self)
        ensures
            r.base.provider_name@ == "nvidia"@,
    {
        NvidiaNimAdapter { base: BaseAdapter::new("nvidia") }
    }

    /// The provider this adapter serves.
    pub fn provider_name(&self) -> (r: &'static str)
        ensures
            r@ == "nvidia"@,
    {
        "nvidia"
    }

    /// The shared keyword arguments plus the chat-template thinking
    /// arguments.
    pub fn build_model_kwargs(&self, params: &BuildModelParams) -> (r: Vec<(String, String)>)
        ensures
            kwargs_view(r@) == spec_base_kwargs(*params) + spec_nvidia_extras(*params),
    {
        let mut kwargs = self.base.build_model_kwargs(params);
        match &params.thinking {
            Some(t) => {
                let mut v = String::from_str("{\"thinking\":");
                v.append("{\"type\":");
                match &t.thinking_type {
                    Some(tt) => {
                        let q = json_quote(tt.as_str());
                        v.append(q.as_str());
                    },
                    None => {
                        v.append("null");
                    },
                }
                v.append(",\"budgetTokens\":");
                match t.budget_tokens {
                    Some(b) => {
                        let d = u64_to_dec(b as u64);
                        v.append(d.as_str());
                    },
                    None => {
                        v.append("null");
                    },
                }
                v.append("}");
                v.append("}");
                push_kwarg(&mut kwargs, "chat_template_kwargs", v);
                proof {
                    assert(v@ =~= "{\"thinking\":"@ + spec_thinking_json(*t) + "}"@);
                }
            },
            None => {},
        }
        proof {
            assert(kwargs_view(kwargs@) =~= spec_base_kwargs(*params) + spec_nvidia_extras(
                *params,
            ));
        }
        kwargs
    }
}

/// Append the response-format argument.
fn add_response_format(kwargs: &mut Vec<(String, String)>, params: &BuildModelParams)
    ensures
        kwargs_view(final(kwargs)@) == kwargs_view(old(kwargs)@) + seg_response_format(*params),
{
    match &params.response_format {
        Some(rf) => push_kwarg(kwargs, "response_format", rf.clone()),
        None => push_kwarg(kwargs, "response_format", String::from_str("{\"type\":\"text\"}")),
    }
    proof {
        assert(kwargs_view(kwargs@) =~= kwargs_view(old(kwargs)@) + seg_response_format(*params));
    }
}

/// Append the thinking budget and mode arguments.
fn add_thinking(kwargs: &mut Vec<(String, String)>, params: &BuildModelParams)
    ensures
        kwargs_view(final(kwargs)@) == kwargs_view(old(kwargs)@) + seg_thinking(*params),
{
    match &params.thinking {
        Some(t) => {
            match t.budget_tokens {
                Some(b) => {
                    let d = u64_to_dec(b as u64);
                    push_kwarg(kwargs, "thinking_budget", d);
                },
                None => {},
            }
            match &t.thinking_type {
                Some(tt) => {
                    let mut v = String::from_str("{\"type\":");
                    let q = json_quote(tt.as_str());
                    v.append(q.as_str());
                    v.append("}");
                    push_kwarg(kwargs, "thinking", v);
                },
                None => {},
            }
        },
        None => {},
    }
    proof {
        assert(kwargs_view(kwargs@) =~= kwargs_view(old(kwargs)@) + seg_thinking(*params));
    }
}

/// Append the top-k argument.
fn add_top_k(kwargs: &mut Vec<(String, String)>, params: &BuildModelParams)
    ensures
        kwargs_view(final(kwargs)@) == kwargs_view(old(kwargs)@) + seg_top_k(*params),
{
    match params.top_k {
        Some(k) => {
            let d = u64_to_dec(k as u64);
            push_kwarg(kwargs, "top_k", d);
        },
        None => {},
    }
    proof {
        assert(kwargs_view(kwargs@) =~= kwargs_view(old(kwargs)@) + seg_top_k(*params));
    }
}

/// Append the top-p argument.
fn add_top_p(kwargs: &mut Vec<(String, String)>, params: &BuildModelParams)
    ensures
        kwargs_view(final(kwargs)@) == kwargs_view(old(kwargs)@) + seg_top_p(*params),
{
    match &params.top_p {
        Some(v) => push_kwarg(kwargs, "top_p", v.clone()),
        None => {},
    }
    proof {
        assert(kwargs_view(kwargs@) =~= kwargs_view(old(kwargs)@) + seg_top_p(*params));
    }
}

/// Append the frequency-penalty argument.
fn add_frequency_penalty(kwargs: &mut Vec<(String, String)>, params: &BuildModelParams)
    ensures
        kwargs_view(final(kwargs)@) == kwargs_view(old(kwargs)@) + seg_frequency_penalty(*params),
{
    match &params.frequency_penalty {
        Some(v) => push_kwarg(kwargs, "frequency_penalty", v.clone()),
        None => {},
    }
    proof {
        assert(kwargs_view(kwargs@) =~= kwargs_view(old(kwargs)@) + seg_frequency_penalty(
            *params,
        ));
    }
}

/// Append the presence-penalty argument.
fn add_presence_penalty(kwargs: &mut Vec<(String, String)>, params: &BuildModelParams)
    ensures
        kwargs_view(final(kwargs)@) == kwargs_view(old(kwargs)@) + seg_presence_penalty(*params),
{
    match &params.presence_penalty {
        Some(v) => push_kwarg(kwargs, "presence_penalty", v.clone()),
        None => {},
    }
    proof {
        assert(kwargs_view(kwargs@) =~= kwargs_view(old(kwargs)@) + seg_presence_penalty(
            *params,
        ));
    }
}

/// Append the tool-list argument.
fn add_tools(kwargs: &mut Vec<(String, String)>, params: &BuildModelParams)
    ensures
        kwargs_view(final(kwargs)@) == kwargs_view(old(kwargs)@) + seg_tools(*params),
{
    match &params.tools {
        Some(ts) => {
            if ts.len() > 0 {
                let mut v = String::from_str("[");
                let joined = join_comma(ts);
                v.append(joined.as_str());
                v.append("]");
                push_kwarg(kwargs, "tools", v);
            }
        },
        None => {},
    }
    proof {
        assert(kwargs_view(kwargs@) =~= kwargs_view(old(kwargs)@) + seg_tools(*params));
    }
}

/// Append the tool-choice argument.
fn add_tool_choice(kwargs: &mut Vec<(String, String)>, params: &BuildModelParams)
    ensures
        kwargs_view(final(kwargs)@) == kwargs_view(old(kwargs)@) + seg_tool_choice(*params),
{
    match &params.tool_choice {
        Some(tc) => push_kwarg(kwargs, "tool_choice", tc.clone()),
        None => {},
    }
    proof {
        assert(kwargs_view(kwargs@) =~= kwargs_view(old(kwargs)@) + seg_tool_choice(*params));
    }
}

/// Append the stream-options argument.
fn add_stream_options(kwargs: &mut Vec<(String, String)>, params: &BuildModelParams)
    ensures
        kwargs_view(final(kwargs)@) == kwargs_view(old(kwargs)@) + seg_stream_options(*params),
{
    if params.streaming {
        push_kwarg(kwargs, "stream_options", String::from_str("{\"include_usage\":false}"));
    }
    proof {
        assert(kwargs_view(kwargs@) =~= kwargs_view(old(kwargs)@) + seg_stream_options(*params));
    }
}

/// Whether a dedicated adapter exists for a provider; requests for any
/// other provider fall back to the OpenAI adapter.
pub open spec fn spec_adapter_registered(p: Seq<char>) -> bool {
    ||| p == "openai"@
    ||| p == "openai_compatibility"@
    ||| p == "siliconflow"@
    ||| p == "glm"@
    ||| p == "kimi"@
    ||| p == "modelscope"@
    ||| p == "gemini"@
    ||| p == "nvidia"@
    ||| p == "minimax"@
}

/// Whether a dedicated adapter exists for a provider.
pub fn is_provider_supported(provider: &str) -> (r: bool)
    ensures
        r <==> spec_adapter_registered(provider@),
{
    crate::text::str_eq(provider, "openai") || crate::text::str_eq(
        provider,
        "openai_compatibility",
    ) || crate::text::str_eq(provider, "siliconflow") || crate::text::str_eq(provider, "glm")
        || crate::text::str_eq(provider, "kimi") || crate::text::str_eq(provider, "modelscope")
        || crate::text::str_eq(provider, "gemini") || crate::text::str_eq(provider, "nvidia")
        || crate::text::str_eq(provider, "minimax")
}

/// The providers with a dedicated adapter.
pub fn supported_providers() -> (r: Vec<&'static str>)
    ensures
        r@.map_values(|p: &str| p@) == seq![
            "openai"@,
            "openai_compatibility"@,
            "siliconflow"@,
            "glm"@,
            "kimi"@,
            "modelscope"@,
            "gemini"@,
            "nvidia"@,
            "minimax"@,
        ],
{
    let mut out: Vec<&'static str> = Vec::new();
    out.push("openai");
    out.push("openai_compatibility");
    out.push("siliconflow");
    out.push("glm");
    out.push("kimi");
    out.push("modelscope");
    out.push("gemini");
    out.push("nvidia");
    out.push("minimax");
    proof {
        assert(out@.map_values(|p: &str| p@) =~= seq![
            "openai"@,
            "openai_compatibility"@,
            "siliconflow"@,
            "glm"@,
            "kimi"@,
            "modelscope"@,
            "gemini"@,
            "nvidia"@,
            "minimax"@,
        ]);
    }
    out
}

/// Spec-level mirror of `ToolCallFunction`.
pub struct ToolCallFunctionV {
    pub name: Seq<char>,
    pub arguments: Seq<char>,
}

/// Spec-level mirror of `ToolCall`.
pub struct ToolCallV {
    pub id: Seq<char>,
    pub tool_type: Seq<char>,
    pub function: ToolCallFunctionV,
}

impl View for ToolCallFunction {
    type V = ToolCallFunctionV;

    open spec fn view(&self) -> ToolCallFunctionV {
        ToolCallFunctionV { name: self.name@, arguments: self.arguments@ }
    }
}

impl View for ToolCall {
    type V = ToolCallV;

    open spec fn view(&self) -> ToolCallV {
        ToolCallV { id: self.id@, tool_type: self.tool_type@, function: self.function@ }
    }
}

/// The serialized value at the first of the shapes that may carry a
/// tool-call's name: `function.name`, `name`, `tool.name`,
/// `tool.function.name`.
pub open spec fn name_location(tc: Seq<u8>) -> Option<Seq<u8>> {
    let from_function = match json_sub_of(tc, "function"@) {
        Some(f) => json_sub_of(f, "name"@),
        None => None,
    };
    match from_function {
        Some(v) => Some(v),
        None => match json_sub_of(tc, "name"@) {
            Some(v) => Some(v),
            None => match json_sub_of(tc, "tool"@) {
                Some(t) => match json_sub_of(t, "name"@) {
                    Some(v) => Some(v),
                    None => match json_sub_of(t, "function"@) {
                        Some(f) => json_sub_of(f, "name"@),
                        None => None,
                    },
                },
                None => None,
            },
        },
    }
}

/// The serialized value at the first of the shapes that may carry a
/// tool-call's arguments: `function.arguments`, `arguments`, `args`,
/// `tool.function.arguments`, `tool.arguments`, `tool.args`.
pub open spec fn args_location(tc: Seq<u8>) -> Option<Seq<u8>> {
    let from_function = match json_sub_of(tc, "function"@) {
        Some(f) => json_sub_of(f, "arguments"@),
        None => None,
    };
    match from_function {
        Some(v) => Some(v),
        None => match json_sub_of(tc, "arguments"@) {
            Some(v) => Some(v),
            None => match json_sub_of(tc, "args"@) {
                Some(v) => Some(v),
                None => match json_sub_of(tc, "tool"@) {
                    Some(t) => match json_sub_of(t, "function"@) {
                        Some(f) => match json_sub_of(f, "arguments"@) {
                            Some(v) => Some(v),
                            None => match json_sub_of(t, "arguments"@) {
                                Some(v) => Some(v),
                                None => json_sub_of(t, "args"@),
                            },
                        },
                        None => match json_sub_of(t, "arguments"@) {
                            Some(v) => Some(v),
                            None => json_sub_of(t, "args"@),
                        },
                    },
                    None => None,
                },
            },
        },
    }
}

/// The argument text of a located value: a string value stands verbatim,
/// any other value in compact serialized form, a missing one as empty
/// text.
pub open spec fn args_text_of(loc: Option<Seq<u8>>) -> Seq<char> {
    match loc {
        Some(v) => match json_top_str_of(v) {
            Some(s) => s,
            None => match json_compact_of(v) {
                Some(c) => c,
                None => Seq::empty(),
            },
        },
        None => Seq::empty(),
    }
}

/// One serialized tool call normalized to the standard shape: the id and
/// a non-empty name are required, the type defaults to `function`.
pub open spec fn norm_tool_call(tc: Seq<u8>) -> Option<ToolCallV> {
    match json_str_of(tc, "id"@) {
        None => None,
        Some(id) => if id.len() == 0 {
            None
        } else {
            let name = match name_location(tc) {
                Some(v) => match json_top_str_of(v) {
                    Some(n) => n,
                    None => Seq::empty(),
                },
                None => Seq::empty(),
            };
            if name.len() == 0 {
                None
            } else {
                Some(
                    ToolCallV {
                        id: id,
                        tool_type: match json_str_of(tc, "type"@) {
                            Some(t) => t,
                            None => "function"@,
                        },
                        function: ToolCallFunctionV {
                            name: name,
                            arguments: args_text_of(args_location(tc)),
                        },
                    },
                )
            }
        },
    }
}

/// The normalized calls of the serialized entries from `i` on, in order,
/// skipping entries without an id or name.
pub open spec fn normalized_from(items: Seq<Seq<u8>>, i: nat) -> Seq<ToolCallV>
    decreases items.len() - i,
{
    if i >= items.len() {
        Seq::empty()
    } else {
        (match norm_tool_call(items[i as int]) {
            Some(c) => seq![c],
            None => Seq::empty(),
        }) + normalized_from(items, i + 1)
    }
}

/// Read the serialized value at the first name-carrying shape.
fn read_name_location(tc: &[u8]) -> (r: Option<Vec<u8>>)
    ensures
        match r {
            Some(v) => name_location(tc@) == Some(v@),
            None => name_location(tc@) is None,
        },
{
    if let Some(f) = json_sub_field(tc, "function") {
        if let Some(v) = json_sub_field(f.as_slice(), "name") {
            return Some(v);
        }
    }
    if let Some(v) = json_sub_field(tc, "name") {
        return Some(v);
    }
    if let Some(t) = json_sub_field(tc, "tool") {
        if let Some(v) = json_sub_field(t.as_slice(), "name") {
            return Some(v);
        }
        if let Some(f) = json_sub_field(t.as_slice(), "function") {
            return json_sub_field(f.as_slice(), "name");
        }
        return None;
    }
    None
}

/// Read the serialized value at the first argument-carrying shape.
fn read_args_location(tc: &[u8]) -> (r: Option<Vec<u8>>)
    ensures
        match r {
            Some(v) => args_location(tc@) == Some(v@),
            None => args_location(tc@) is None,
        },
{
    if let Some(f) = json_sub_field(tc, "function") {
        if let Some(v) = json_sub_field(f.as_slice(), "arguments") {
            return Some(v);
        }
    }
    if let Some(v) = json_sub_field(tc, "arguments") {
        return Some(v);
    }
    if let Some(v) = json_sub_field(tc, "args") {
        return Some(v);
    }
    if let Some(t) = json_sub_field(tc, "tool") {
        if let Some(f) = json_sub_field(t.as_slice(), "function") {
            if let Some(v) = json_sub_field(f.as_slice(), "arguments") {
                return Some(v);
            }
        }
        if let Some(v) = json_sub_field(t.as_slice(), "arguments") {
            return Some(v);
        }
        return json_sub_field(t.as_slice(), "args");
    }
    None
}

/// Normalize one serialized tool call.
fn read_tool_call(tc: &[u8]) -> (r: Option<ToolCall>)
    ensures
        match r {
            Some(c) => norm_tool_call(tc@) == Some(c@),
            None => norm_tool_call(tc@) is None,
        },
{
    let id = match json_str_field(tc, "id") {
        Some(id) => id,
        None => {
            return None;
        },
    };
    if id.as_str().is_empty() {
        return None;
    }
    let name = match read_name_location(tc) {
        Some(v) => match json_top_str(v.as_slice()) {
            Some(n) => n,
            None => String::new(),
        },
        None => String::new(),
    };
    if name.as_str().is_empty() {
        return None;
    }
    let tool_type = match json_str_field(tc, "type") {
        Some(t) => t,
        None => String::from_str("function"),
    };
    let arguments = match read_args_location(tc) {
        Some(v) => match json_top_str(v.as_slice()) {
            Some(s) => s,
            None => match json_compact(v.as_slice()) {
                Some(c) => c,
                None => String::new(),
            },
        },
        None => String::new(),
    };
    Some(ToolCall { id, tool_type, function: ToolCallFunction { name, arguments } })
}

/// Normalize serialized tool calls of whatever shape a vendor emitted to
/// the standard form, in order, dropping entries without an id or a name.
pub fn normalize_tool_calls(tool_calls: &Vec<Vec<u8>>) -> (r: Vec<ToolCall>)
    ensures
        r@.map_values(|c: ToolCall| c@) == normalized_from(
            tool_calls@.map_values(|t: Vec<u8>| t@),
            0,
        ),
{
    let ghost items = tool_calls@.map_values(|t: Vec<u8>| t@);
    let mut out: Vec<ToolCall> = Vec::new();
    let n = tool_calls.len();
    let mut i: usize = 0;
    proof {
        assert(out@.map_values(|c: ToolCall| c@) + normalized_from(items, 0) =~= normalized_from(
            items,
            0,
        ));
    }
    while i < n
        invariant
            i <= n,
            n == tool_calls@.len(),
            items == tool_calls@.map_values(|t: Vec<u8>| t@),
            normalized_from(items, 0) == out@.map_values(|c: ToolCall| c@) + normalized_from(
                items,
                i as nat,
            ),
        decreases n - i,
    {
        proof {
            assert(items[i as int] == tool_calls@[i as int]@);
        }
        match read_tool_call(tool_calls[i].as_slice()) {
            Some(c) => {
                let ghost cv = c@;
                let ghost prev = out@;
                out.push(c);
                proof {
                    assert(out@.map_values(|c: ToolCall| c@) =~= prev.map_values(
                        |c: ToolCall| c@,
                    ).push(cv));
                    assert(prev.map_values(|c: ToolCall| c@).push(cv) + normalized_from(
                        items,
                        i as nat + 1,
                    ) =~= prev.map_values(|c: ToolCall| c@) + (seq![cv] + normalized_from(
                        items,
                        i as nat + 1,
                    )));
                }
            },
            None => {
                proof {
                    assert(Seq::<ToolCallV>::empty() + normalized_from(items, i as nat + 1)
                        =~= normalized_from(items, i as nat + 1));
                }
            },
        }
        i += 1;
    }
    proof {
        assert(normalized_from(items, n as nat) =~= Seq::<ToolCallV>::empty());
        assert(out@.map_values(|c: ToolCall| c@) + Seq::<ToolCallV>::empty() =~= out@.map_values(
            |c: ToolCall| c@,
        ));
    }
    out
}

} // verus!
