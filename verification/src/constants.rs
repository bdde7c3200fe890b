//! Static per-vendor configuration: base URLs, default model names, and
//! capability flags, looked up by provider name.

use vstd::prelude::*;

verus! {

/// Capability flags reported for a provider.
#[derive(Debug, Clone, Copy, PartialEq, Eq, Structural)]
pub struct ProviderCapabilities {
    pub supports_streaming: bool,
    pub supports_tool_calls: bool,
    pub supports_streaming_tool_calls: bool,
    pub supports_json_schema: bool,
    pub supports_thinking: bool,
    pub supports_vision: bool,
}

/// Whether a provider name has an entry in the base-URL table.
pub open spec fn has_base_url(provider: Seq<char>) -> bool {
    ||| provider == "openai"@
    ||| provider == "siliconflow"@
    ||| provider == "glm"@
    ||| provider == "modelscope"@
    ||| provider == "kimi"@
    ||| provider == "nvidia"@
    ||| provider == "minimax"@
    ||| provider == "openai_compatibility"@
}

/// The base URL recorded for a provider, where one is recorded.
pub open spec fn spec_base_url(provider: Seq<char>) -> Seq<char> {
    if provider == "openai"@ {
        "https://api.openai.com/v1"@
    } else if provider == "siliconflow"@ {
        "https://api.siliconflow.cn/v1"@
    } else if provider == "glm"@ {
        "https://open.bigmodel.cn/api/paas/v4"@
    } else if provider == "modelscope"@ {
        "https://api-inference.modelscope.cn/v1"@
    } else if provider == "kimi"@ {
        "https://api.moonshot.cn/v1"@
    } else if provider == "nvidia"@ {
        "https://integrate.api.nvidia.com/v1"@
    } else if provider == "minimax"@ {
        "https://api.minimax.io/v1"@
    } else {
        ""@
    }
}

/// Base URL for a provider, or `None` for a provider outside the table.
/// The `openai_compatibility` entry is recorded with an empty URL: the
/// caller supplies a custom one.
pub fn get_base_url(provider: &str) -> (r: Option<&'static str>)
    ensures
        r is Some <==> has_base_url(provider@),
        r matches Some(url) ==> url@ == spec_base_url(provider@),
{
    let p = provider;
    if str_eq(p, "openai") {
        Some("https://api.openai.com/v1")
    } else if str_eq(p, "siliconflow") {
        Some("https://api.siliconflow.cn/v1")
    } else if str_eq(p, "glm") {
        Some("https://open.bigmodel.cn/api/paas/v4")
    } else if str_eq(p, "modelscope") {
        Some("https://api-inference.modelscope.cn/v1")
    } else if str_eq(p, "kimi") {
        Some("https://api.moonshot.cn/v1")
    } else if str_eq(p, "nvidia") {
        Some("https://integrate.api.nvidia.com/v1")
    } else if str_eq(p, "minimax") {
        Some("https://api.minimax.io/v1")
    } else if str_eq(p, "openai_compatibility") {
        Some("")
    } else {
        None
    }
}

/// String equality on `&str` by view.
pub fn str_eq(a: &str, b: &str) -> (r: bool)
    ensures
        r <==> a@ == b@,
{
    let a_string = a.to_owned();
    let b_string = b.to_owned();
    a_string == b_string
}

/// Whether a provider has a default model recorded.
pub open spec fn has_default_model(provider: Seq<char>) -> bool {
    ||| provider == "gemini"@
    ||| provider == "openai"@
    ||| provider == "openai_compatibility"@
    ||| provider == "siliconflow"@
    ||| provider == "glm"@
    ||| provider == "modelscope"@
    ||| provider == "kimi"@
    ||| provider == "nvidia"@
    ||| provider == "minimax"@
}

/// The default model recorded for a provider.
pub open spec fn spec_default_model(provider: Seq<char>) -> Seq<char> {
    if provider == "gemini"@ {
        "gemini-2.0-flash-exp"@
    } else if provider == "openai"@ || provider == "openai_compatibility"@ {
        "gpt-4o-mini"@
    } else if provider == "siliconflow"@ {
        "deepseek-ai/DeepSeek-V2.5"@
    } else if provider == "glm"@ {
        "glm-4-flash"@
    } else if provider == "modelscope"@ {
        "AI-ModelScope/glm-4-9b-chat"@
    } else if provider == "kimi"@ {
        "moonshot-v1-8k"@
    } else if provider == "nvidia"@ {
        "deepseek-ai/deepseek-r1"@
    } else if provider == "minimax"@ {
        "MiniMax-M2.1"@
    } else {
        ""@
    }
}

/// Default model for a provider, or `None` outside the table.
pub fn get_default_model(provider: &str) -> (r: Option<&'static str>)
    ensures
        r is Some <==> has_default_model(provider@),
        r matches Some(m) ==> m@ == spec_default_model(provider@),
{
    let p = provider;
    if str_eq(p, "gemini") {
        Some("gemini-2.0-flash-exp")
    } else if str_eq(p, "openai") {
        Some("gpt-4o-mini")
    } else if str_eq(p, "openai_compatibility") {
        Some("gpt-4o-mini")
    } else if str_eq(p, "siliconflow") {
        Some("deepseek-ai/DeepSeek-V2.5")
    } else if str_eq(p, "glm") {
        Some("glm-4-flash")
    } else if str_eq(p, "modelscope") {
        Some("AI-ModelScope/glm-4-9b-chat")
    } else if str_eq(p, "kimi") {
        Some("moonshot-v1-8k")
    } else if str_eq(p, "nvidia") {
        Some("deepseek-ai/deepseek-r1")
    } else if str_eq(p, "minimax") {
        Some("MiniMax-M2.1")
    } else {
        None
    }
}

/// Whether a provider has capability flags recorded.
pub open spec fn has_capabilities(provider: Seq<char>) -> bool {
    ||| provider == "openai"@
    ||| provider == "siliconflow"@
    ||| provider == "glm"@
    ||| provider == "modelscope"@
    ||| provider == "kimi"@
    ||| provider == "gemini"@
    ||| provider == "nvidia"@
    ||| provider == "minimax"@
}

/// The capability flags recorded for a provider.
pub open spec fn spec_capabilities(provider: Seq<char>) -> ProviderCapabilities {
    if provider == "openai"@ {
        (ProviderCapabilities {
            supports_streaming: true,
            supports_tool_calls: true,
            supports_streaming_tool_calls: false,
            supports_json_schema: true,
            supports_thinking: false,
            supports_vision: true,
        })
    } else if provider == "siliconflow"@ {
        (ProviderCapabilities {
            supports_streaming: true,
            supports_tool_calls: true,
            supports_streaming_tool_calls: false,
            supports_json_schema: true,
            supports_thinking: true,
            supports_vision: false,
        })
    } else if provider == "glm"@ {
        (ProviderCapabilities {
            supports_streaming: true,
            supports_tool_calls: true,
            supports_streaming_tool_calls: true,
            supports_json_schema: true,
            supports_thinking: true,
            supports_vision: false,
        })
    } else if provider == "modelscope"@ {
        (ProviderCapabilities {
            supports_streaming: true,
            supports_tool_calls: true,
            supports_streaming_tool_calls: false,
            supports_json_schema: true,
            supports_thinking: true,
            supports_vision: false,
        })
    } else if provider == "kimi"@ {
        (ProviderCapabilities {
            supports_streaming: true,
            supports_tool_calls: true,
            supports_streaming_tool_calls: true,
            supports_json_schema: true,
            supports_thinking: false,
            supports_vision: false,
        })
    } else if provider == "gemini"@ {
        (ProviderCapabilities {
            supports_streaming: true,
            supports_tool_calls: true,
            supports_streaming_tool_calls: true,
            supports_json_schema: false,
            supports_thinking: true,
            supports_vision: true,
        })
    } else if provider == "nvidia"@ {
        (ProviderCapabilities {
            supports_streaming: true,
            supports_tool_calls: true,
            supports_streaming_tool_calls: true,
            supports_json_schema: true,
            supports_thinking: true,
            supports_vision: true,
        })
    } else {
        (ProviderCapabilities {
            supports_streaming: true,
            supports_tool_calls: true,
            supports_streaming_tool_calls: true,
            supports_json_schema: true,
            supports_thinking: true,
            supports_vision: false,
        })
    }
}

/// Capability flags for a provider, or `None` outside the table.
pub fn get_capabilities(provider: &str) -> (r: Option<ProviderCapabilities>)
    ensures
        r is Some <==> has_capabilities(provider@),
        r matches Some(c) ==> c == spec_capabilities(provider@),
{
    let p = provider;
    if str_eq(p, "openai") || str_eq(p, "siliconflow") || str_eq(p, "glm") || str_eq(
        p,
        "modelscope",
    ) || str_eq(p, "kimi") || str_eq(p, "gemini") || str_eq(p, "nvidia") || str_eq(p, "minimax") {
        let c = if str_eq(p, "openai") {
            (ProviderCapabilities {
                supports_streaming: true,
                supports_tool_calls: true,
                supports_streaming_tool_calls: false,
                supports_json_schema: true,
                supports_thinking: false,
                supports_vision: true,
            })
        } else if str_eq(p, "siliconflow") {
            (ProviderCapabilities {
                supports_streaming: true,
                supports_tool_calls: true,
                supports_streaming_tool_calls: false,
                supports_json_schema: true,
                supports_thinking: true,
                supports_vision: false,
            })
        } else if str_eq(p, "glm") {
            (ProviderCapabilities {
                supports_streaming: true,
                supports_tool_calls: true,
                supports_streaming_tool_calls: true,
                supports_json_schema: true,
                supports_thinking: true,
                supports_vision: false,
            })
        } else if str_eq(p, "modelscope") {
            (ProviderCapabilities {
                supports_streaming: true,
                supports_tool_calls: true,
                supports_streaming_tool_calls: false,
                supports_json_schema: true,
                supports_thinking: true,
                supports_vision: false,
            })
        } else if str_eq(p, "kimi") {
            (ProviderCapabilities {
                supports_streaming: true,
                supports_tool_calls: true,
                supports_streaming_tool_calls: true,
                supports_json_schema: true,
                supports_thinking: false,
                supports_vision: false,
            })
        } else if str_eq(p, "gemini") {
            (ProviderCapabilities {
                supports_streaming: true,
                supports_tool_calls: true,
                supports_streaming_tool_calls: true,
                supports_json_schema: false,
                supports_thinking: true,
                supports_vision: true,
            })
        } else if str_eq(p, "nvidia") {
            (ProviderCapabilities {
                supports_streaming: true,
                supports_tool_calls: true,
                supports_streaming_tool_calls: true,
                supports_json_schema: true,
                supports_thinking: true,
                supports_vision: true,
            })
        } else {
            (ProviderCapabilities {
                supports_streaming: true,
                supports_tool_calls: true,
                supports_streaming_tool_calls: true,
                supports_json_schema: true,
                supports_thinking: true,
                supports_vision: false,
            })
        };
        Some(c)
    } else {
        None
    }
}

/// The capability named by a capability keyword, `false` for a provider or
/// keyword outside the tables.
pub open spec fn spec_supports(provider: Seq<char>, capability: Seq<char>) -> bool {
    if !has_capabilities(provider) {
        false
    } else {
        let c = spec_capabilities(provider);
        if capability == "streaming"@ {
            c.supports_streaming
        } else if capability == "tool_calls"@ {
            c.supports_tool_calls
        } else if capability == "streaming_tool_calls"@ {
            c.supports_streaming_tool_calls
        } else if capability == "json_schema"@ {
            c.supports_json_schema
        } else if capability == "thinking"@ {
            c.supports_thinking
        } else if capability == "vision"@ {
            c.supports_vision
        } else {
            false
        }
    }
}

/// Whether a provider supports a capability named by keyword.
pub fn supports_capability(provider: &str, capability: &str) -> (r: bool)
    ensures
        r == spec_supports(provider@, capability@),
{
    match get_capabilities(provider) {
        None => false,
        Some(c) => {
            if str_eq(capability, "streaming") {
                c.supports_streaming
            } else if str_eq(capability, "tool_calls") {
                c.supports_tool_calls
            } else if str_eq(capability, "streaming_tool_calls") {
                c.supports_streaming_tool_calls
            } else if str_eq(capability, "json_schema") {
                c.supports_json_schema
            } else if str_eq(capability, "thinking") {
                c.supports_thinking
            } else if str_eq(capability, "vision") {
                c.supports_vision
            } else {
                false
            }
        },
    }
}

/// The full configuration record for a provider.
pub struct ProviderConfig {
    pub base_url: Option<String>,
    pub default_model: Option<String>,
    pub capabilities: Option<ProviderCapabilities>,
}

/// The three lookups combined into one configuration record.
pub fn get_provider_config(provider: &str) -> (r: ProviderConfig)
    ensures
        r.base_url is Some <==> has_base_url(provider@),
        r.base_url matches Some(u) ==> u@ == spec_base_url(provider@),
        r.default_model is Some <==> has_default_model(provider@),
        r.default_model matches Some(m) ==> m@ == spec_default_model(provider@),
        r.capabilities is Some <==> has_capabilities(provider@),
        r.capabilities matches Some(c) ==> c == spec_capabilities(provider@),
{
    let base_url = match get_base_url(provider) {
        Some(u) => Some(u.to_owned()),
        None => None,
    };
    let default_model = match get_default_model(provider) {
        Some(m) => Some(m.to_owned()),
        None => None,
    };
    ProviderConfig { base_url, default_model, capabilities: get_capabilities(provider) }
}

} // verus!
