//! The per-vendor dialects: client configuration builders and the chunk
//! shapes each vendor's chat-completions stream carries. The dialects are
//! structurally identical and differ only in field names, so one generic
//! decoder handles them all; each vendor contributes only its reasoning
//! field schema here.

use vstd::prelude::*;

use crate::decoder::VendorSchema;
use crate::events::Usage;

verus! {

/// The reasoning field names of the Kimi dialect, in precedence order.
pub fn kimi_schema() -> (r: VendorSchema)
    ensures
        r@ == seq!["reasoning_content"@, "reasoning"@, "thinking"@],
{
    let mut fields: Vec<String> = Vec::new();
    fields.push(String::from_str("reasoning_content"));
    fields.push(String::from_str("reasoning"));
    fields.push(String::from_str("thinking"));
    let r = VendorSchema { reasoning_fields: fields };
    proof {
        assert(r@ =~= seq!["reasoning_content"@, "reasoning"@, "thinking"@]);
    }
    r
}

/// The reasoning field names shared by the NVIDIA NIM, SiliconFlow and
/// ModelScope dialects (and plain OpenAI-compatible endpoints).
pub fn openai_compatible_schema() -> (r: VendorSchema)
    ensures
        r@ == seq!["reasoning_content"@, "reasoning"@],
{
    let mut fields: Vec<String> = Vec::new();
    fields.push(String::from_str("reasoning_content"));
    fields.push(String::from_str("reasoning"));
    let r = VendorSchema { reasoning_fields: fields };
    proof {
        assert(r@ =~= seq!["reasoning_content"@, "reasoning"@]);
    }
    r
}

/// The NVIDIA NIM reasoning schema.
pub fn nvidia_schema() -> (r: VendorSchema)
    ensures
        r@ == seq!["reasoning_content"@, "reasoning"@],
{
    openai_compatible_schema()
}

/// The SiliconFlow reasoning schema.
pub fn siliconflow_schema() -> (r: VendorSchema)
    ensures
        r@ == seq!["reasoning_content"@, "reasoning"@],
{
    openai_compatible_schema()
}

/// The ModelScope reasoning schema.
pub fn modelscope_schema() -> (r: VendorSchema)
    ensures
        r@ == seq!["reasoning_content"@, "reasoning"@],
{
    openai_compatible_schema()
}

// ---------------------------------------------------------------------------
// Kimi (Moonshot AI)
// ---------------------------------------------------------------------------
/// Connection configuration for the Kimi endpoint; the HTTP client around
/// it lives outside the library.
pub struct KimiClient {
    pub api_key: String,
    pub base_url: String,
}

/// Builder for `KimiClient`.
pub struct KimiClientBuilder {
    pub api_key: Option<String>,
    pub base_url: Option<String>,
}

impl KimiClient {
    /// A fresh builder.
    pub fn builder() -> (r: KimiClientBuilder)
        ensures
            r.api_key is None,
            r.base_url is None,
    {
        KimiClientBuilder { api_key: None, base_url: None }
    }

    /// A client from explicit credentials.
    pub fn new(api_key: String, base_url: String) -> (r: Self)
        ensures
            r.api_key == api_key,
            r.base_url == base_url,
    {
        KimiClient { api_key, base_url }
    }
}

impl KimiClientBuilder {
    /// Record the API key.
    pub fn api_key(self, api_key: String) -> (r: Self)
        ensures
            r.api_key matches Some(k) && k == api_key,
            r.base_url == self.base_url,
    {
        KimiClientBuilder { api_key: Some(api_key), base_url: self.base_url }
    }

    /// Record a custom base URL.
    pub fn base_url(self, base_url: &str) -> (r: Self)
        ensures
            r.base_url matches Some(u) && u@ == base_url@,
            r.api_key == self.api_key,
    {
        KimiClientBuilder { api_key: self.api_key, base_url: Some(base_url.to_owned()) }
    }

    /// Build the client: the API key is required; the base URL defaults to
    /// the vendor endpoint.
    pub fn build(self) -> (r: Result<KimiClient, String>)
        ensures
            self.api_key is None <==> r is Err,
            r matches Ok(c) ==> {
                &&& Some(c.api_key) == self.api_key
                &&& c.base_url@ == (match self.base_url {
                    Some(u) => u@,
                    None => "https://api.moonshot.cn/v1"@,
                })
            },
    {
        let api_key = match self.api_key {
            Some(k) => k,
            None => {
                return Err(String::from_str("API key is required"));
            },
        };
        let base_url = match self.base_url {
            Some(u) => u,
            None => String::from_str("https://api.moonshot.cn/v1"),
        };
        Ok(KimiClient { api_key, base_url })
    }
}

/// One Kimi streaming delta: content, aliased reasoning text, and
/// tool-call fragments.
pub struct KimiStreamingDelta {
    pub content: Option<String>,
    pub role: Option<String>,
    pub thinking: Option<String>,
    pub tool_calls: Vec<KimiToolCall>,
}

/// One Kimi tool-call fragment.
pub struct KimiToolCall {
    pub id: Option<String>,
    pub tool_type: Option<String>,
    pub function: KimiFunction,
    pub index: Option<usize>,
}

/// The function part of a Kimi tool-call fragment.
pub struct KimiFunction {
    pub name: Option<String>,
    pub arguments: Option<String>,
}

/// One Kimi streaming choice.
pub struct KimiStreamingChoice {
    pub delta: KimiStreamingDelta,
    pub finish_reason: Option<String>,
}

/// One Kimi streaming chunk.
pub struct KimiStreamingChunk {
    pub choices: Vec<KimiStreamingChoice>,
}

/// The final response value of a Kimi stream.
pub struct KimiStreamingResponse {
    pub content: String,
}

// ---------------------------------------------------------------------------
// ModelScope
// ---------------------------------------------------------------------------
/// Connection configuration for the ModelScope endpoint.
pub struct ModelScopeClient {
    pub api_key: String,
    pub base_url: String,
}

/// Builder for `ModelScopeClient`.
pub struct ModelScopeClientBuilder {
    pub api_key: Option<String>,
    pub base_url: Option<String>,
}

impl ModelScopeClient {
    /// A fresh builder.
    pub fn builder() -> (r: ModelScopeClientBuilder)
        ensures
            r.api_key is None,
            r.base_url is None,
    {
        ModelScopeClientBuilder { api_key: None, base_url: None }
    }

    /// A client from explicit credentials.
    pub fn new(api_key: String, base_url: String) -> (r: Self)
        ensures
            r.api_key == api_key,
            r.base_url == base_url,
    {
        ModelScopeClient { api_key, base_url }
    }
}

impl ModelScopeClientBuilder {
    /// Record the API key.
    pub fn api_key(self, api_key: String) -> (r: Self)
        ensures
            r.api_key matches Some(k) && k == api_key,
            r.base_url == self.base_url,
    {
        ModelScopeClientBuilder { api_key: Some(api_key), base_url: self.base_url }
    }

    /// Record a custom base URL.
    pub fn base_url(self, base_url: &str) -> (r: Self)
        ensures
            r.base_url matches Some(u) && u@ == base_url@,
            r.api_key == self.api_key,
    {
        ModelScopeClientBuilder { api_key: self.api_key, base_url: Some(base_url.to_owned()) }
    }

    /// Build the client: the API key is required; the base URL defaults to
    /// the vendor endpoint.
    pub fn build(self) -> (r: Result<ModelScopeClient, String>)
        ensures
            self.api_key is None <==> r is Err,
            r matches Ok(c) ==> {
                &&& Some(c.api_key) == self.api_key
                &&& c.base_url@ == (match self.base_url {
                    Some(u) => u@,
                    None => "https://api-inference.modelscope.cn/v1"@,
                })
            },
    {
        let api_key = match self.api_key {
            Some(k) => k,
            None => {
                return Err(String::from_str("API key is required"));
            },
        };
        let base_url = match self.base_url {
            Some(u) => u,
            None => String::from_str("https://api-inference.modelscope.cn/v1"),
        };
        Ok(ModelScopeClient { api_key, base_url })
    }
}

/// One ModelScope streaming delta.
pub struct ModelScopeStreamingDelta {
    pub content: Option<String>,
    pub role: Option<String>,
    pub reasoning: Option<String>,
    pub tool_calls: Option<Vec<ModelScopeToolCall>>,
}

/// One ModelScope tool-call fragment.
pub struct ModelScopeToolCall {
    pub id: Option<String>,
    pub tool_type: Option<String>,
    pub function: ModelScopeFunction,
    pub index: Option<usize>,
}

/// The function part of a ModelScope tool-call fragment.
pub struct ModelScopeFunction {
    pub name: Option<String>,
    pub arguments: Option<String>,
}

/// The final response value of a ModelScope stream.
pub struct ModelScopeStreamingResponse {
    pub content: String,
}

// ---------------------------------------------------------------------------
// NVIDIA NIM
// ---------------------------------------------------------------------------
/// Connection configuration for the NVIDIA NIM endpoint.
pub struct NvidiaNimClient {
    pub api_key: String,
    pub base_url: String,
}

/// Builder for `NvidiaNimClient`.
pub struct NvidiaNimClientBuilder {
    pub api_key: Option<String>,
    pub base_url: Option<String>,
}

impl NvidiaNimClient {
    /// A fresh builder.
    pub fn builder() -> (r: NvidiaNimClientBuilder)
        ensures
            r.api_key is None,
            r.base_url is None,
    {
        NvidiaNimClientBuilder { api_key: None, base_url: None }
    }

    /// A client from explicit credentials.
    pub fn new(api_key: String, base_url: String) -> (r: Self)
        ensures
            r.api_key == api_key,
            r.base_url == base_url,
    {
        NvidiaNimClient { api_key, base_url }
    }
}

impl NvidiaNimClientBuilder {
    /// Record the API key.
    pub fn api_key(self, api_key: String) -> (r: Self)
        ensures
            r.api_key matches Some(k) && k == api_key,
            r.base_url == self.base_url,
    {
        NvidiaNimClientBuilder { api_key: Some(api_key), base_url: self.base_url }
    }

    /// Record a custom base URL.
    pub fn base_url(self, base_url: &str) -> (r: Self)
        ensures
            r.base_url matches Some(u) && u@ == base_url@,
            r.api_key == self.api_key,
    {
        NvidiaNimClientBuilder { api_key: self.api_key, base_url: Some(base_url.to_owned()) }
    }

    /// Build the client: the API key is required; the base URL defaults to
    /// the vendor endpoint.
    pub fn build(self) -> (r: Result<NvidiaNimClient, String>)
        ensures
            self.api_key is None <==> r is Err,
            r matches Ok(c) ==> {
                &&& Some(c.api_key) == self.api_key
                &&& c.base_url@ == (match self.base_url {
                    Some(u) => u@,
                    None => "https://integrate.api.nvidia.com/v1"@,
                })
            },
    {
        let api_key = match self.api_key {
            Some(k) => k,
            None => {
                return Err(String::from_str("API key is required"));
            },
        };
        let base_url = match self.base_url {
            Some(u) => u,
            None => String::from_str("https://integrate.api.nvidia.com/v1"),
        };
        Ok(NvidiaNimClient { api_key, base_url })
    }
}

/// One NVIDIA NIM streaming delta.
pub struct NvidiaNimStreamingDelta {
    pub content: Option<String>,
    pub role: Option<String>,
    pub tool_calls: Option<Vec<NvidiaNimToolCall>>,
    pub reasoning: Option<String>,
}

/// One NVIDIA NIM tool-call fragment.
pub struct NvidiaNimToolCall {
    pub id: Option<String>,
    pub tool_type: Option<String>,
    pub function: NvidiaNimFunction,
    pub index: Option<usize>,
}

/// The function part of an NVIDIA NIM tool-call fragment.
pub struct NvidiaNimFunction {
    pub name: Option<String>,
    pub arguments: Option<String>,
}

/// One NVIDIA NIM streaming choice.
pub struct NvidiaNimStreamingChoice {
    pub delta: NvidiaNimStreamingDelta,
    pub finish_reason: Option<String>,
}

/// One NVIDIA NIM streaming chunk.
pub struct NvidiaNimStreamingChunk {
    pub choices: Vec<NvidiaNimStreamingChoice>,
    pub usage: Option<NvidiaNimUsage>,
}

/// The usage counters an NVIDIA NIM stream reports.
pub struct NvidiaNimUsage {
    pub prompt_tokens: Option<u32>,
    pub completion_tokens: Option<u32>,
    pub total_tokens: Option<u32>,
}

/// The final response value of an NVIDIA NIM stream.
pub struct NvidiaNimFinalResponse {
    pub usage: NvidiaNimUsage,
}

impl NvidiaNimFinalResponse {
    /// The canonical usage counters, zero-filled where the vendor reported
    /// none.
    pub fn token_usage(&self) -> (r: Usage)
        ensures
            r.prompt_tokens == (match self.usage.prompt_tokens {
                Some(p) => p as u64,
                None => 0u64,
            }),
            r.completion_tokens == (match self.usage.completion_tokens {
                Some(c) => c as u64,
                None => 0u64,
            }),
            r.total_tokens == (match self.usage.total_tokens {
                Some(t) => t as u64,
                None => 0u64,
            }),
    {
        Usage {
            prompt_tokens: match self.usage.prompt_tokens {
                Some(p) => p as u64,
                None => 0,
            },
            completion_tokens: match self.usage.completion_tokens {
                Some(c) => c as u64,
                None => 0,
            },
            total_tokens: match self.usage.total_tokens {
                Some(t) => t as u64,
                None => 0,
            },
        }
    }
}

// ---------------------------------------------------------------------------
// SiliconFlow
// ---------------------------------------------------------------------------
/// Connection configuration for the SiliconFlow endpoint.
pub struct SiliconFlowClient {
    pub api_key: String,
    pub base_url: String,
}

/// Builder for `SiliconFlowClient`.
pub struct SiliconFlowClientBuilder {
    pub api_key: Option<String>,
    pub base_url: Option<String>,
}

impl SiliconFlowClient {
    /// A fresh builder.
    pub fn builder() -> (r: SiliconFlowClientBuilder)
        ensures
            r.api_key is None,
            r.base_url is None,
    {
        SiliconFlowClientBuilder { api_key: None, base_url: None }
    }

    /// A client from explicit credentials.
    pub fn new(api_key: String, base_url: String) -> (r: Self)
        ensures
            r.api_key == api_key,
            r.base_url == base_url,
    {
        SiliconFlowClient { api_key, base_url }
    }
}

impl SiliconFlowClientBuilder {
    /// Record the API key.
    pub fn api_key(self, api_key: String) -> (r: Self)
        ensures
            r.api_key matches Some(k) && k == api_key,
            r.base_url == self.base_url,
    {
        SiliconFlowClientBuilder { api_key: Some(api_key), base_url: self.base_url }
    }

    /// Record a custom base URL.
    pub fn base_url(self, base_url: &str) -> (r: Self)
        ensures
            r.base_url matches Some(u) && u@ == base_url@,
            r.api_key == self.api_key,
    {
        SiliconFlowClientBuilder { api_key: self.api_key, base_url: Some(base_url.to_owned()) }
    }

    /// Build the client: the API key is required; the base URL defaults to
    /// the vendor endpoint.
    pub fn build(self) -> (r: Result<SiliconFlowClient, String>)
        ensures
            self.api_key is None <==> r is Err,
            r matches Ok(c) ==> {
                &&& Some(c.api_key) == self.api_key
                &&& c.base_url@ == (match self.base_url {
                    Some(u) => u@,
                    None => "https://api.siliconflow.cn/v1"@,
                })
            },
    {
        let api_key = match self.api_key {
            Some(k) => k,
            None => {
                return Err(String::from_str("API key is required"));
            },
        };
        let base_url = match self.base_url {
            Some(u) => u,
            None => String::from_str("https://api.siliconflow.cn/v1"),
        };
        Ok(SiliconFlowClient { api_key, base_url })
    }
}

/// One SiliconFlow streaming delta.
pub struct SiliconFlowStreamingDelta {
    pub content: Option<String>,
    pub role: Option<String>,
    pub reasoning: Option<String>,
    pub tool_calls: Vec<SiliconFlowToolCall>,
}

/// One SiliconFlow tool-call fragment.
pub struct SiliconFlowToolCall {
    pub id: Option<String>,
    pub tool_type: Option<String>,
    pub function: SiliconFlowFunction,
    pub index: Option<usize>,
}

/// The function part of a SiliconFlow tool-call fragment.
pub struct SiliconFlowFunction {
    pub name: Option<String>,
    pub arguments: Option<String>,
}

/// One SiliconFlow streaming choice.
pub struct SiliconFlowStreamingChoice {
    pub delta: SiliconFlowStreamingDelta,
    pub finish_reason: Option<String>,
}

/// One SiliconFlow streaming chunk.
pub struct SiliconFlowStreamingChunk {
    pub choices: Vec<SiliconFlowStreamingChoice>,
}

/// The final response value of a SiliconFlow stream.
pub struct SiliconFlowStreamingResponse {
    pub content: String,
}

} // verus!
