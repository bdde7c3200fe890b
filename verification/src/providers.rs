//! Provider-level helpers: the supported provider set and base-URL
//! resolution with a custom override for the OpenAI-compatibility entry.

use vstd::prelude::*;

use crate::constants::{get_base_url, has_base_url, spec_base_url, str_eq};

verus! {

/// Whether a provider name is supported at all.
pub open spec fn spec_supported_provider(p: Seq<char>) -> bool {
    ||| p == "gemini"@
    ||| p == "openai"@
    ||| p == "openai_compatibility"@
    ||| p == "siliconflow"@
    ||| p == "glm"@
    ||| p == "modelscope"@
    ||| p == "kimi"@
    ||| p == "moonshot"@
    ||| p == "nvidia"@
    ||| p == "minimax"@
}

/// Unsupported providers are rejected before any stream is opened.
pub fn is_supported_provider(provider: &str) -> (r: bool)
    ensures
        r <==> spec_supported_provider(provider@),
{
    str_eq(provider, "gemini") || str_eq(provider, "openai") || str_eq(
        provider,
        "openai_compatibility",
    ) || str_eq(provider, "siliconflow") || str_eq(provider, "glm") || str_eq(
        provider,
        "modelscope",
    ) || str_eq(provider, "kimi") || str_eq(provider, "moonshot") || str_eq(provider, "nvidia")
        || str_eq(provider, "minimax")
}

/// Base URL for a provider: the OpenAI-compatibility entry takes the
/// caller's custom URL; every other provider takes its table entry.
pub fn resolve_base_url(provider: &str, custom_url: Option<&str>) -> (r: Option<String>)
    ensures
        provider@ == "openai_compatibility"@ ==> (match (r, custom_url) {
            (Some(u), Some(c)) => u@ == c@,
            (None, None) => true,
            _ => false,
        }),
        provider@ != "openai_compatibility"@ ==> {
            &&& (r is Some <==> has_base_url(provider@))
            &&& (r matches Some(u) ==> u@ == spec_base_url(provider@))
        },
{
    if str_eq(provider, "openai_compatibility") {
        match custom_url {
            Some(c) => Some(c.to_owned()),
            None => None,
        }
    } else {
        match get_base_url(provider) {
            Some(u) => Some(u.to_owned()),
            None => None,
        }
    }
}

} // verus!
