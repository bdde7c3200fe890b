//! The research-plan service: prompt selection by research type, the
//! prompt text handed to the model, and the cleanup of the model's answer
//! into canonical plan JSON (with a brace-span rescue for answers that
//! wrap the JSON in prose).

use vstd::prelude::*;

use vstd::string::StringSliceAdditionalSpecFns;
use vstd::utf8::encode_utf8;

use crate::constants::{get_default_model, has_default_model, spec_default_model, str_eq};
use crate::json::{json_pretty, json_pretty_of};
use crate::server::{find_char, first_idx};
use crate::text::{trim_chars, trim_str};

verus! {

/// A plan-generation request.
pub struct ResearchPlanRequest {
    pub provider: String,
    pub message: String,
    pub api_key: String,
    pub base_url: Option<String>,
    pub model: Option<String>,
    pub research_type: Option<String>,
}

/// A plan-generation response.
pub struct ResearchPlanResponse {
    pub plan: String,
}

/// Generates research plans through a provider; the HTTP call itself
/// stays outside the library.
pub struct ResearchPlanService;

/// The planner prompt text for general research.
pub open spec fn spec_plan_prompt_general() -> Seq<char> {
    "You are a task planner. Produce a detailed, execution-ready research plan in structured JSON.\n\n## Input\nUser message contains:\n- \"question\": research question\n- \"scope\": research scope, or \"Auto\"\n- \"output\": output format preference, or \"Auto\"\n\n## Planning Rules\n1. Detect question type:\n   - Definition: 2-3 steps, define \u{2192} characteristics \u{2192} applications\n   - Comparison: 3-4 steps, differences \u{2192} scenarios \u{2192} trade-offs \u{2192} decision\n   - How-it-works: 4-5 steps, overview \u{2192} deep dive \u{2192} examples \u{2192} edge cases\n   - How-to: 4-6 steps, prerequisites \u{2192} process \u{2192} alternatives \u{2192} pitfalls\n   - Analysis: 5-7 steps, context \u{2192} factors \u{2192} evidence \u{2192} implications \u{2192} recommendations\n   - History: 3-5 steps, timeline \u{2192} milestones \u{2192} causes \u{2192} effects\n2. Hybrid questions: assign 70-80% steps to primary type, 20-30% to secondary\n3. Step count must match complexity:\n   - simple: 2-3 steps\n   - medium: 4-5 steps (default)\n   - complex: 6-8 steps\n4. If scope/output is \"Auto\", choose formats:\n   - Definition: paragraph\n   - Comparison: table + bullet_list\n   - How-it-works: paragraph + code_example\n   - How-to: numbered_list + checklist\n   - Analysis: mix formats\n   - History: paragraph or timeline\n5. Depth:\n   - low: 1-2 paragraphs (~100-200 words)\n   - medium: 3-4 paragraphs (~300-500 words)\n   - high: 5+ paragraphs (~600+ words)\n6. Step 1 must list assumptions if needed; all steps use these assumptions\n7. Steps must be sequential, each with a clear, unique purpose, and executable using previous outputs\n8. For each step, determine if search is needed:\n   - Add \"requires_search\": true if the step needs up-to-date data, benchmarks, or external verification\n   - Add \"requires_search\": false if the step relies on stable knowledge, definitions, or established concepts\n   - Examples:\n     * \"Define HTTP\" \u{2192} requires_search: false (stable concept)\n     * \"Compare latest AI framework benchmarks\" \u{2192} requires_search: true (current data needed)\n     * \"Explain React component lifecycle\" \u{2192} requires_search: false (stable knowledge)\n     * \"List current React job market trends\" \u{2192} requires_search: true (time-sensitive)\n\n## Deliverable Formats\nparagraph, bullet_list, numbered_list, table, checklist, code_example, pros_and_cons\n\n## Output Format\nReturn a valid JSON object with this structure:\n```json\n{\n  \"research_type\": \"general\",\n  \"goal\": \"One-sentence research goal\",\n  \"complexity\": \"simple|medium|complex\",\n  \"question_type\": \"definition|comparison|how_it_works|how_to|analysis|history\",\n  \"assumptions\": [\"string\"],\n  \"plan\": [\n    {\n      \"step\": 1,\n      \"thought\": \"short reasoning explaining purpose of this step\",\n      \"action\": \"specific, executable action\",\n      \"expected_output\": \"what this step produces, with format and detail\",\n      \"deliverable_format\": \"paragraph|bullet_list|numbered_list|table|checklist|code_example|pros_and_cons\",\n      \"acceptance_criteria\": [\"must include X\", \"must cover Y\"],\n      \"depth\": \"low|medium|high\",\n      \"requires_search\": true|false\n    }\n  ],\n  \"risks\": [\"potential issues to avoid\"],\n  \"success_criteria\": [\"how to tell if research succeeded\"]\n}\n```"@
}

/// The planner prompt for general research.
pub fn research_plan_prompt_general() -> (r: &'static str)
    ensures
        r@ == spec_plan_prompt_general(),
{
    "You are a task planner. Produce a detailed, execution-ready research plan in structured JSON.\n\n## Input\nUser message contains:\n- \"question\": research question\n- \"scope\": research scope, or \"Auto\"\n- \"output\": output format preference, or \"Auto\"\n\n## Planning Rules\n1. Detect question type:\n   - Definition: 2-3 steps, define \u{2192} characteristics \u{2192} applications\n   - Comparison: 3-4 steps, differences \u{2192} scenarios \u{2192} trade-offs \u{2192} decision\n   - How-it-works: 4-5 steps, overview \u{2192} deep dive \u{2192} examples \u{2192} edge cases\n   - How-to: 4-6 steps, prerequisites \u{2192} process \u{2192} alternatives \u{2192} pitfalls\n   - Analysis: 5-7 steps, context \u{2192} factors \u{2192} evidence \u{2192} implications \u{2192} recommendations\n   - History: 3-5 steps, timeline \u{2192} milestones \u{2192} causes \u{2192} effects\n2. Hybrid questions: assign 70-80% steps to primary type, 20-30% to secondary\n3. Step count must match complexity:\n   - simple: 2-3 steps\n   - medium: 4-5 steps (default)\n   - complex: 6-8 steps\n4. If scope/output is \"Auto\", choose formats:\n   - Definition: paragraph\n   - Comparison: table + bullet_list\n   - How-it-works: paragraph + code_example\n   - How-to: numbered_list + checklist\n   - Analysis: mix formats\n   - History: paragraph or timeline\n5. Depth:\n   - low: 1-2 paragraphs (~100-200 words)\n   - medium: 3-4 paragraphs (~300-500 words)\n   - high: 5+ paragraphs (~600+ words)\n6. Step 1 must list assumptions if needed; all steps use these assumptions\n7. Steps must be sequential, each with a clear, unique purpose, and executable using previous outputs\n8. For each step, determine if search is needed:\n   - Add \"requires_search\": true if the step needs up-to-date data, benchmarks, or external verification\n   - Add \"requires_search\": false if the step relies on stable knowledge, definitions, or established concepts\n   - Examples:\n     * \"Define HTTP\" \u{2192} requires_search: false (stable concept)\n     * \"Compare latest AI framework benchmarks\" \u{2192} requires_search: true (current data needed)\n     * \"Explain React component lifecycle\" \u{2192} requires_search: false (stable knowledge)\n     * \"List current React job market trends\" \u{2192} requires_search: true (time-sensitive)\n\n## Deliverable Formats\nparagraph, bullet_list, numbered_list, table, checklist, code_example, pros_and_cons\n\n## Output Format\nReturn a valid JSON object with this structure:\n```json\n{\n  \"research_type\": \"general\",\n  \"goal\": \"One-sentence research goal\",\n  \"complexity\": \"simple|medium|complex\",\n  \"question_type\": \"definition|comparison|how_it_works|how_to|analysis|history\",\n  \"assumptions\": [\"string\"],\n  \"plan\": [\n    {\n      \"step\": 1,\n      \"thought\": \"short reasoning explaining purpose of this step\",\n      \"action\": \"specific, executable action\",\n      \"expected_output\": \"what this step produces, with format and detail\",\n      \"deliverable_format\": \"paragraph|bullet_list|numbered_list|table|checklist|code_example|pros_and_cons\",\n      \"acceptance_criteria\": [\"must include X\", \"must cover Y\"],\n      \"depth\": \"low|medium|high\",\n      \"requires_search\": true|false\n    }\n  ],\n  \"risks\": [\"potential issues to avoid\"],\n  \"success_criteria\": [\"how to tell if research succeeded\"]\n}\n```"
}

/// The planner prompt text for academic research.
pub open spec fn spec_plan_prompt_academic() -> Seq<char> {
    "You are an academic research planner. Produce a detailed, rigorous research plan in structured JSON for scholarly literature review and analysis.\n\n## Input\nUser message contains:\n- \"question\": academic research question or topic\n- \"scope\": research scope (time period, geographic region, specific databases, etc.), or \"Auto\"\n- \"output\": output format preference, or \"Auto\"\n\n## Academic Research Question Types\nClassify the question into one of these academic research types:\n\n1. **literature_review** (4-6 steps)\n   - Systematic review of existing scholarly literature on a topic\n   - Steps: Define scope \u{2192} Search literature \u{2192} Screen sources \u{2192} Extract data \u{2192} Synthesize findings \u{2192} Identify gaps\n\n2. **methodology_analysis** (5-7 steps)\n   - Critical analysis of research methods used in a field\n   - Steps: Identify methods \u{2192} Compare approaches \u{2192} Evaluate strengths/limitations \u{2192} Recommend best practices\n\n3. **empirical_study_review** (6-8 steps)\n   - Review of empirical research evidence\n   - Steps: Define criteria \u{2192} Search studies \u{2192} Quality assessment \u{2192} Data extraction \u{2192} Meta-analysis \u{2192} Interpret findings\n\n4. **theoretical_framework** (4-6 steps)\n   - Analysis of theoretical foundations and conceptual frameworks\n   - Steps: Identify theories \u{2192} Trace development \u{2192} Compare frameworks \u{2192} Synthesize \u{2192} Propose applications\n\n5. **state_of_the_art** (5-7 steps)\n   - Survey of current research frontiers and recent developments\n   - Steps: Define recent timeframe \u{2192} Search latest publications \u{2192} Categorize trends \u{2192} Identify innovations \u{2192} Project future directions\n\n## Academic Planning Rules\n\n1. **Mandatory Literature Search**\n   - ALL academic research plans MUST include at least one literature search step\n   - First step should typically be \"Define scope and search strategy\"\n   - Set requires_search: true for literature gathering steps\n\n2. **Evidence Quality Emphasis**\n   - Steps must emphasize peer-reviewed sources\n   - Include quality assessment criteria (study design, sample size, methodology)\n   - Note the need to distinguish between primary research and reviews\n\n3. **Critical Analysis Requirements**\n   - Each step should involve critical evaluation, not just summarization\n   - Include acceptance criteria for methodological rigor\n   - Require noting limitations and conflicting findings\n\n4. **Systematic Approach**\n   - Steps must be sequential and build on previous findings\n   - Include clear inclusion/exclusion criteria where relevant\n   - Specify analysis methods (e.g., thematic analysis, meta-synthesis)\n\n5. **Research Gap Identification**\n   - Final steps should identify what is NOT known\n   - Note areas needing further investigation\n   - Suggest implications for future research\n\n6. **Citation and Source Tracking**\n   - All steps must emphasize proper citation\n   - Require tracking of source types (journals, conferences, preprints)\n   - Note publication years to assess currency of evidence\n\n7. **Default Search Requirement**\n   - Unless explicitly dealing with well-established theory, set requires_search to true\n   - Academic research prioritizes evidence over assumptions\n\n## Step Count Guidelines\n- literature_review: 4-6 steps\n- methodology_analysis: 5-7 steps\n- empirical_study_review: 6-8 steps\n- theoretical_framework: 4-6 steps\n- state_of_the_art: 5-7 steps\n\n## Deliverable Formats for Academic Research\nparagraph, bullet_list, numbered_list, table, annotated_bibliography, comparative_analysis, thematic_synthesis\n\n## Output Format\nReturn a valid JSON object with this structure:\n```json\n{\n  \"research_type\": \"academic\",\n  \"goal\": \"string - formal academic research objective\",\n  \"complexity\": \"simple|medium|complex\",\n  \"question_type\": \"literature_review|methodology_analysis|empirical_study_review|theoretical_framework|state_of_the_art\",\n  \"assumptions\": [\"string - research scope assumptions, exclusions, focus areas\"],\n  \"plan\": [\n    {\n      \"step\": 1,\n      \"thought\": \"research rationale for this step\",\n      \"action\": \"specific, executable academic research action\",\n      \"expected_output\": \"scholarly deliverable with format and rigor specified\",\n      \"deliverable_format\": \"paragraph|bullet_list|table|annotated_bibliography|comparative_analysis|thematic_synthesis\",\n      \"acceptance_criteria\": [\"methodological requirement\", \"quality threshold\", \"coverage expectation\"],\n      \"depth\": \"low|medium|high\",\n      \"requires_search\": true|false\n    }\n  ],\n  \"risks\": [\"potential methodological issues\", \"evidence limitations\", \"generalizability concerns\"],\n  \"success_criteria\": [\"scholarly standard for completion\", \"quality benchmark\"]\n}\n```"@
}

/// The planner prompt for academic research.
pub fn research_plan_prompt_academic() -> (r: &'static str)
    ensures
        r@ == spec_plan_prompt_academic(),
{
    "You are an academic research planner. Produce a detailed, rigorous research plan in structured JSON for scholarly literature review and analysis.\n\n## Input\nUser message contains:\n- \"question\": academic research question or topic\n- \"scope\": research scope (time period, geographic region, specific databases, etc.), or \"Auto\"\n- \"output\": output format preference, or \"Auto\"\n\n## Academic Research Question Types\nClassify the question into one of these academic research types:\n\n1. **literature_review** (4-6 steps)\n   - Systematic review of existing scholarly literature on a topic\n   - Steps: Define scope \u{2192} Search literature \u{2192} Screen sources \u{2192} Extract data \u{2192} Synthesize findings \u{2192} Identify gaps\n\n2. **methodology_analysis** (5-7 steps)\n   - Critical analysis of research methods used in a field\n   - Steps: Identify methods \u{2192} Compare approaches \u{2192} Evaluate strengths/limitations \u{2192} Recommend best practices\n\n3. **empirical_study_review** (6-8 steps)\n   - Review of empirical research evidence\n   - Steps: Define criteria \u{2192} Search studies \u{2192} Quality assessment \u{2192} Data extraction \u{2192} Meta-analysis \u{2192} Interpret findings\n\n4. **theoretical_framework** (4-6 steps)\n   - Analysis of theoretical foundations and conceptual frameworks\n   - Steps: Identify theories \u{2192} Trace development \u{2192} Compare frameworks \u{2192} Synthesize \u{2192} Propose applications\n\n5. **state_of_the_art** (5-7 steps)\n   - Survey of current research frontiers and recent developments\n   - Steps: Define recent timeframe \u{2192} Search latest publications \u{2192} Categorize trends \u{2192} Identify innovations \u{2192} Project future directions\n\n## Academic Planning Rules\n\n1. **Mandatory Literature Search**\n   - ALL academic research plans MUST include at least one literature search step\n   - First step should typically be \"Define scope and search strategy\"\n   - Set requires_search: true for literature gathering steps\n\n2. **Evidence Quality Emphasis**\n   - Steps must emphasize peer-reviewed sources\n   - Include quality assessment criteria (study design, sample size, methodology)\n   - Note the need to distinguish between primary research and reviews\n\n3. **Critical Analysis Requirements**\n   - Each step should involve critical evaluation, not just summarization\n   - Include acceptance criteria for methodological rigor\n   - Require noting limitations and conflicting findings\n\n4. **Systematic Approach**\n   - Steps must be sequential and build on previous findings\n   - Include clear inclusion/exclusion criteria where relevant\n   - Specify analysis methods (e.g., thematic analysis, meta-synthesis)\n\n5. **Research Gap Identification**\n   - Final steps should identify what is NOT known\n   - Note areas needing further investigation\n   - Suggest implications for future research\n\n6. **Citation and Source Tracking**\n   - All steps must emphasize proper citation\n   - Require tracking of source types (journals, conferences, preprints)\n   - Note publication years to assess currency of evidence\n\n7. **Default Search Requirement**\n   - Unless explicitly dealing with well-established theory, set requires_search to true\n   - Academic research prioritizes evidence over assumptions\n\n## Step Count Guidelines\n- literature_review: 4-6 steps\n- methodology_analysis: 5-7 steps\n- empirical_study_review: 6-8 steps\n- theoretical_framework: 4-6 steps\n- state_of_the_art: 5-7 steps\n\n## Deliverable Formats for Academic Research\nparagraph, bullet_list, numbered_list, table, annotated_bibliography, comparative_analysis, thematic_synthesis\n\n## Output Format\nReturn a valid JSON object with this structure:\n```json\n{\n  \"research_type\": \"academic\",\n  \"goal\": \"string - formal academic research objective\",\n  \"complexity\": \"simple|medium|complex\",\n  \"question_type\": \"literature_review|methodology_analysis|empirical_study_review|theoretical_framework|state_of_the_art\",\n  \"assumptions\": [\"string - research scope assumptions, exclusions, focus areas\"],\n  \"plan\": [\n    {\n      \"step\": 1,\n      \"thought\": \"research rationale for this step\",\n      \"action\": \"specific, executable academic research action\",\n      \"expected_output\": \"scholarly deliverable with format and rigor specified\",\n      \"deliverable_format\": \"paragraph|bullet_list|table|annotated_bibliography|comparative_analysis|thematic_synthesis\",\n      \"acceptance_criteria\": [\"methodological requirement\", \"quality threshold\", \"coverage expectation\"],\n      \"depth\": \"low|medium|high\",\n      \"requires_search\": true|false\n    }\n  ],\n  \"risks\": [\"potential methodological issues\", \"evidence limitations\", \"generalizability concerns\"],\n  \"success_criteria\": [\"scholarly standard for completion\", \"quality benchmark\"]\n}\n```"
}

impl ResearchPlanService {
    /// The service has no state of its own.
    pub fn new() -> (r: Self) {
        ResearchPlanService
    }

    /// The planner system prompt for a research type: academic exactly for
    /// the `academic` keyword, general otherwise.
    pub fn system_prompt_for(research_type: Option<&String>) -> (r: &'static str)
        ensures
            (match research_type {
                Some(t) => t@ == "academic"@,
                None => false,
            }) ==> r@ == spec_plan_prompt_academic(),
            !(match research_type {
                Some(t) => t@ == "academic"@,
                None => false,
            }) ==> r@ == spec_plan_prompt_general(),
    {
        let is_academic = match research_type {
            Some(t) => str_eq(t.as_str(), "academic"),
            None => false,
        };
        if is_academic {
            research_plan_prompt_academic()
        } else {
            research_plan_prompt_general()
        }
    }
}

/// The full prompt handed to the planner model.
pub fn plan_prompt_text(system_prompt: &str, message: &str) -> (r: String)
    ensures
        r@ == system_prompt@ + "\n\nUser message: "@ + message@,
{
    let mut out = String::new();
    out.append(system_prompt);
    out.append("\n\nUser message: ");
    out.append(message);
    out
}

/// The position of the last occurrence of a character.
pub open spec fn last_idx(s: Seq<char>, c: char) -> Option<int>
    decreases s.len(),
{
    if s.len() == 0 {
        None
    } else if s.last() == c {
        Some(s.len() - 1)
    } else {
        last_idx(s.drop_last(), c)
    }
}

/// A last-match scan agrees with `last_idx`.
proof fn lemma_last_idx_found(s: Seq<char>, c: char, i: int)
    requires
        0 <= i < s.len(),
        s[i] == c,
        forall|j: int| i < j < s.len() ==> s[j] != c,
    ensures
        last_idx(s, c) == Some(i),
    decreases s.len(),
{
    if i < s.len() - 1 {
        assert(forall|j: int| 0 <= j < s.drop_last().len() ==> s.drop_last()[j] == s[j]);
        lemma_last_idx_found(s.drop_last(), c, i);
    }
}

/// A full scan without a match agrees with `last_idx`.
proof fn lemma_last_idx_none(s: Seq<char>, c: char)
    requires
        forall|j: int| 0 <= j < s.len() ==> s[j] != c,
    ensures
        last_idx(s, c) is None,
    decreases s.len(),
{
    if s.len() > 0 {
        assert(forall|j: int| 0 <= j < s.drop_last().len() ==> s.drop_last()[j] == s[j]);
        lemma_last_idx_none(s.drop_last(), c);
    }
}

/// Find the last occurrence of a character.
pub fn rfind_char(s: &str, c: char) -> (r: Option<usize>)
    ensures
        match r {
            Some(i) => i < s@.len() && last_idx(s@, c) == Some(i as int),
            None => last_idx(s@, c) is None,
        },
{
    let n = s.unicode_len();
    let mut i: usize = n;
    while i > 0
        invariant
            i <= n,
            n == s@.len(),
            forall|j: int| i <= j < n ==> s@[j] != c,
        decreases i,
    {
        i -= 1;
        if s.get_char(i) == c {
            proof {
                lemma_last_idx_found(s@, c, i as int);
            }
            return Some(i);
        }
    }
    proof {
        lemma_last_idx_none(s@, c);
    }
    None
}

/// The span from the first `{` to the last `}`, where both exist in
/// order: the likeliest embedded JSON object of a prose answer.
pub open spec fn brace_span(s: Seq<char>) -> Option<(int, int)> {
    match (first_idx(s, '{'), last_idx(s, '}')) {
        (Some(a), Some(b)) => if a <= b {
            Some((a, b))
        } else {
            None
        },
        _ => None,
    }
}

/// Clean a planner answer into plan JSON: an answer that parses as a JSON
/// object is pretty-printed; otherwise the brace span is parsed and
/// pretty-printed; otherwise the trimmed answer stands.
pub fn clean_plan_response(text: &str) -> (r: String)
    ensures
        match json_pretty_of(text.spec_bytes()) {
            Some(p) => r@ == p,
            None => match brace_span(text@) {
                Some((a, b)) => match json_pretty_of(encode_utf8(text@.subrange(a, b + 1))) {
                    Some(p) => r@ == p,
                    None => r@ == trim_chars(text@),
                },
                None => r@ == trim_chars(text@),
            },
        },
{
    match json_pretty(text.as_bytes()) {
        Some(p) => {
            return p;
        },
        None => {},
    }
    let a = match find_char(text, '{') {
        Some(a) => a,
        None => {
            return trim_str(text);
        },
    };
    let b = match rfind_char(text, '}') {
        Some(b) => b,
        None => {
            return trim_str(text);
        },
    };
    if a > b {
        return trim_str(text);
    }
    let n = text.unicode_len();
    proof {
        assert(b < n);
    }
    let span = text.substring_char(a, b + 1).to_owned();
    proof {
        assert(span@ == text@.subrange(a as int, b as int + 1));
    }
    match json_pretty(span.as_str().as_bytes()) {
        Some(p) => p,
        None => trim_str(text),
    }
}

/// Base URL used by the research pipeline for a provider: the custom
/// vendors take their fixed endpoints, the OpenAI-compatibility entry
/// takes the caller's URL, and anything else falls back through the
/// configuration table to the OpenAI endpoint.
pub fn resolve_base_url(provider: &str, custom_url: Option<&str>) -> (r: String)
    ensures
        provider@ == "siliconflow"@ ==> r@ == "https://api.siliconflow.cn/v1"@,
        provider@ == "glm"@ ==> r@ == "https://open.bigmodel.cn/api/paas/v4"@,
        provider@ == "modelscope"@ ==> r@ == "https://api-inference.modelscope.cn/v1"@,
        provider@ == "kimi"@ ==> r@ == "https://api.moonshot.cn/v1"@,
        provider@ == "nvidia"@ ==> r@ == "https://integrate.api.nvidia.com/v1"@,
        provider@ == "minimax"@ ==> r@ == "https://api.minimax.io/v1"@,
        provider@ == "openai_compatibility"@ ==> r@ == (match custom_url {
            Some(u) => u@,
            None => "https://api.openai.com/v1"@,
        }),
{
    proof {
        reveal_strlit("siliconflow");
        reveal_strlit("glm");
        reveal_strlit("modelscope");
        reveal_strlit("kimi");
        reveal_strlit("nvidia");
        reveal_strlit("minimax");
        reveal_strlit("openai_compatibility");
        assert("siliconflow"@.len() == 11);
        assert("glm"@.len() == 3);
        assert("modelscope"@.len() == 10);
        assert("kimi"@.len() == 4);
        assert("nvidia"@.len() == 6);
        assert("minimax"@.len() == 7);
        assert("openai_compatibility"@.len() == 20);
    }
    let p = provider;
    if str_eq(p, "siliconflow") {
        String::from_str("https://api.siliconflow.cn/v1")
    } else if str_eq(p, "glm") {
        String::from_str("https://open.bigmodel.cn/api/paas/v4")
    } else if str_eq(p, "modelscope") {
        String::from_str("https://api-inference.modelscope.cn/v1")
    } else if str_eq(p, "kimi") {
        String::from_str("https://api.moonshot.cn/v1")
    } else if str_eq(p, "nvidia") {
        String::from_str("https://integrate.api.nvidia.com/v1")
    } else if str_eq(p, "minimax") {
        String::from_str("https://api.minimax.io/v1")
    } else if str_eq(p, "openai_compatibility") {
        match custom_url {
            Some(u) => u.to_owned(),
            None => String::from_str("https://api.openai.com/v1"),
        }
    } else {
        match custom_url {
            Some(u) => u.to_owned(),
            None => {
                match crate::constants::get_base_url(p) {
                    Some(u) => u.to_owned(),
                    None => String::from_str("https://api.openai.com/v1"),
                }
            },
        }
    }
}

/// The model the research pipeline uses: the caller's model, the
/// provider's default, or the fixed fallback.
pub fn get_model_name(provider: &str, model: Option<&str>) -> (r: String)
    ensures
        r@ == (match model {
            Some(m) => m@,
            None => if has_default_model(provider@) {
                spec_default_model(provider@)
            } else {
                "gpt-4o-mini"@
            },
        }),
{
    match model {
        Some(m) => m.to_owned(),
        None => {
            match get_default_model(provider) {
                Some(d) => d.to_owned(),
                None => String::from_str("gpt-4o-mini"),
            }
        },
    }
}

} // verus!
