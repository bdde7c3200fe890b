//! Tests of the research pipeline: plan parsing, source dedup, prompt and
//! frame building, the session's end-to-end frame order, and the
//! configuration lookups around it.

use qurio_core::adapters::{BaseAdapter, BuildModelParams, GLMAdapter, NvidiaNimAdapter,
    SiliconFlowAdapter, ThinkingConfig};
use qurio_core::constants::{get_base_url, get_capabilities, get_default_model,
    get_provider_config, supports_capability};
use qurio_core::messages::{apply_context_limit, extract_text_content, flatten_messages,
    normalize_tool_arguments, parse_tool_choice, resolve_enabled_tools, split_prompt_history,
    ChatMessage, ContentPart, MessageContent, ToolChoice, ToolDefinition,
    ToolFunctionDefinition};
use qurio_core::plan_service::{clean_plan_response, get_model_name, plan_prompt_text,
    resolve_base_url, ResearchPlanService};
use qurio_core::providers::is_supported_provider;
use qurio_core::research::{build_sources_list, parse_plan};
use qurio_core::server::{calculator_check, is_safe_expression, parse_host_port_from_url,
    parse_u16, CalculatorError};
use qurio_core::session::ResearchSession;
use qurio_core::sources::{collect_web_search_sources, is_tavily_search_tool_name,
    ResearchSource, SourceMap};
use qurio_core::text::{trim_str, u64_to_dec};
use qurio_core::tools_meta::{date_format_for_locale, normalize_reader_url};
use qurio_core::vendors::{KimiClient, NvidiaNimClient, NvidiaNimFinalResponse, NvidiaNimUsage};

fn msg(role: &str, content: &str) -> ChatMessage {
    ChatMessage {
        role: role.to_string(),
        content: Some(MessageContent::Text(content.to_string())),
        tool_calls: None,
        tool_call_id: None,
        name: None,
        id: None,
    }
}

fn src(title: &str, url: &str) -> ResearchSource {
    ResearchSource {
        title: title.to_string(),
        url: url.to_string(),
        uri: url.to_string(),
        snippet: String::new(),
    }
}

#[test]
fn source_dedup_first_occurrence_wins() {
    let mut map = SourceMap::new();
    map.insert(src("First Title", "https://example.org/a"));
    map.insert(src("Second Title", "https://example.org/a"));
    map.insert(src("Other", "https://example.org/b"));
    assert_eq!(map.len(), 2);
    assert_eq!(map.get(0).title, "First Title");
    assert_eq!(map.get(1).title, "Other");
}

#[test]
fn source_dedup_from_search_result_json() {
    let mut map = SourceMap::new();
    let result = b"{\"results\":[{\"url\":\"https://a\",\"title\":\"A1\",\"content\":\"c\"},{\"url\":\"https://a\",\"title\":\"A2\"},{\"url\":\"https://b\"},{\"no_url\":true}]}";
    collect_web_search_sources(&mut map, result);
    assert_eq!(map.len(), 2);
    assert_eq!(map.get(0).title, "A1");
    assert_eq!(map.get(0).snippet, "c");
    assert_eq!(map.get(1).title, "Unknown Source");
    assert_eq!(map.get(1).url, "https://b");
}

#[test]
fn search_tool_names_are_recognized() {
    assert!(is_tavily_search_tool_name("Tavily_web_search"));
    assert!(is_tavily_search_tool_name("Tavily_academic_search"));
    assert!(is_tavily_search_tool_name("web_search"));
    assert!(is_tavily_search_tool_name("academic_search"));
    assert!(!is_tavily_search_tool_name("calculator"));
}

#[test]
fn sources_list_is_numbered_with_fallbacks() {
    let mut map = SourceMap::new();
    map.insert(src("Paper", "https://a"));
    map.insert(src("", "https://b"));
    let lines = build_sources_list(&map);
    assert_eq!(
        lines,
        vec![
            "[1] Paper https://a".to_string(),
            "[2] https://b https://b".to_string()
        ]
    );
}

#[test]
fn context_limit_keeps_system_and_recent_messages() {
    let mut messages = Vec::new();
    for i in 0..5 {
        messages.push(msg("system", &format!("sys{}", i)));
        messages.push(msg(if i % 2 == 0 { "user" } else { "assistant" }, &format!("m{}", i)));
    }
    for i in 5..10 {
        messages.push(msg(if i % 2 == 0 { "user" } else { "assistant" }, &format!("m{}", i)));
    }
    let trimmed = apply_context_limit(messages, Some(3));
    assert_eq!(trimmed.len(), 8);
    for i in 0..5 {
        assert_eq!(trimmed[i].role, "system");
        match &trimmed[i].content {
            Some(MessageContent::Text(t)) => assert_eq!(t, &format!("sys{}", i)),
            _ => panic!("expected text content"),
        }
    }
    let tail: Vec<String> = trimmed[5..]
        .iter()
        .map(|m| match &m.content {
            Some(MessageContent::Text(t)) => t.clone(),
            _ => panic!("expected text content"),
        })
        .collect();
    assert_eq!(tail, vec!["m7".to_string(), "m8".to_string(), "m9".to_string()]);
}

#[test]
fn context_limit_absent_or_large_keeps_everything() {
    let messages = vec![msg("user", "a"), msg("assistant", "b")];
    assert_eq!(apply_context_limit(messages, None).len(), 2);
    let messages = vec![msg("user", "a"), msg("assistant", "b")];
    assert_eq!(apply_context_limit(messages, Some(10)).len(), 2);
}

#[test]
fn text_extraction_and_prompt_flattening() {
    let parts = Some(MessageContent::Parts(vec![
        ContentPart::Text("a".to_string()),
        ContentPart::ImageUrl("https://img".to_string()),
        ContentPart::Text("b".to_string()),
    ]));
    assert_eq!(extract_text_content(&parts), Some("ab".to_string()));
    assert_eq!(extract_text_content(&None), None);

    let messages = vec![msg("system", "be brief"), msg("user", "hi")];
    assert_eq!(flatten_messages(&messages), "system: be brief\nuser: hi");

    let (prompt, history) = split_prompt_history(messages).unwrap();
    assert_eq!(prompt.role, "user");
    assert_eq!(history.len(), 1);
    assert!(split_prompt_history(Vec::new()).is_err());
}

#[test]
fn enabled_tools_follow_names_and_search_provider() {
    let tools = Some(vec![ToolDefinition {
        tool_type: Some("function".to_string()),
        function: Some(ToolFunctionDefinition { name: Some("calculator".to_string()) }),
    }]);
    let e = resolve_enabled_tools(&tools, &None, &Some("tavily".to_string()));
    assert!(e.calculator && !e.web_search && !e.academic_search);

    let e = resolve_enabled_tools(&None, &None, &Some("tavily".to_string()));
    assert!(e.web_search && !e.calculator);

    let ids = Some(vec!["Tavily_academic_search".to_string()]);
    let e = resolve_enabled_tools(&None, &ids, &None);
    assert!(e.academic_search && !e.web_search);
}

#[test]
fn tool_choice_parses_keywords_and_function_objects() {
    let auto = b"\"auto\"".to_vec();
    assert!(matches!(parse_tool_choice(Some(&auto)), Some(ToolChoice::Auto)));
    let none_kw = b"\"none\"".to_vec();
    assert!(matches!(parse_tool_choice(Some(&none_kw)), Some(ToolChoice::Disabled)));
    let required = b"\"required\"".to_vec();
    assert!(matches!(parse_tool_choice(Some(&required)), Some(ToolChoice::Required)));
    let specific = b"{\"type\":\"function\",\"function\":{\"name\":\"calc\"}}".to_vec();
    match parse_tool_choice(Some(&specific)) {
        Some(ToolChoice::Specific(names)) => assert_eq!(names, vec!["calc".to_string()]),
        _ => panic!("expected a specific tool choice"),
    }
    let junk = b"\"sometimes\"".to_vec();
    assert!(parse_tool_choice(Some(&junk)).is_none());
    assert!(parse_tool_choice(None).is_none());
}

#[test]
fn tool_arguments_normalize_to_compact_json() {
    assert_eq!(normalize_tool_arguments("{ \"a\" : 1 }"), "{\"a\":1}");
    assert_eq!(normalize_tool_arguments("not json"), "not json");
}

#[test]
fn plan_parsing_accepts_valid_plans() {
    let text = "{\"research_type\":\"general\",\"goal\":\"Learn\",\"complexity\":\"simple\",\"question_type\":\"definition\",\"assumptions\":[\"a1\"],\"plan\":[{\"step\":1,\"action\":\"find X\",\"requires_search\":true},{\"step\":2,\"action\":\"summarize\",\"requires_search\":false,\"acceptance_criteria\":[\"short\"]}],\"risks\":[],\"success_criteria\":[\"done\"]}";
    let plan = parse_plan(text);
    assert_eq!(plan.goal, "Learn");
    assert_eq!(plan.plan.len(), 2);
    assert_eq!(plan.plan[0].action, "find X");
    assert!(plan.plan[0].requires_search);
    assert!(!plan.plan[1].requires_search);
    assert_eq!(plan.plan[1].acceptance_criteria, vec!["short".to_string()]);
    assert_eq!(plan.assumptions, vec!["a1".to_string()]);
}

#[test]
fn plan_parsing_falls_back_on_bad_input() {
    for text in ["not json", "{}", "{\"plan\":[]}", "{\"plan\":[{\"step\":1}]}"] {
        let plan = parse_plan(text);
        assert_eq!(plan.research_type, "general");
        assert_eq!(plan.plan.len(), 1);
        assert_eq!(plan.plan[0].action, "Summarize the topic and gather key evidence.");
        assert!(plan.plan[0].requires_search);
    }
}

#[test]
fn research_pipeline_emits_frames_in_order() {
    let plan = parse_plan(
        "{\"goal\":\"G\",\"plan\":[{\"step\":1,\"action\":\"find X\",\"requires_search\":true},{\"step\":2,\"action\":\"summarize\",\"requires_search\":false}]}",
    );
    let mut session = ResearchSession::new(plan, "What is X?".to_string(), "general".to_string());
    let mut frames: Vec<String> = Vec::new();

    assert!(session.has_next_step());
    let (running1, prompt1) = session.begin_step();
    assert!(prompt1.contains("Step 1: find X"));
    assert!(prompt1.contains("Requires search: true"));
    assert!(prompt1.contains("Prior findings:\n- None"));
    frames.push(running1);
    frames.push(session.tool_call_frame(
        &Some("t1".to_string()),
        &Some("Tavily_web_search".to_string()),
        "{\"query\":\"X\"}",
    ));
    frames.push(session.tool_result_frame(
        &Some("t1".to_string()),
        &Some("Tavily_web_search".to_string()),
        "{\"results\":[{\"title\":\"Doc\",\"url\":\"https://doc\"}]}",
    ));
    frames.push(session.finish_step("X is small.".to_string(), 12));

    assert!(session.has_next_step());
    let (running2, prompt2) = session.begin_step();
    assert!(prompt2.contains("Step 2: summarize"));
    assert!(prompt2.contains("- X is small."));
    assert!(prompt2.contains("[1] Doc https://doc"));
    frames.push(running2);
    frames.push(session.finish_step("Summary.".to_string(), 3));
    assert!(!session.has_next_step());

    let report_prompt = session.report_prompt();
    assert!(report_prompt.contains("Question: What is X?"));
    assert!(report_prompt.contains("- Summary."));
    if let Some(f) = session.push_report_chunk("Final ") {
        frames.push(f);
    }
    if let Some(f) = session.push_report_chunk("report.") {
        frames.push(f);
    }
    frames.push(session.finish());

    assert_eq!(frames.len(), 9);
    assert_eq!(
        frames[0],
        "{\"type\":\"research_step\",\"step\":1,\"total\":2,\"title\":\"find X\",\"status\":\"running\"}"
    );
    assert_eq!(
        frames[1],
        "{\"type\":\"tool_call\",\"id\":\"t1\",\"name\":\"Tavily_web_search\",\"arguments\":\"{\\\"query\\\":\\\"X\\\"}\",\"step\":1,\"total\":2}"
    );
    assert!(frames[2].starts_with("{\"type\":\"tool_result\",\"id\":\"t1\""));
    assert_eq!(
        frames[3],
        "{\"type\":\"research_step\",\"step\":1,\"total\":2,\"title\":\"find X\",\"status\":\"done\",\"duration_ms\":12}"
    );
    assert_eq!(
        frames[4],
        "{\"type\":\"research_step\",\"step\":2,\"total\":2,\"title\":\"summarize\",\"status\":\"running\"}"
    );
    assert_eq!(
        frames[5],
        "{\"type\":\"research_step\",\"step\":2,\"total\":2,\"title\":\"summarize\",\"status\":\"done\",\"duration_ms\":3}"
    );
    assert_eq!(frames[6], "{\"type\":\"text\",\"content\":\"Final \"}");
    assert_eq!(frames[7], "{\"type\":\"text\",\"content\":\"report.\"}");
    assert_eq!(
        frames[8],
        "{\"type\":\"done\",\"content\":\"Final report.\",\"sources\":[{\"title\":\"Doc\",\"url\":\"https://doc\",\"uri\":\"https://doc\",\"snippet\":\"\"}]}"
    );
}

#[test]
fn research_step_failure_is_not_terminal() {
    let plan = parse_plan(
        "{\"plan\":[{\"step\":1,\"action\":\"a\"},{\"step\":2,\"action\":\"b\"}]}",
    );
    let mut session = ResearchSession::new(plan, "q".to_string(), "general".to_string());
    let (_f, _p) = session.begin_step();
    let err_frame = session.fail_step("vendor unavailable", 9);
    assert_eq!(
        err_frame,
        "{\"type\":\"research_step\",\"step\":1,\"total\":2,\"title\":\"a\",\"status\":\"error\",\"duration_ms\":9,\"error\":\"vendor unavailable\"}"
    );
    assert!(session.has_next_step());
    let (_f2, _p2) = session.begin_step();
    let _ = session.finish_step("ok".to_string(), 1);
    let done = session.finish();
    assert_eq!(done, "{\"type\":\"done\",\"content\":\"\"}");
}

#[test]
fn academic_prompts_carry_strict_constraints() {
    let plan = parse_plan("{\"plan\":[{\"step\":1,\"action\":\"survey\"}]}");
    let mut session = ResearchSession::new(plan, "q".to_string(), "academic".to_string());
    let (_frame, prompt) = session.begin_step();
    assert!(prompt.starts_with("You are executing an academic research plan step."));
    assert!(prompt.contains("NO OUTSIDE KNOWLEDGE"));
    let _ = session.finish_step("f".to_string(), 1);
    let report = session.report_prompt();
    assert!(report.contains("OFFICIAL SOURCE LIST (USE THESE AND ONLY THESE):\nNo sources available."));
    assert!(report.contains("## 7. REFERENCES"));
}

#[test]
fn plan_service_selects_prompt_and_cleans_answers() {
    let academic = ResearchPlanService::system_prompt_for(Some(&"academic".to_string()));
    assert!(academic.starts_with("You are an academic research planner."));
    let general = ResearchPlanService::system_prompt_for(None);
    assert!(general.starts_with("You are a task planner."));
    let text = plan_prompt_text(general, "What is X?");
    assert!(text.ends_with("\n\nUser message: What is X?"));

    assert_eq!(
        clean_plan_response("{\"a\":1}"),
        "{\n  \"a\": 1\n}"
    );
    assert_eq!(
        clean_plan_response("Here you go: {\"a\":1} hope it helps"),
        "{\n  \"a\": 1\n}"
    );
    assert_eq!(clean_plan_response("  just prose  "), "just prose");
    assert_eq!(clean_plan_response("[1,2]"), "[1,2]");
}

#[test]
fn provider_tables_answer_lookups() {
    assert_eq!(get_base_url("kimi"), Some("https://api.moonshot.cn/v1"));
    assert_eq!(get_base_url("unknown"), None);
    assert_eq!(get_default_model("nvidia"), Some("deepseek-ai/deepseek-r1"));
    let caps = get_capabilities("siliconflow").unwrap();
    assert!(caps.supports_thinking && !caps.supports_streaming_tool_calls);
    assert!(supports_capability("glm", "streaming_tool_calls"));
    assert!(!supports_capability("openai", "thinking"));
    assert!(!supports_capability("glm", "teleportation"));
    let config = get_provider_config("minimax");
    assert_eq!(config.base_url, Some("https://api.minimax.io/v1".to_string()));
    assert!(is_supported_provider("moonshot"));
    assert!(!is_supported_provider("acme"));
}

#[test]
fn research_base_urls_and_model_names_resolve() {
    assert_eq!(resolve_base_url("kimi", None), "https://api.moonshot.cn/v1");
    assert_eq!(
        resolve_base_url("openai_compatibility", Some("https://my.host/v1")),
        "https://my.host/v1"
    );
    assert_eq!(resolve_base_url("openai_compatibility", None), "https://api.openai.com/v1");
    assert_eq!(get_model_name("kimi", None), "moonshot-v1-8k");
    assert_eq!(get_model_name("kimi", Some("kimi-k2")), "kimi-k2");
    assert_eq!(get_model_name("acme", None), "gpt-4o-mini");
}

#[test]
fn host_port_parsing_matches_url_shapes() {
    assert_eq!(
        parse_host_port_from_url("http://localhost:8080/path"),
        Some(("localhost".to_string(), 8080))
    );
    assert_eq!(
        parse_host_port_from_url("https://example.org"),
        Some(("example.org".to_string(), 3001))
    );
    assert_eq!(
        parse_host_port_from_url("example.org:notaport"),
        Some(("example.org".to_string(), 3001))
    );
    assert_eq!(parse_host_port_from_url("   "), None);
    assert_eq!(parse_u16("8080"), Some(8080));
    assert_eq!(parse_u16("+80"), Some(80));
    assert_eq!(parse_u16("65536"), None);
    assert_eq!(parse_u16(""), None);
    assert_eq!(parse_u16("8a"), None);
}

#[test]
fn calculator_guard_covers_each_error() {
    assert!(is_safe_expression("(2+3)*4/5"));
    assert!(is_safe_expression("sin(x) + 2 ^ 3 % 4"));
    assert!(!is_safe_expression("2; import os"));
    assert!(matches!(calculator_check("   "), Err(CalculatorError::MissingExpression)));
    assert!(matches!(calculator_check("2;3"), Err(CalculatorError::InvalidCharacters)));
    assert!(calculator_check("(2+3)*4").is_ok());
    assert_eq!(CalculatorError::EvalError.message(), "Failed to evaluate expression");
}

#[test]
fn reader_urls_normalize_behind_the_proxy() {
    let (normalized, target) = normalize_reader_url("https://example.org/page");
    assert_eq!(normalized, "https://example.org/page");
    assert_eq!(target, "https://r.jina.ai/example.org/page");

    let (normalized, target) = normalize_reader_url("https://r.jina.ai/https://example.org");
    assert_eq!(normalized, "example.org");
    assert_eq!(target, "https://r.jina.ai/example.org");

    let (normalized, target) = normalize_reader_url("example.org");
    assert_eq!(normalized, "example.org");
    assert_eq!(target, "https://r.jina.ai/example.org");
}

#[test]
fn locale_date_formats_select_by_language() {
    assert_eq!(date_format_for_locale("en-US"), "%Y-%m-%d %H:%M:%S");
    assert_eq!(date_format_for_locale("de-DE"), "%d.%m.%Y %H:%M:%S");
    assert_eq!(date_format_for_locale("fr"), "%d/%m/%Y %H:%M:%S");
}

#[test]
fn vendor_builders_require_api_keys_and_default_urls() {
    let client = KimiClient::builder().api_key("k".to_string()).build().unwrap();
    assert_eq!(client.base_url, "https://api.moonshot.cn/v1");
    assert!(KimiClient::builder().build().is_err());
    let nv = NvidiaNimClient::builder()
        .api_key("k".to_string())
        .base_url("https://alt/v1")
        .build()
        .unwrap();
    assert_eq!(nv.base_url, "https://alt/v1");
    let usage = NvidiaNimFinalResponse {
        usage: NvidiaNimUsage { prompt_tokens: Some(3), completion_tokens: None, total_tokens: Some(3) },
    }
    .token_usage();
    assert_eq!(usage.prompt_tokens, 3);
    assert_eq!(usage.completion_tokens, 0);
}

fn empty_params() -> BuildModelParams {
    BuildModelParams {
        api_key: "k".to_string(),
        model: None,
        temperature: None,
        top_k: None,
        top_p: None,
        frequency_penalty: None,
        presence_penalty: None,
        response_format: None,
        thinking: None,
        tools: None,
        tool_choice: None,
        streaming: false,
    }
}

#[test]
fn adapter_kwargs_assemble_in_order() {
    let base = BaseAdapter::new("openai");
    let mut params = empty_params();
    params.top_k = Some(5);
    params.streaming = true;
    params.thinking = Some(ThinkingConfig {
        thinking_type: Some("enabled".to_string()),
        budget_tokens: Some(256),
    });
    let kwargs = base.build_model_kwargs(&params);
    let got: Vec<(String, String)> = kwargs;
    assert_eq!(
        got,
        vec![
            ("response_format".to_string(), "{\"type\":\"text\"}".to_string()),
            ("thinking_budget".to_string(), "256".to_string()),
            ("thinking".to_string(), "{\"type\":\"enabled\"}".to_string()),
            ("top_k".to_string(), "5".to_string()),
            ("stream_options".to_string(), "{\"include_usage\":false}".to_string()),
        ]
    );
}

#[test]
fn vendor_adapters_add_their_extras() {
    let mut params = empty_params();
    params.thinking = Some(ThinkingConfig { thinking_type: None, budget_tokens: None });
    let sf = SiliconFlowAdapter::new().build_model_kwargs(&params);
    assert!(sf.contains(&("enable_thinking".to_string(), "true".to_string())));
    assert!(sf.contains(&("thinking_budget".to_string(), "1024".to_string())));
    assert!(sf.contains(&("extra_body".to_string(), "{\"thinking_budget\":1024}".to_string())));

    let mut params = empty_params();
    params.streaming = true;
    params.model = Some("GLM-4.6-turbo".to_string());
    params.tools = Some(vec!["{\"name\":\"t\"}".to_string()]);
    let glm = GLMAdapter::new().build_model_kwargs(&params);
    assert!(glm.contains(&("tool_stream".to_string(), "true".to_string())));
    assert!(glm.contains(&("tools".to_string(), "[{\"name\":\"t\"}]".to_string())));

    let mut params = empty_params();
    params.thinking = Some(ThinkingConfig {
        thinking_type: Some("on".to_string()),
        budget_tokens: None,
    });
    let nv = NvidiaNimAdapter::new().build_model_kwargs(&params);
    assert!(nv.contains(&(
        "chat_template_kwargs".to_string(),
        "{\"thinking\":{\"type\":\"on\",\"budgetTokens\":null}}".to_string()
    )));
}

#[test]
fn decimal_and_trim_helpers_format_exactly() {
    assert_eq!(u64_to_dec(0), "0");
    assert_eq!(u64_to_dec(10), "10");
    assert_eq!(u64_to_dec(65535), "65535");
    assert_eq!(u64_to_dec(120534), "120534");
    assert_eq!(trim_str("  a b \n"), "a b");
    assert_eq!(trim_str("\t\n "), "");
}

#[test]
fn adapter_registry_lists_its_providers() {
    assert!(qurio_core::adapters::is_provider_supported("glm"));
    assert!(!qurio_core::adapters::is_provider_supported("moonshot"));
    let providers = qurio_core::adapters::supported_providers();
    assert_eq!(providers.len(), 9);
    assert!(providers.contains(&"nvidia"));
}

#[test]
fn tool_call_normalization_searches_vendor_shapes() {
    let calls: Vec<Vec<u8>> = vec![
        b"{\"id\":\"a\",\"function\":{\"name\":\"calc\",\"arguments\":\"{\\\"x\\\":1}\"}}".to_vec(),
        b"{\"id\":\"b\",\"name\":\"top\",\"arguments\":{\"y\":2}}".to_vec(),
        b"{\"id\":\"c\",\"tool\":{\"function\":{\"name\":\"nested\"}}}".to_vec(),
        b"{\"id\":\"\",\"name\":\"dropped\"}".to_vec(),
        b"{\"id\":\"d\"}".to_vec(),
    ];
    let normalized = qurio_core::adapters::normalize_tool_calls(&calls);
    assert_eq!(normalized.len(), 3);
    assert_eq!(normalized[0].id, "a");
    assert_eq!(normalized[0].tool_type, "function");
    assert_eq!(normalized[0].function.name, "calc");
    assert_eq!(normalized[0].function.arguments, "{\"x\":1}");
    assert_eq!(normalized[1].function.name, "top");
    assert_eq!(normalized[1].function.arguments, "{\"y\":2}");
    assert_eq!(normalized[2].function.name, "nested");
    assert_eq!(normalized[2].function.arguments, "");
}
