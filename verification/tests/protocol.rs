//! Tests of the streaming protocol core: line reassembly, chunk-boundary
//! invariance, tool-call accumulation, tag splitting, the agent loop and
//! the chat SSE session.

use qurio_core::accumulator::{ToolCallAccumulator, ToolFragment};
use qurio_core::agent_loop::{AgentLoop, LoopDirective, TurnOutcome, CHAT_TURN_CEILING,
    RESEARCH_STEP_TURN_CEILING};
use qurio_core::decoder::StreamDecoder;
use qurio_core::events::{StreamEvent, ToolCallPart};
use qurio_core::linebuf::LineBuffer;
use qurio_core::sse::ChatSession;
use qurio_core::tags::{TaggedTextParser, TextPiece};
use qurio_core::vendors::{kimi_schema, nvidia_schema, openai_compatible_schema};

fn frag(
    index: Option<usize>,
    id: Option<&str>,
    name: Option<&str>,
    arguments: Option<&str>,
) -> ToolFragment {
    ToolFragment {
        index,
        id: id.map(|s| s.to_string()),
        name: name.map(|s| s.to_string()),
        arguments: arguments.map(|s| s.to_string()),
    }
}

fn event_sig(e: &StreamEvent) -> String {
    match e {
        StreamEvent::TextDelta(t) => format!("text:{}", t),
        StreamEvent::ReasoningDelta(t) => format!("reason:{}", t),
        StreamEvent::ToolCallDelta { id, part } => match part {
            ToolCallPart::Name(n) => format!("delta-name:{}:{}", id, n),
            ToolCallPart::ArgsFragment(a) => format!("delta-args:{}:{}", id, a),
        },
        StreamEvent::ToolCall { id, name, arguments } => {
            format!("call:{}:{}:{}", id, name, arguments)
        }
        StreamEvent::FinalResponse { usage } => format!(
            "final:{}:{}:{}",
            usage.prompt_tokens, usage.completion_tokens, usage.total_tokens
        ),
        StreamEvent::Error(m) => format!("error:{}", m),
    }
}

fn sigs(events: &[StreamEvent]) -> Vec<String> {
    events.iter().map(event_sig).collect()
}

#[test]
fn line_buffer_reassembles_split_lines() {
    let mut buf = LineBuffer::new();
    let first = buf.push_bytes(b"hel");
    assert_eq!(first.len(), 0);
    let second = buf.push_bytes(b"lo\nwor");
    assert_eq!(second.len(), 1);
    assert_eq!(second[0], b"hello".to_vec());
    let third = buf.push_bytes(b"ld\n\n");
    assert_eq!(third.len(), 2);
    assert_eq!(third[0], b"world".to_vec());
    assert_eq!(third[1], b"".to_vec());
}

#[test]
fn tool_call_reassembly_concatenates_fragments_in_order() {
    let mut acc = ToolCallAccumulator::new();
    let e1 = acc.apply_fragment(&frag(Some(0), Some("call-1"), Some("get_"), None));
    let e2 = acc.apply_fragment(&frag(Some(0), None, Some("weather"), Some("{\"city\":")));
    let e3 = acc.apply_fragment(&frag(Some(0), None, None, Some("\"Oslo\"}")));
    assert_eq!(sigs(&e1), vec!["delta-name:call-1:get_".to_string()]);
    assert_eq!(
        sigs(&e2),
        vec![
            "delta-name:call-1:weather".to_string(),
            "delta-args:call-1:{\"city\":".to_string()
        ]
    );
    assert_eq!(sigs(&e3), vec!["delta-args:call-1:\"Oslo\"}".to_string()]);
    let flushed = acc.flush();
    assert_eq!(
        sigs(&flushed),
        vec!["call:call-1:get_weather:{\"city\":\"Oslo\"}".to_string()]
    );
    assert_eq!(acc.len(), 0);
}

#[test]
fn accumulator_keeps_entries_by_index_not_id() {
    let mut acc = ToolCallAccumulator::new();
    acc.apply_fragment(&frag(Some(0), Some(""), Some("alpha"), None));
    acc.apply_fragment(&frag(Some(1), Some("late-id"), Some("beta"), None));
    acc.apply_fragment(&frag(Some(0), Some("early-id"), None, Some("{}")));
    let flushed = acc.flush();
    assert_eq!(
        sigs(&flushed),
        vec![
            "call:early-id:alpha:{}".to_string(),
            "call:late-id:beta:".to_string()
        ]
    );
}

fn decode_all(bytes: &[u8], split_at: usize) -> Vec<String> {
    let mut dec = StreamDecoder::new(nvidia_schema());
    let mut events = Vec::new();
    let cut = split_at.min(bytes.len());
    events.extend(dec.push_chunk(&bytes[..cut]));
    events.extend(dec.push_chunk(&bytes[cut..]));
    events.extend(dec.finish());
    sigs(&events)
}

#[test]
fn decoder_chunk_boundary_invariance_at_every_offset() {
    let stream: &[u8] = b"data: {\"choices\":[{\"delta\":{\"content\":\"Hello\",\"reasoning_content\":\"hm\"}}]}\n\ndata: {\"choices\":[{\"delta\":{\"tool_calls\":[{\"index\":0,\"id\":\"c1\",\"function\":{\"name\":\"calc\",\"arguments\":\"{\\\"x\\\":1}\"}}]},\"finish_reason\":\"tool_calls\"}]}\n\ndata: [DONE]\n";
    let reference = decode_all(stream, stream.len());
    for cut in 0..=stream.len() {
        assert_eq!(decode_all(stream, cut), reference, "split at {}", cut);
    }
    assert_eq!(
        reference,
        vec![
            "reason:hm".to_string(),
            "text:Hello".to_string(),
            "delta-name:c1:calc".to_string(),
            "delta-args:c1:{\"x\":1}".to_string(),
            "call:c1:calc:{\"x\":1}".to_string(),
            "final:0:0:0".to_string(),
        ]
    );
}

#[test]
fn decoder_reads_usage_and_stops_after_done_marker() {
    let mut dec = StreamDecoder::new(openai_compatible_schema());
    let events = dec.push_chunk(
        b"data: {\"choices\":[{\"delta\":{}}],\"usage\":{\"prompt_tokens\":7,\"completion_tokens\":5,\"total_tokens\":12}}\ndata: [DONE]\ndata: {\"choices\":[{\"delta\":{\"content\":\"ignored\"}}]}\n",
    );
    assert_eq!(events.len(), 0);
    let fin = dec.finish();
    assert_eq!(sigs(&fin), vec!["final:7:5:12".to_string()]);
}

#[test]
fn decoder_drops_malformed_lines_and_continues() {
    let mut dec = StreamDecoder::new(openai_compatible_schema());
    let events = dec.push_chunk(
        b"data: this is not json\ndata: {\"choices\":[{\"delta\":{\"content\":\"ok\"}}]}\n",
    );
    assert_eq!(sigs(&events), vec!["text:ok".to_string()]);
}

#[test]
fn decoder_reasoning_field_precedence_never_double_emits() {
    let mut dec = StreamDecoder::new(kimi_schema());
    let events = dec.push_chunk(
        b"data: {\"choices\":[{\"delta\":{\"reasoning_content\":\"first\",\"thinking\":\"second\"}}]}\n",
    );
    assert_eq!(sigs(&events), vec!["reason:first".to_string()]);
}

fn piece_sig(p: &TextPiece) -> String {
    match p {
        TextPiece::Visible(s) => format!("v:{}", s),
        TextPiece::Thought(s) => format!("t:{}", s),
    }
}

#[test]
fn tag_splitting_separates_visible_and_thought_text() {
    let mut parser = TaggedTextParser::new(true);
    let pieces = parser.handle("hello<think>secret</think>world");
    let got: Vec<String> = pieces.iter().map(piece_sig).collect();
    assert_eq!(
        got,
        vec!["v:hello".to_string(), "t:secret".to_string(), "v:world".to_string()]
    );

    let mut off = TaggedTextParser::new(false);
    let pieces = off.handle("hello<think>secret</think>world");
    let got: Vec<String> = pieces.iter().map(piece_sig).collect();
    assert_eq!(got, vec!["v:hello<think>secret</think>world".to_string()]);
}

#[test]
fn tag_splitting_is_incremental_and_case_insensitive() {
    let mut parser = TaggedTextParser::new(true);
    let mut got: Vec<String> = Vec::new();
    got.extend(parser.handle("a<THI").iter().map(piece_sig));
    assert!(parser.in_thought_block == false);
    got.extend(parser.handle("NK>b").iter().map(piece_sig));
    // The tag split across calls is not recognized, mirroring per-chunk
    // scanning; a tag inside one chunk is, whatever its case.
    got.extend(parser.handle("<ThInK>deep</THINK>c").iter().map(piece_sig));
    assert_eq!(
        got,
        vec![
            "v:a<THI".to_string(),
            "v:NK>b".to_string(),
            "t:deep".to_string(),
            "v:c".to_string()
        ]
    );
}

#[test]
fn turn_ceiling_ends_loop_without_error() {
    let mut stepped = AgentLoop::new(4);
    let mut directives = Vec::new();
    loop {
        let d = stepped.on_turn(&TurnOutcome::ToolCallsRequested);
        let stop = matches!(d, LoopDirective::Stop);
        directives.push(d);
        if stop {
            break;
        }
    }
    assert_eq!(directives.len(), 4);
    assert!(matches!(directives[0], LoopDirective::CallVendor));
    assert!(matches!(directives[1], LoopDirective::CallVendor));
    assert!(matches!(directives[2], LoopDirective::CallVendor));
    assert!(matches!(directives[3], LoopDirective::Stop));
    assert!(stepped.finished);
    assert!(!stepped.errored);
    assert_eq!(stepped.turns_used, 4);
}

#[test]
fn loop_stops_on_completion_and_errors_on_transport_failure() {
    let mut done = AgentLoop::new(10);
    assert!(matches!(done.on_turn(&TurnOutcome::Completed), LoopDirective::Stop));
    assert!(done.finished && !done.errored);

    let mut failed = AgentLoop::new(10);
    match failed.on_turn(&TurnOutcome::TransportError("boom".to_string())) {
        LoopDirective::EmitError(m) => assert_eq!(m, "boom"),
        _ => panic!("expected a terminal error directive"),
    }
    assert!(failed.finished && failed.errored);
    assert_eq!(CHAT_TURN_CEILING, 10);
    assert_eq!(RESEARCH_STEP_TURN_CEILING, 4);
}

#[test]
fn chat_session_emits_frames_and_one_done() {
    let mut session = ChatSession::new(true);
    let frames = session.on_text("hi<think>why</think>!");
    assert_eq!(
        frames,
        vec![
            "{\"content\":\"hi\",\"type\":\"text\"}".to_string(),
            "{\"content\":\"why\",\"type\":\"thought\"}".to_string(),
            "{\"content\":\"!\",\"type\":\"text\"}".to_string(),
        ]
    );
    let call = session.on_tool_call("id-1", "Tavily_web_search", "{\"query\":\"x\"}");
    assert_eq!(
        call,
        "{\"arguments\":\"{\\\"query\\\":\\\"x\\\"}\",\"id\":\"id-1\",\"name\":\"Tavily_web_search\",\"type\":\"tool_call\"}"
    );
    let result = session.on_tool_result(
        "id-1",
        "{ \"results\": [ {\"title\": \"One\", \"url\": \"https://a\"}, {\"title\": \"Two\", \"url\": \"https://a\"} ] }",
    );
    // The output is re-serialized compactly, so the spaces of the raw text
    // are gone.
    assert_eq!(
        result,
        "{\"id\":\"id-1\",\"name\":\"Tavily_web_search\",\"output\":{\"results\":[{\"title\":\"One\",\"url\":\"https://a\"},{\"title\":\"Two\",\"url\":\"https://a\"}]},\"status\":\"done\",\"type\":\"tool_result\"}"
    );
    let done = session.finish();
    assert_eq!(
        done,
        "{\"content\":\"hi!\",\"sources\":[{\"title\":\"One\",\"uri\":\"https://a\"}],\"thought\":\"why\",\"type\":\"done\"}"
    );
}

#[test]
fn chat_session_error_frame_is_terminal_shape() {
    let mut session = ChatSession::new(false);
    let frames = session.on_text("partial");
    assert_eq!(frames, vec!["{\"content\":\"partial\",\"type\":\"text\"}".to_string()]);
    let err = session.fail("connection reset");
    assert_eq!(err, "{\"error\":\"connection reset\",\"type\":\"error\"}");
}

#[test]
fn chat_session_quotes_special_characters() {
    let mut session = ChatSession::new(false);
    let frames = session.on_text("say \"hi\"\nnow");
    assert_eq!(
        frames,
        vec!["{\"content\":\"say \\\"hi\\\"\\nnow\",\"type\":\"text\"}".to_string()]
    );
}
