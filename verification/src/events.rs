//! Canonical stream events produced by the vendor decoders and consumed by
//! the agent loop. Vendor-specific field names never cross this boundary.

use vstd::prelude::*;

verus! {

/// Token usage counters reported at the end of a vendor stream
/// (zero-filled where the vendor reports none).
#[derive(Debug, Clone, Copy, PartialEq, Eq, Structural)]
pub struct Usage {
    pub prompt_tokens: u64,
    pub completion_tokens: u64,
    pub total_tokens: u64,
}

impl Usage {
    /// The all-zero usage record.
    pub fn zero() -> (r: Usage)
        ensures
            r.prompt_tokens == 0 && r.completion_tokens == 0 && r.total_tokens == 0,
    {
        Usage { prompt_tokens: 0, completion_tokens: 0, total_tokens: 0 }
    }
}

/// One incremental part of a streamed tool call.
pub enum ToolCallPart {
    Name(String),
    ArgsFragment(String),
}

/// Spec-level mirror of `ToolCallPart`.
pub enum ToolCallPartV {
    Name(Seq<char>),
    ArgsFragment(Seq<char>),
}

impl View for ToolCallPart {
    type V = ToolCallPartV;

    open spec fn view(&self) -> ToolCallPartV {
        match self {
            ToolCallPart::Name(s) => ToolCallPartV::Name(s@),
            ToolCallPart::ArgsFragment(s) => ToolCallPartV::ArgsFragment(s@),
        }
    }
}

/// Canonical stream event.
pub enum StreamEvent {
    TextDelta(String),
    ReasoningDelta(String),
    ToolCallDelta { id: String, part: ToolCallPart },
    ToolCall { id: String, name: String, arguments: String },
    FinalResponse { usage: Usage },
    Error(String),
}

/// Spec-level mirror of `StreamEvent`.
pub enum StreamEventV {
    TextDelta(Seq<char>),
    ReasoningDelta(Seq<char>),
    ToolCallDelta { id: Seq<char>, part: ToolCallPartV },
    ToolCall { id: Seq<char>, name: Seq<char>, arguments: Seq<char> },
    FinalResponse { usage: Usage },
    Error(Seq<char>),
}

impl View for StreamEvent {
    type V = StreamEventV;

    open spec fn view(&self) -> StreamEventV {
        match self {
            StreamEvent::TextDelta(s) => StreamEventV::TextDelta(s@),
            StreamEvent::ReasoningDelta(s) => StreamEventV::ReasoningDelta(s@),
            StreamEvent::ToolCallDelta { id, part } => StreamEventV::ToolCallDelta {
                id: id@,
                part: part@,
            },
            StreamEvent::ToolCall { id, name, arguments } => StreamEventV::ToolCall {
                id: id@,
                name: name@,
                arguments: arguments@,
            },
            StreamEvent::FinalResponse { usage } => StreamEventV::FinalResponse { usage: *usage },
            StreamEvent::Error(s) => StreamEventV::Error(s@),
        }
    }
}

/// The view of a vector of events, as a sequence of event views.
pub open spec fn events_view(v: Seq<StreamEvent>) -> Seq<StreamEventV> {
    v.map_values(|e: StreamEvent| e@)
}

} // verus!
