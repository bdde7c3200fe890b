//! The deep-research orchestration state machine for one session:
//! sequential step execution over an immutable plan, findings appended per
//! completed step, sources merged from search-tool results, and the final
//! report streamed before exactly one terminal frame. One step's failure
//! never aborts the plan; only a reporting-phase failure is
//! session-terminal.

use vstd::prelude::*;

use vstd::string::StringSliceAdditionalSpecFns;

use crate::json::{json_quote, json_quoted};
use crate::research::{
    build_final_report_prompt, build_sources_list, build_step_prompt, report_prompt_spec,
    source_line_spec, step_prompt_spec, ResearchPlanMeta, ResearchStepV,
};
use crate::sources::{
    collect_web_search_sources, feed_all, is_tavily_search_tool_name, result_sources,
    spec_is_search_tool, ResearchSource, ResearchSourceV, SourceMap,
};
use crate::text::{dec_of, u64_to_dec};

verus! {

/// The body of one `research_step` frame: step counters, the step title,
/// its status, and optionally its duration and error.
pub open spec fn research_step_frame_spec(
    step: nat,
    total: nat,
    title: Seq<char>,
    status: Seq<char>,
    duration_ms: Option<u64>,
    error: Option<Seq<char>>,
) -> Seq<char> {
    "{\"type\":\"research_step\",\"step\":"@ + dec_of(step) + ",\"total\":"@ + dec_of(total)
        + ",\"title\":"@ + json_quoted(title) + ",\"status\":"@ + json_quoted(status) + (match
    duration_ms {
        Some(d) => ",\"duration_ms\":"@ + dec_of(d as nat),
        None => Seq::<char>::empty(),
    }) + (match error {
        Some(e) => ",\"error\":"@ + json_quoted(e),
        None => Seq::<char>::empty(),
    }) + "}"@
}

/// The body of one research-mode `text` frame.
pub open spec fn research_text_frame_spec(content: Seq<char>) -> Seq<char> {
    "{\"type\":\"text\",\"content\":"@ + json_quoted(content) + "}"@
}

/// One source as a JSON object with all four fields.
pub open spec fn research_source_obj_spec(s: ResearchSourceV) -> Seq<char> {
    "{\"title\":"@ + json_quoted(s.title) + ",\"url\":"@ + json_quoted(s.url) + ",\"uri\":"@
        + json_quoted(s.uri) + ",\"snippet\":"@ + json_quoted(s.snippet) + "}"@
}

/// The comma-separated source objects.
pub open spec fn research_sources_items_spec(s: Seq<ResearchSourceV>) -> Seq<char>
    decreases s.len(),
{
    if s.len() == 0 {
        Seq::empty()
    } else if s.len() == 1 {
        research_source_obj_spec(s[0])
    } else {
        research_sources_items_spec(s.drop_last()) + ","@ + research_source_obj_spec(s.last())
    }
}

/// The body of the terminal research `done` frame: the full report and the
/// gathered sources where any search tool ran.
pub open spec fn research_done_frame_spec(
    content: Seq<char>,
    sources: Seq<ResearchSourceV>,
) -> Seq<char> {
    "{\"type\":\"done\",\"content\":"@ + json_quoted(content) + (if sources.len() > 0 {
        ",\"sources\":["@ + research_sources_items_spec(sources) + "]"@
    } else {
        Seq::<char>::empty()
    }) + "}"@
}

/// The body of the terminal research `error` frame.
pub open spec fn research_error_frame_spec(err: Seq<char>) -> Seq<char> {
    "{\"type\":\"error\",\"error\":"@ + json_quoted(err) + "}"@
}

/// The body of one research-mode `tool_call` frame.
pub open spec fn research_tool_call_frame_spec(
    id: Option<Seq<char>>,
    name: Option<Seq<char>>,
    arguments: Seq<char>,
    step: nat,
    total: nat,
) -> Seq<char> {
    "{\"type\":\"tool_call\",\"id\":"@ + (match id {
        Some(i) => json_quoted(i),
        None => "null"@,
    }) + ",\"name\":"@ + (match name {
        Some(n) => json_quoted(n),
        None => "null"@,
    }) + ",\"arguments\":"@ + json_quoted(arguments) + ",\"step\":"@ + dec_of(step)
        + ",\"total\":"@ + dec_of(total) + "}"@
}

/// The body of one research-mode `tool_result` frame.
pub open spec fn research_tool_result_frame_spec(
    id: Option<Seq<char>>,
    name: Option<Seq<char>>,
    output: Seq<char>,
    step: nat,
    total: nat,
) -> Seq<char> {
    "{\"type\":\"tool_result\",\"id\":"@ + (match id {
        Some(i) => json_quoted(i),
        None => "null"@,
    }) + ",\"name\":"@ + (match name {
        Some(n) => json_quoted(n),
        None => "null"@,
    }) + ",\"status\":\"done\",\"output\":"@ + json_quoted(output) + ",\"step\":"@ + dec_of(step)
        + ",\"total\":"@ + dec_of(total) + "}"@
}

/// Append an optional quoted name (or `null`).
fn append_opt_quoted(out: &mut String, v: &Option<String>)
    ensures
        final(out)@ == old(out)@ + (match v {
            Some(s) => json_quoted(s@),
            None => "null"@,
        }),
{
    match v {
        Some(s) => {
            let q = json_quote(s.as_str());
            out.append(q.as_str());
        },
        None => {
            out.append("null");
        },
    }
}

/// One deep-research session, exclusively owned by one request: the plan
/// is immutable, steps run strictly sequentially, findings are append-only
/// and sources deduplicate by URL.
pub struct ResearchSession {
    pub plan: ResearchPlanMeta,
    pub question: String,
    pub research_type: String,
    pub sources: SourceMap,
    pub findings: Vec<String>,
    pub next_step: usize,
    pub in_step: bool,
    pub report_content: String,
    pub terminated: bool,
}

impl ResearchSession {
    /// The session stays meaningful: the step cursor never passes the plan
    /// and a terminated session is not inside a step.
    pub open spec fn wf(self) -> bool {
        &&& self.next_step <= self.plan@.plan.len()
        &&& self.plan@.plan.len() <= 0xffff_ffff
        &&& (self.in_step ==> self.next_step < self.plan@.plan.len())
        &&& (self.terminated ==> !self.in_step)
    }

    /// A fresh session over a parsed plan.
    pub fn new(plan: ResearchPlanMeta, question: String, research_type: String) -> (r: Self)
        requires
            plan@.plan.len() <= 0xffff_ffff,
        ensures
            r.wf(),
            r.plan == plan,
            r.question == question,
            r.research_type == research_type,
            r.sources@ == Seq::<ResearchSourceV>::empty(),
            r.findings@ == Seq::<String>::empty(),
            r.next_step == 0,
            !r.in_step,
            r.report_content@ == Seq::<char>::empty(),
            !r.terminated,
    {
        let r = ResearchSession {
            plan,
            question,
            research_type,
            sources: SourceMap::new(),
            findings: Vec::new(),
            next_step: 0,
            in_step: false,
            report_content: String::new(),
            terminated: false,
        };
        proof {
            assert(r.findings@ =~= Seq::<String>::empty());
        }
        r
    }

    /// Whether another plan step remains to execute.
    pub fn has_next_step(&self) -> (r: bool)
        ensures
            r <==> self.next_step < self.plan@.plan.len(),
    {
        self.next_step < self.plan.plan.len()
    }

    /// The title shown for a step: its action, or a generic label where
    /// the action is empty.
    pub open spec fn step_title(step: ResearchStepV) -> Seq<char> {
        if step.action.len() > 0 {
            step.action
        } else {
            "Research"@
        }
    }

    /// Begin the next step: one `research_step` frame with status
    /// `running`, and the step prompt embedding the goal, the step, all
    /// prior findings and the current numbered source list.
    pub fn begin_step(&mut self) -> (r: (String, String))
        requires
            old(self).wf(),
            !old(self).terminated,
            !old(self).in_step,
            old(self).next_step < old(self).plan@.plan.len(),
        ensures
            final(self).wf(),
            *final(self) == (ResearchSession { in_step: true, ..*old(self) }),
            r.0@ == research_step_frame_spec(
                old(self).next_step as nat + 1,
                old(self).plan@.plan.len(),
                Self::step_title(old(self).plan@.plan[old(self).next_step as int]),
                "running"@,
                None,
                None,
            ),
            r.1@ == step_prompt_spec(
                old(self).plan@,
                old(self).plan@.plan[old(self).next_step as int],
                old(self).next_step as nat,
                old(self).findings@.map_values(|s: String| s@),
                Seq::new(
                    old(self).sources@.len(),
                    |i: int| source_line_spec(i as nat, old(self).sources@[i]),
                ),
                old(self).research_type@ == "academic"@,
            ),
    {
        let step_ref = &self.plan.plan[self.next_step];
        let title = if !step_ref.action.as_str().is_empty() {
            step_ref.action.clone()
        } else {
            String::from_str("Research")
        };
        let mut frame = String::new();
        frame.append("{\"type\":\"research_step\",\"step\":");
        let sd = u64_to_dec(self.next_step as u64 + 1);
        frame.append(sd.as_str());
        frame.append(",\"total\":");
        let td = u64_to_dec(self.plan.plan.len() as u64);
        frame.append(td.as_str());
        frame.append(",\"title\":");
        let qt = json_quote(title.as_str());
        frame.append(qt.as_str());
        frame.append(",\"status\":");
        let qs = json_quote("running");
        frame.append(qs.as_str());
        frame.append("}");
        proof {
            assert(self.plan@.plan[self.next_step as int] == self.plan.plan@[self.next_step as int]@);
            assert(title@ == Self::step_title(self.plan@.plan[self.next_step as int]));
            assert(frame@ =~= research_step_frame_spec(
                self.next_step as nat + 1,
                self.plan@.plan.len(),
                Self::step_title(self.plan@.plan[self.next_step as int]),
                "running"@,
                None,
                None,
            ));
        }
        let sources_list = build_sources_list(&self.sources);
        let prompt = build_step_prompt(
            &self.plan,
            &self.plan.plan[self.next_step],
            self.next_step,
            &self.findings,
            &sources_list,
            self.research_type.as_str(),
        );
        self.in_step = true;
        (frame, prompt)
    }

    /// Finish the running step successfully: the loop's final text joins
    /// the findings (append-only, never mutated after append), and one
    /// `research_step` frame with status `done` and the step's duration is
    /// produced.
    pub fn finish_step(&mut self, content: String, duration_ms: u64) -> (frame: String)
        requires
            old(self).wf(),
            old(self).in_step,
        ensures
            final(self).wf(),
            *final(self) == (ResearchSession {
                in_step: false,
                next_step: (old(self).next_step + 1) as usize,
                findings: final(self).findings,
                ..*old(self)
            }),
            final(self).findings@ == old(self).findings@.push(content),
            frame@ == research_step_frame_spec(
                old(self).next_step as nat + 1,
                old(self).plan@.plan.len(),
                Self::step_title(old(self).plan@.plan[old(self).next_step as int]),
                "done"@,
                Some(duration_ms),
                None,
            ),
    {
        let frame = self.step_end_frame("done", Some(duration_ms), None);
        self.findings.push(content);
        self.in_step = false;
        self.next_step = self.next_step + 1;
        frame
    }

    /// Finish the running step with an error: the failure is reported in
    /// that step's frame and the pipeline proceeds to the next step —
    /// a step failure is never session-terminal.
    pub fn fail_step(&mut self, error: &str, duration_ms: u64) -> (frame: String)
        requires
            old(self).wf(),
            old(self).in_step,
        ensures
            final(self).wf(),
            *final(self) == (ResearchSession {
                in_step: false,
                next_step: (old(self).next_step + 1) as usize,
                ..*old(self)
            }),
            frame@ == research_step_frame_spec(
                old(self).next_step as nat + 1,
                old(self).plan@.plan.len(),
                Self::step_title(old(self).plan@.plan[old(self).next_step as int]),
                "error"@,
                Some(duration_ms),
                Some(error@),
            ),
    {
        let frame = self.step_end_frame("error", Some(duration_ms), Some(error));
        self.in_step = false;
        self.next_step = self.next_step + 1;
        frame
    }

    /// Build one end-of-step frame.
    fn step_end_frame(
        &self,
        status: &str,
        duration_ms: Option<u64>,
        error: Option<&str>,
    ) -> (frame: String)
        requires
            self.wf(),
            self.in_step,
        ensures
            frame@ == research_step_frame_spec(
                self.next_step as nat + 1,
                self.plan@.plan.len(),
                Self::step_title(self.plan@.plan[self.next_step as int]),
                status@,
                duration_ms,
                match error {
                    Some(e) => Some(e@),
                    None => None,
                },
            ),
    {
        let step_ref = &self.plan.plan[self.next_step];
        let title = if !step_ref.action.as_str().is_empty() {
            step_ref.action.clone()
        } else {
            String::from_str("Research")
        };
        let mut frame = String::new();
        frame.append("{\"type\":\"research_step\",\"step\":");
        let sd = u64_to_dec(self.next_step as u64 + 1);
        frame.append(sd.as_str());
        frame.append(",\"total\":");
        let td = u64_to_dec(self.plan.plan.len() as u64);
        frame.append(td.as_str());
        frame.append(",\"title\":");
        let qt = json_quote(title.as_str());
        frame.append(qt.as_str());
        frame.append(",\"status\":");
        let qs = json_quote(status);
        frame.append(qs.as_str());
        match duration_ms {
            Some(d) => {
                frame.append(",\"duration_ms\":");
                let dd = u64_to_dec(d);
                frame.append(dd.as_str());
            },
            None => {},
        }
        match error {
            Some(e) => {
                frame.append(",\"error\":");
                let qe = json_quote(e);
                frame.append(qe.as_str());
            },
            None => {},
        }
        frame.append("}");
        proof {
            assert(self.plan@.plan[self.next_step as int] == self.plan.plan@[self.next_step as int]@);
            assert(title@ == Self::step_title(self.plan@.plan[self.next_step as int]));
            assert(frame@ =~= research_step_frame_spec(
                self.next_step as nat + 1,
                self.plan@.plan.len(),
                Self::step_title(self.plan@.plan[self.next_step as int]),
                status@,
                duration_ms,
                match error {
                    Some(e) => Some(e@),
                    None => None,
                },
            ));
        }
        frame
    }

    /// One research-mode `tool_call` frame for the running step.
    pub fn tool_call_frame(
        &self,
        id: &Option<String>,
        name: &Option<String>,
        arguments: &str,
    ) -> (frame: String)
        requires
            self.wf(),
            self.in_step,
        ensures
            frame@ == research_tool_call_frame_spec(
                match id {
                    Some(i) => Some(i@),
                    None => None,
                },
                match name {
                    Some(n) => Some(n@),
                    None => None,
                },
                arguments@,
                self.next_step as nat + 1,
                self.plan@.plan.len(),
            ),
    {
        let mut frame = String::new();
        frame.append("{\"type\":\"tool_call\",\"id\":");
        append_opt_quoted(&mut frame, id);
        frame.append(",\"name\":");
        append_opt_quoted(&mut frame, name);
        frame.append(",\"arguments\":");
        let qa = json_quote(arguments);
        frame.append(qa.as_str());
        frame.append(",\"step\":");
        let sd = u64_to_dec(self.next_step as u64 + 1);
        frame.append(sd.as_str());
        frame.append(",\"total\":");
        let td = u64_to_dec(self.plan.plan.len() as u64);
        frame.append(td.as_str());
        frame.append("}");
        proof {
            assert(frame@ =~= research_tool_call_frame_spec(
                match id {
                    Some(i) => Some(i@),
                    None => None,
                },
                match name {
                    Some(n) => Some(n@),
                    None => None,
                },
                arguments@,
                self.next_step as nat + 1,
                self.plan@.plan.len(),
            ));
        }
        frame
    }

    /// One research-mode `tool_result` frame for the running step; where
    /// the tool is a recognized search tool, the result's sources are
    /// merged into the session's deduplicated source mapping.
    pub fn tool_result_frame(
        &mut self,
        id: &Option<String>,
        name: &Option<String>,
        output: &str,
    ) -> (frame: String)
        requires
            old(self).wf(),
            old(self).in_step,
        ensures
            final(self).wf(),
            *final(self) == (ResearchSession { sources: final(self).sources, ..*old(self) }),
            final(self).sources@ == (match name {
                Some(n) => if spec_is_search_tool(n@) {
                    feed_all(old(self).sources@, result_sources(output.spec_bytes()))
                } else {
                    old(self).sources@
                },
                None => old(self).sources@,
            }),
            frame@ == research_tool_result_frame_spec(
                match id {
                    Some(i) => Some(i@),
                    None => None,
                },
                match name {
                    Some(n) => Some(n@),
                    None => None,
                },
                output@,
                old(self).next_step as nat + 1,
                old(self).plan@.plan.len(),
            ),
    {
        match name {
            Some(n) => {
                if is_tavily_search_tool_name(n.as_str()) {
                    collect_web_search_sources(&mut self.sources, output.as_bytes());
                }
            },
            None => {},
        }
        let mut frame = String::new();
        frame.append("{\"type\":\"tool_result\",\"id\":");
        append_opt_quoted(&mut frame, id);
        frame.append(",\"name\":");
        append_opt_quoted(&mut frame, name);
        frame.append(",\"status\":\"done\",\"output\":");
        let qo = json_quote(output);
        frame.append(qo.as_str());
        frame.append(",\"step\":");
        let sd = u64_to_dec(self.next_step as u64 + 1);
        frame.append(sd.as_str());
        frame.append(",\"total\":");
        let td = u64_to_dec(self.plan.plan.len() as u64);
        frame.append(td.as_str());
        frame.append("}");
        proof {
            assert(frame@ =~= research_tool_result_frame_spec(
                match id {
                    Some(i) => Some(i@),
                    None => None,
                },
                match name {
                    Some(n) => Some(n@),
                    None => None,
                },
                output@,
                old(self).next_step as nat + 1,
                old(self).plan@.plan.len(),
            ));
        }
        frame
    }

    /// The final report prompt over all findings and the full numbered
    /// source list.
    pub fn report_prompt(&self) -> (r: String)
        requires
            self.wf(),
            !self.in_step,
            self.next_step == self.plan@.plan.len(),
        ensures
            r@ == report_prompt_spec(
                self.plan@,
                self.question@,
                self.findings@.map_values(|s: String| s@),
                Seq::new(
                    self.sources@.len(),
                    |i: int| source_line_spec(i as nat, self.sources@[i]),
                ),
                self.research_type@ == "academic"@,
            ),
    {
        let sources_list = build_sources_list(&self.sources);
        build_final_report_prompt(
            &self.plan,
            self.question.as_str(),
            &self.findings,
            &sources_list,
            self.research_type.as_str(),
        )
    }

    /// Take one streamed report chunk: accumulated into the report and
    /// emitted as one `text` frame where non-empty.
    pub fn push_report_chunk(&mut self, text: &str) -> (frame: Option<String>)
        requires
            old(self).wf(),
            !old(self).terminated,
        ensures
            final(self).wf(),
            *final(self) == (ResearchSession {
                report_content: final(self).report_content,
                ..*old(self)
            }),
            text@.len() == 0 ==> frame is None && final(self).report_content
                == old(self).report_content,
            text@.len() > 0 ==> {
                &&& frame matches Some(f) && f@ == research_text_frame_spec(text@)
                &&& final(self).report_content@ == old(self).report_content@ + text@
            },
    {
        if text.is_empty() {
            return None;
        }
        self.report_content.append(text);
        let mut frame = String::new();
        frame.append("{\"type\":\"text\",\"content\":");
        let q = json_quote(text);
        frame.append(q.as_str());
        frame.append("}");
        proof {
            assert(frame@ =~= research_text_frame_spec(text@));
        }
        Some(frame)
    }

    /// Build the comma-separated JSON objects for the gathered sources.
    fn sources_items(&self) -> (r: String)
        ensures
            r@ == research_sources_items_spec(self.sources@),
    {
        let mut out = String::new();
        let n = self.sources.len();
        let mut i: usize = 0;
        while i < n
            invariant
                i <= n,
                n == self.sources@.len(),
                out@ == research_sources_items_spec(self.sources@.take(i as int)),
            decreases n - i,
        {
            proof {
                assert(self.sources@.take(i as int + 1).drop_last() =~= self.sources@.take(
                    i as int,
                ));
                assert(self.sources@.take(i as int + 1).last() == self.sources@[i as int]);
            }
            if i > 0 {
                out.append(",");
            }
            let src = self.sources.get(i);
            out.append("{\"title\":");
            let qt = json_quote(src.title.as_str());
            out.append(qt.as_str());
            out.append(",\"url\":");
            let qu = json_quote(src.url.as_str());
            out.append(qu.as_str());
            out.append(",\"uri\":");
            let qr = json_quote(src.uri.as_str());
            out.append(qr.as_str());
            out.append(",\"snippet\":");
            let qs = json_quote(src.snippet.as_str());
            out.append(qs.as_str());
            out.append("}");
            proof {
                if i == 0 {
                    assert(out@ =~= research_sources_items_spec(self.sources@.take(1)));
                } else {
                    assert(out@ =~= research_sources_items_spec(
                        self.sources@.take(i as int + 1),
                    ));
                }
            }
            i += 1;
        }
        proof {
            assert(self.sources@.take(n as int) =~= self.sources@);
        }
        out
    }

    /// End the session successfully: exactly one `done` frame with the
    /// full report text and the final source list (present exactly when
    /// any search tool contributed a source).
    pub fn finish(&mut self) -> (frame: String)
        requires
            old(self).wf(),
            !old(self).terminated,
            !old(self).in_step,
        ensures
            final(self).wf(),
            final(self).terminated,
            frame@ == research_done_frame_spec(
                old(self).report_content@,
                old(self).sources@,
            ),
    {
        let mut frame = String::new();
        frame.append("{\"type\":\"done\",\"content\":");
        let qc = json_quote(self.report_content.as_str());
        frame.append(qc.as_str());
        if self.sources.len() > 0 {
            frame.append(",\"sources\":[");
            let items = self.sources_items();
            frame.append(items.as_str());
            frame.append("]");
        }
        frame.append("}");
        self.terminated = true;
        proof {
            assert(frame@ =~= research_done_frame_spec(
                old(self).report_content@,
                old(self).sources@,
            ));
        }
        frame
    }

    /// End the session with a reporting-phase failure: exactly one
    /// terminal `error` frame.
    pub fn fail(&mut self, err: &str) -> (frame: String)
        requires
            old(self).wf(),
            !old(self).terminated,
            !old(self).in_step,
        ensures
            final(self).wf(),
            final(self).terminated,
            frame@ == research_error_frame_spec(err@),
    {
        let mut frame = String::new();
        frame.append("{\"type\":\"error\",\"error\":");
        let q = json_quote(err);
        frame.append(q.as_str());
        frame.append("}");
        self.terminated = true;
        proof {
            assert(frame@ =~= research_error_frame_spec(err@));
        }
        frame
    }
}

/// The canonical event vocabulary of a deep-research stream, as the
/// session serializes it: step progress, tool activity with step
/// counters, report text, and exactly one terminal event.
pub enum DeepResearchEvent {
    ResearchStep {
        step: u32,
        total: u32,
        title: String,
        status: String,
        duration_ms: Option<u64>,
        error: Option<String>,
    },
    ToolCall {
        id: Option<String>,
        name: Option<String>,
        arguments: String,
        step: Option<u32>,
        total: Option<u32>,
    },
    ToolResult {
        id: Option<String>,
        name: Option<String>,
        status: String,
        duration_ms: Option<u64>,
        output: String,
        error: Option<String>,
        step: Option<u32>,
        total: Option<u32>,
    },
    Text { content: String },
    Done { content: String, sources: Option<Vec<ResearchSource>> },
    Error { error: String },
}

impl DeepResearchEvent {
    /// The `type` tag under which this event is serialized.
    pub fn event_type(&self) -> (r: &'static str)
        ensures
            match self {
                DeepResearchEvent::ResearchStep { .. } => r@ == "research_step"@,
                DeepResearchEvent::ToolCall { .. } => r@ == "tool_call"@,
                DeepResearchEvent::ToolResult { .. } => r@ == "tool_result"@,
                DeepResearchEvent::Text { .. } => r@ == "text"@,
                DeepResearchEvent::Done { .. } => r@ == "done"@,
                DeepResearchEvent::Error { .. } => r@ == "error"@,
            },
    {
        match self {
            DeepResearchEvent::ResearchStep { .. } => "research_step",
            DeepResearchEvent::ToolCall { .. } => "tool_call",
            DeepResearchEvent::ToolResult { .. } => "tool_result",
            DeepResearchEvent::Text { .. } => "text",
            DeepResearchEvent::Done { .. } => "done",
            DeepResearchEvent::Error { .. } => "error",
        }
    }
}

} // verus!
