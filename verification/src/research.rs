//! The deep-research plan: its data model, parsing from caller-supplied
//! JSON with a hard-coded single-step fallback, and the step and
//! final-report prompt builders.

use vstd::prelude::*;

use vstd::string::StringSliceAdditionalSpecFns;

use crate::json::{
    json_arr_item, json_arr_len, json_arr_len_of, json_bool_field, json_bool_of, json_item_of,
    json_item_str_of, json_str_field, json_str_of, json_u64_field, json_u64_of, json_arr_str,
};
use crate::sources::{ResearchSourceV, SourceMap};
use crate::text::{dec_of, trim_chars, trim_str, u64_to_dec};

verus! {

/// One step of a research plan.
pub struct ResearchStep {
    pub step: u32,
    pub action: String,
    pub thought: String,
    pub expected_output: String,
    pub deliverable_format: String,
    pub depth: String,
    pub requires_search: bool,
    pub acceptance_criteria: Vec<String>,
}

/// Spec-level mirror of `ResearchStep`.
#[verifier::ext_equal]
pub struct ResearchStepV {
    pub step: u32,
    pub action: Seq<char>,
    pub thought: Seq<char>,
    pub expected_output: Seq<char>,
    pub deliverable_format: Seq<char>,
    pub depth: Seq<char>,
    pub requires_search: bool,
    pub acceptance_criteria: Seq<Seq<char>>,
}

impl View for ResearchStep {
    type V = ResearchStepV;

    open spec fn view(&self) -> ResearchStepV {
        ResearchStepV {
            step: self.step,
            action: self.action@,
            thought: self.thought@,
            expected_output: self.expected_output@,
            deliverable_format: self.deliverable_format@,
            depth: self.depth@,
            requires_search: self.requires_search,
            acceptance_criteria: self.acceptance_criteria@.map_values(|s: String| s@),
        }
    }
}

/// A research plan: created once per session, immutable thereafter.
pub struct ResearchPlanMeta {
    pub research_type: String,
    pub goal: String,
    pub complexity: String,
    pub question_type: String,
    pub assumptions: Vec<String>,
    pub plan: Vec<ResearchStep>,
    pub risks: Vec<String>,
    pub success_criteria: Vec<String>,
}

/// Spec-level mirror of `ResearchPlanMeta`.
#[verifier::ext_equal]
pub struct ResearchPlanMetaV {
    pub research_type: Seq<char>,
    pub goal: Seq<char>,
    pub complexity: Seq<char>,
    pub question_type: Seq<char>,
    pub assumptions: Seq<Seq<char>>,
    pub plan: Seq<ResearchStepV>,
    pub risks: Seq<Seq<char>>,
    pub success_criteria: Seq<Seq<char>>,
}

impl View for ResearchPlanMeta {
    type V = ResearchPlanMetaV;

    open spec fn view(&self) -> ResearchPlanMetaV {
        ResearchPlanMetaV {
            research_type: self.research_type@,
            goal: self.goal@,
            complexity: self.complexity@,
            question_type: self.question_type@,
            assumptions: self.assumptions@.map_values(|s: String| s@),
            plan: self.plan@.map_values(|s: ResearchStep| s@),
            risks: self.risks@.map_values(|s: String| s@),
            success_criteria: self.success_criteria@.map_values(|s: String| s@),
        }
    }
}

// ---------------------------------------------------------------------------
// Plan parsing
// ---------------------------------------------------------------------------
/// The string at a key, empty where absent.
pub open spec fn str_or_empty(d: Seq<u8>, key: Seq<char>) -> Seq<char> {
    match json_str_of(d, key) {
        Some(s) => s,
        None => Seq::empty(),
    }
}

/// The string elements of the array at a key, between positions `i` and
/// `n`, skipping non-string elements.
pub open spec fn str_items_from(d: Seq<u8>, key: Seq<char>, i: nat, n: nat) -> Seq<Seq<char>>
    decreases n - i,
{
    if i >= n {
        Seq::empty()
    } else {
        (match json_item_str_of(d, key, i as usize) {
            Some(s) => seq![s],
            None => Seq::empty(),
        }) + str_items_from(d, key, i + 1, n)
    }
}

/// The string elements of the array at a key.
pub open spec fn str_list_of(d: Seq<u8>, key: Seq<char>) -> Seq<Seq<char>> {
    match json_arr_len_of(d, key) {
        Some(n) => str_items_from(d, key, 0, n as nat),
        None => Seq::empty(),
    }
}

/// One more element of the string walk.
proof fn lemma_str_items_step(d: Seq<u8>, key: Seq<char>, i: nat, n: nat)
    requires
        i < n,
    ensures
        str_items_from(d, key, i, n) == (match json_item_str_of(d, key, i as usize) {
            Some(s) => seq![s],
            None => Seq::empty(),
        }) + str_items_from(d, key, i + 1, n),
{
}

/// Read the string elements of the array at a key.
fn read_str_list(d: &[u8], key: &str) -> (r: Vec<String>)
    ensures
        r@.map_values(|s: String| s@) == str_list_of(d@, key@),
{
    let mut out: Vec<String> = Vec::new();
    match json_arr_len(d, key) {
        Some(n) => {
            let mut i: usize = 0;
            proof {
                assert(out@.map_values(|s: String| s@) + str_items_from(
                    d@,
                    key@,
                    0,
                    n as nat,
                ) =~= str_items_from(d@, key@, 0, n as nat));
            }
            while i < n
                invariant
                    i <= n,
                    json_arr_len_of(d@, key@) == Some(n),
                    str_list_of(d@, key@) == out@.map_values(|s: String| s@) + str_items_from(
                        d@,
                        key@,
                        i as nat,
                        n as nat,
                    ),
                decreases n - i,
            {
                proof {
                    lemma_str_items_step(d@, key@, i as nat, n as nat);
                }
                match json_arr_str(d, key, i) {
                    Some(s) => {
                        let ghost sv = s@;
                        let ghost prev = out@;
                        out.push(s);
                        proof {
                            assert(out@.map_values(|s: String| s@) =~= prev.map_values(
                                |s: String| s@,
                            ).push(sv));
                            assert(prev.map_values(|s: String| s@).push(sv) + str_items_from(
                                d@,
                                key@,
                                i as nat + 1,
                                n as nat,
                            ) =~= prev.map_values(|s: String| s@) + (seq![sv] + str_items_from(
                                d@,
                                key@,
                                i as nat + 1,
                                n as nat,
                            )));
                        }
                    },
                    None => {
                        proof {
                            assert((Seq::<Seq<char>>::empty()) + str_items_from(
                                d@,
                                key@,
                                i as nat + 1,
                                n as nat,
                            ) =~= str_items_from(d@, key@, i as nat + 1, n as nat));
                        }
                    },
                }
                i += 1;
            }
            proof {
                assert(str_items_from(d@, key@, n as nat, n as nat)
                    =~= Seq::<Seq<char>>::empty());
                assert(out@.map_values(|s: String| s@) + Seq::<Seq<char>>::empty()
                    =~= out@.map_values(|s: String| s@));
            }
        },
        None => {
            proof {
                assert(out@.map_values(|s: String| s@) =~= Seq::<Seq<char>>::empty());
            }
        },
    }
    out
}

/// The step encoded by one `plan` array element: its number and action are
/// required, everything else defaults.
pub open spec fn step_of_item(b: Seq<u8>) -> Option<ResearchStepV> {
    match json_u64_of(b, "step"@) {
        None => None,
        Some(num) => if num > u32::MAX as u64 {
            None
        } else {
            match json_str_of(b, "action"@) {
                None => None,
                Some(action) => Some(
                    ResearchStepV {
                        step: num as u32,
                        action: action,
                        thought: str_or_empty(b, "thought"@),
                        expected_output: str_or_empty(b, "expected_output"@),
                        deliverable_format: str_or_empty(b, "deliverable_format"@),
                        depth: str_or_empty(b, "depth"@),
                        requires_search: match json_bool_of(b, "requires_search"@) {
                            Some(v) => v,
                            None => false,
                        },
                        acceptance_criteria: str_list_of(b, "acceptance_criteria"@),
                    },
                ),
            }
        },
    }
}

/// The step at position `i` of the document's `plan` array.
pub open spec fn step_at(d: Seq<u8>, i: int) -> Option<ResearchStepV> {
    match json_item_of(d, "plan"@, i as usize) {
        Some(b) => step_of_item(b),
        None => None,
    }
}

/// Whether every step from `i` to `n` parses.
pub open spec fn steps_ok_from(d: Seq<u8>, i: nat, n: nat) -> bool
    decreases n - i,
{
    i >= n || (step_at(d, i as int) is Some && steps_ok_from(d, i + 1, n))
}

/// The parsed plan of a document, where it has a non-empty `plan` array
/// whose steps all parse.
pub open spec fn parsed_plan(d: Seq<u8>) -> Option<ResearchPlanMetaV> {
    match json_arr_len_of(d, "plan"@) {
        Some(n) => if n > 0 && steps_ok_from(d, 0, n as nat) {
            Some(
                ResearchPlanMetaV {
                    research_type: str_or_empty(d, "research_type"@),
                    goal: str_or_empty(d, "goal"@),
                    complexity: str_or_empty(d, "complexity"@),
                    question_type: str_or_empty(d, "question_type"@),
                    assumptions: str_list_of(d, "assumptions"@),
                    plan: Seq::new(
                        n as nat,
                        |i: int|
                            match step_at(d, i) {
                                Some(s) => s,
                                None => ResearchStepV {
                                    step: 0,
                                    action: Seq::empty(),
                                    thought: Seq::empty(),
                                    expected_output: Seq::empty(),
                                    deliverable_format: Seq::empty(),
                                    depth: Seq::empty(),
                                    requires_search: false,
                                    acceptance_criteria: Seq::empty(),
                                },
                            },
                    ),
                    risks: str_list_of(d, "risks"@),
                    success_criteria: str_list_of(d, "success_criteria"@),
                },
            )
        } else {
            None
        },
        None => None,
    }
}

/// The fallback plan used when parsing fails: one generic search step.
pub open spec fn default_plan_spec() -> ResearchPlanMetaV {
    ResearchPlanMetaV {
        research_type: "general"@,
        goal: Seq::empty(),
        complexity: "medium"@,
        question_type: "analysis"@,
        assumptions: Seq::empty(),
        plan: seq![
            ResearchStepV {
                step: 1,
                action: "Summarize the topic and gather key evidence."@,
                thought: "Gather initial information"@,
                expected_output: "A concise summary with evidence."@,
                deliverable_format: "paragraph"@,
                depth: "medium"@,
                requires_search: true,
                acceptance_criteria: Seq::empty(),
            },
        ],
        risks: Seq::empty(),
        success_criteria: Seq::empty(),
    }
}

/// The hard-coded single-step fallback plan.
pub fn default_plan() -> (r: ResearchPlanMeta)
    ensures
        r@ == default_plan_spec(),
{
    let mut steps: Vec<ResearchStep> = Vec::new();
    steps.push(
        ResearchStep {
            step: 1,
            action: String::from_str("Summarize the topic and gather key evidence."),
            thought: String::from_str("Gather initial information"),
            expected_output: String::from_str("A concise summary with evidence."),
            deliverable_format: String::from_str("paragraph"),
            depth: String::from_str("medium"),
            requires_search: true,
            acceptance_criteria: Vec::new(),
        },
    );
    let r = ResearchPlanMeta {
        research_type: String::from_str("general"),
        goal: String::new(),
        complexity: String::from_str("medium"),
        question_type: String::from_str("analysis"),
        assumptions: Vec::new(),
        plan: steps,
        risks: Vec::new(),
        success_criteria: Vec::new(),
    };
    proof {
        assert(r@.assumptions =~= Seq::<Seq<char>>::empty());
        assert(r@.risks =~= Seq::<Seq<char>>::empty());
        assert(r@.success_criteria =~= Seq::<Seq<char>>::empty());
        assert(r@.plan[0].acceptance_criteria =~= Seq::<Seq<char>>::empty());
        assert(r@.plan =~~= default_plan_spec().plan);
        assert(r@ =~~= default_plan_spec());
    }
    r
}

/// Read one `plan` array element as a step.
fn read_step(b: &Vec<u8>) -> (r: Option<ResearchStep>)
    ensures
        match r {
            Some(s) => step_of_item(b@) == Some(s@),
            None => step_of_item(b@) is None,
        },
{
    let num = match json_u64_field(b.as_slice(), "step") {
        Some(n) => n,
        None => {
            return None;
        },
    };
    if num > 0xffff_ffff {
        return None;
    }
    let action = match json_str_field(b.as_slice(), "action") {
        Some(a) => a,
        None => {
            return None;
        },
    };
    let thought = match json_str_field(b.as_slice(), "thought") {
        Some(s) => s,
        None => String::new(),
    };
    let expected_output = match json_str_field(b.as_slice(), "expected_output") {
        Some(s) => s,
        None => String::new(),
    };
    let deliverable_format = match json_str_field(b.as_slice(), "deliverable_format") {
        Some(s) => s,
        None => String::new(),
    };
    let depth = match json_str_field(b.as_slice(), "depth") {
        Some(s) => s,
        None => String::new(),
    };
    let requires_search = match json_bool_field(b.as_slice(), "requires_search") {
        Some(v) => v,
        None => false,
    };
    let acceptance_criteria = read_str_list(b.as_slice(), "acceptance_criteria");
    let s = ResearchStep {
        step: num as u32,
        action,
        thought,
        expected_output,
        deliverable_format,
        depth,
        requires_search,
        acceptance_criteria,
    };
    proof {
        assert(s@.thought =~= str_or_empty(b@, "thought"@));
        assert(s@.expected_output =~= str_or_empty(b@, "expected_output"@));
        assert(s@.deliverable_format =~= str_or_empty(b@, "deliverable_format"@));
        assert(s@.depth =~= str_or_empty(b@, "depth"@));
        assert(step_of_item(b@) matches Some(sv) && sv =~~= s@);
    }
    Some(s)
}

/// Parse a research plan from JSON text: a document with a non-empty
/// `plan` array whose steps all parse yields that plan; anything else
/// yields the hard-coded single-step fallback.
pub fn parse_plan(plan_text: &str) -> (r: ResearchPlanMeta)
    ensures
        match parsed_plan(plan_text.spec_bytes()) {
            Some(m) => r@ == m,
            None => r@ == default_plan_spec(),
        },
{
    let d = plan_text.as_bytes();
    let n = match json_arr_len(d, "plan") {
        Some(n) => n,
        None => {
            return default_plan();
        },
    };
    if n == 0 {
        return default_plan();
    }
    let mut steps: Vec<ResearchStep> = Vec::new();
    let mut i: usize = 0;
    while i < n
        invariant
            i <= n,
            d@ == plan_text.spec_bytes(),
            json_arr_len_of(d@, "plan"@) == Some(n),
            steps_ok_from(d@, 0, i as nat),
            steps@.len() == i,
            forall|j: int|
                0 <= j < i ==> Some((#[trigger] steps@[j])@) == step_at(d@, j),
        decreases n - i,
    {
        let item = match json_arr_item(d, "plan", i) {
            Some(b) => b,
            None => {
                proof {
                    assert(false);
                }
                unreached()
            },
        };
        match read_step(&item) {
            Some(s) => {
                proof {
                    assert(step_at(d@, i as int) == Some(s@));
                    lemma_steps_ok_extend(d@, i as nat);
                }
                steps.push(s);
            },
            None => {
                proof {
                    assert(step_at(d@, i as int) is None);
                    lemma_steps_ok_requires(d@, 0, i as nat, n as nat);
                }
                return default_plan();
            },
        }
        i += 1;
    }
    let research_type = match json_str_field(d, "research_type") {
        Some(s) => s,
        None => String::new(),
    };
    let goal = match json_str_field(d, "goal") {
        Some(s) => s,
        None => String::new(),
    };
    let complexity = match json_str_field(d, "complexity") {
        Some(s) => s,
        None => String::new(),
    };
    let question_type = match json_str_field(d, "question_type") {
        Some(s) => s,
        None => String::new(),
    };
    let assumptions = read_str_list(d, "assumptions");
    let risks = read_str_list(d, "risks");
    let success_criteria = read_str_list(d, "success_criteria");
    let r = ResearchPlanMeta {
        research_type,
        goal,
        complexity,
        question_type,
        assumptions,
        plan: steps,
        risks,
        success_criteria,
    };
    proof {
        let m = parsed_plan(plan_text.spec_bytes());
        assert(m is Some);
        assert(r@.research_type =~= m->Some_0.research_type);
        assert(r@.goal =~= m->Some_0.goal);
        assert(r@.complexity =~= m->Some_0.complexity);
        assert(r@.question_type =~= m->Some_0.question_type);
        assert(r@.plan =~= m->Some_0.plan);
        assert(r@ =~~= m->Some_0);
    }
    r
}

/// A prefix of parsing steps extends by one parsed step.
proof fn lemma_steps_ok_extend(d: Seq<u8>, i: nat)
    requires
        steps_ok_from(d, 0, i),
        step_at(d, i as int) is Some,
    ensures
        steps_ok_from(d, 0, i + 1),
    decreases i,
{
    lemma_steps_ok_shift(d, 0, i);
}

/// Where every step below `i` parses and step `i` parses, every step below
/// `i + 1` parses; stated over arbitrary walk starts.
proof fn lemma_steps_ok_shift(d: Seq<u8>, j: nat, i: nat)
    requires
        j <= i,
        steps_ok_from(d, j, i),
        step_at(d, i as int) is Some,
    ensures
        steps_ok_from(d, j, i + 1),
    decreases i - j,
{
    if j < i {
        lemma_steps_ok_shift(d, j + 1, i);
    } else {
        assert(steps_ok_from(d, i + 1, i + 1));
    }
}

/// A failed step refutes the whole-range parse.
proof fn lemma_steps_ok_requires(d: Seq<u8>, j: nat, i: nat, n: nat)
    requires
        j <= i < n,
        step_at(d, i as int) is None,
    ensures
        !steps_ok_from(d, j, n),
    decreases i - j,
{
    if j < i {
        lemma_steps_ok_requires(d, j + 1, i, n);
    }
}

// ---------------------------------------------------------------------------
// Source list
// ---------------------------------------------------------------------------
/// One numbered source line: `[index] Title URL`, falling back to the URL
/// or a generic label where a field is empty.
pub open spec fn source_line_spec(idx: nat, s: ResearchSourceV) -> Seq<char> {
    let title = if s.title.len() > 0 {
        s.title
    } else if s.url.len() > 0 {
        s.url
    } else if s.uri.len() > 0 {
        s.uri
    } else {
        "Source "@ + dec_of(idx + 1)
    };
    let url = if s.url.len() > 0 {
        s.url
    } else if s.uri.len() > 0 {
        s.uri
    } else {
        Seq::<char>::empty()
    };
    let url_part = if url.len() == 0 {
        Seq::<char>::empty()
    } else {
        " "@ + url
    };
    "["@ + dec_of(idx + 1) + "] "@ + title + url_part
}

/// Build the numbered source list, one line per stored source.
pub fn build_sources_list(sources: &SourceMap) -> (r: Vec<String>)
    ensures
        r@.map_values(|s: String| s@) == Seq::new(
            sources@.len(),
            |i: int| source_line_spec(i as nat, sources@[i]),
        ),
{
    let ghost expected = Seq::new(sources@.len(), |i: int| source_line_spec(i as nat, sources@[i]));
    let mut out: Vec<String> = Vec::new();
    let n = sources.len();
    let mut i: usize = 0;
    proof {
        assert(out@.map_values(|s: String| s@) =~= expected.take(0));
    }
    while i < n
        invariant
            i <= n,
            n == sources@.len(),
            expected == Seq::new(
                sources@.len(),
                |j: int| source_line_spec(j as nat, sources@[j]),
            ),
            out@.map_values(|s: String| s@) == expected.take(i as int),
        decreases n - i,
    {
        let src = sources.get(i);
        let idx_dec = u64_to_dec((i as u64) + 1);
        let mut line = String::new();
        line.append("[");
        line.append(idx_dec.as_str());
        line.append("] ");
        let title_nonempty = !src.title.as_str().is_empty();
        let url_nonempty = !src.url.as_str().is_empty();
        let uri_nonempty = !src.uri.as_str().is_empty();
        if title_nonempty {
            line.append(src.title.as_str());
        } else if url_nonempty {
            line.append(src.url.as_str());
        } else if uri_nonempty {
            line.append(src.uri.as_str());
        } else {
            line.append("Source ");
            line.append(idx_dec.as_str());
        }
        if url_nonempty {
            line.append(" ");
            line.append(src.url.as_str());
        } else if uri_nonempty {
            line.append(" ");
            line.append(src.uri.as_str());
        }
        proof {
            assert(line@ =~= source_line_spec(i as nat, sources@[i as int]));
        }
        let ghost prev = out@;
        out.push(line);
        proof {
            assert(out@.map_values(|s: String| s@) =~= prev.map_values(|s: String| s@).push(
                source_line_spec(i as nat, sources@[i as int]),
            ));
            assert(out@.map_values(|s: String| s@) =~= expected.take(i as int + 1));
        }
        i += 1;
    }
    proof {
        assert(expected.take(n as int) =~= expected);
    }
    out
}

// ---------------------------------------------------------------------------
// Prompt building
// ---------------------------------------------------------------------------
/// Bulleted lines for a non-empty item list.
pub open spec fn bullet_join(items: Seq<Seq<char>>) -> Seq<char>
    decreases items.len(),
{
    if items.len() <= 1 {
        "- "@ + (if items.len() == 1 {
            items[0]
        } else {
            Seq::<char>::empty()
        })
    } else {
        bullet_join(items.drop_last()) + "\n- "@ + items.last()
    }
}

/// Bulleted lines for an item list, or a `- None` placeholder.
pub open spec fn bullets_or_none(items: Seq<Seq<char>>) -> Seq<char> {
    if items.len() == 0 {
        "- None"@
    } else {
        bullet_join(items)
    }
}

/// Lines joined by newlines (empty for an empty list).
pub open spec fn join_nl(items: Seq<Seq<char>>) -> Seq<char>
    decreases items.len(),
{
    if items.len() == 0 {
        Seq::empty()
    } else if items.len() == 1 {
        items[0]
    } else {
        join_nl(items.drop_last()) + "\n"@ + items.last()
    }
}

/// Build bulleted lines, or the `- None` placeholder.
pub fn bullets_exec(items: &Vec<String>) -> (r: String)
    ensures
        r@ == bullets_or_none(items@.map_values(|s: String| s@)),
{
    let ghost views = items@.map_values(|s: String| s@);
    let n = items.len();
    if n == 0 {
        return String::from_str("- None");
    }
    let mut out = String::new();
    let mut i: usize = 0;
    while i < n
        invariant
            i <= n,
            n == items@.len(),
            n > 0,
            views == items@.map_values(|s: String| s@),
            i > 0 ==> out@ == bullet_join(views.take(i as int)),
            i == 0 ==> out@ == Seq::<char>::empty(),
        decreases n - i,
    {
        proof {
            assert(views.take(i as int + 1).drop_last() =~= views.take(i as int));
            assert(views.take(i as int + 1).last() == views[i as int]);
        }
        if i == 0 {
            out.append("- ");
        } else {
            out.append("\n- ");
        }
        out.append(items[i].as_str());
        proof {
            if i == 0 {
                assert(out@ =~= bullet_join(views.take(1)));
            } else {
                assert(out@ =~= bullet_join(views.take(i as int + 1)));
            }
        }
        i += 1;
    }
    proof {
        assert(views.take(n as int) =~= views);
    }
    out
}

/// Join lines with newlines.
pub fn join_lines(items: &Vec<String>) -> (r: String)
    ensures
        r@ == join_nl(items@.map_values(|s: String| s@)),
{
    let ghost views = items@.map_values(|s: String| s@);
    let mut out = String::new();
    let n = items.len();
    let mut i: usize = 0;
    proof {
        assert(join_nl(views.take(0)) =~= Seq::<char>::empty());
    }
    while i < n
        invariant
            i <= n,
            n == items@.len(),
            views == items@.map_values(|s: String| s@),
            out@ == join_nl(views.take(i as int)),
        decreases n - i,
    {
        proof {
            assert(views.take(i as int + 1).drop_last() =~= views.take(i as int));
            assert(views.take(i as int + 1).last() == views[i as int]);
        }
        if i > 0 {
            out.append("\n");
        }
        out.append(items[i].as_str());
        proof {
            if i == 0 {
                assert(out@ =~= join_nl(views.take(1)));
            } else {
                assert(out@ =~= join_nl(views.take(i as int + 1)));
            }
        }
        i += 1;
    }
    proof {
        assert(views.take(n as int) =~= views);
    }
    out
}

/// The shared header of a step prompt: plan goal, step description, the
/// assumptions and acceptance criteria, all prior findings and the current
/// numbered source list.
pub open spec fn step_base_info(
    meta: ResearchPlanMetaV,
    step: ResearchStepV,
    idx: nat,
    findings: Seq<Seq<char>>,
    sources_list: Seq<Seq<char>>,
) -> Seq<char> {
    "Goal: "@ + meta.goal + "\nQuestion type: "@ + meta.question_type + "\nStep "@ + dec_of(
        idx + 1,
    ) + ": "@ + step.action + "\nExpected output: "@ + step.expected_output
        + "\nDeliverable format: "@ + step.deliverable_format + "\nDepth: "@ + step.depth
        + "\nRequires search: "@ + (if step.requires_search {
        "true"@
    } else {
        "false"@
    }) + "\n\nAssumptions:\n"@ + bullets_or_none(meta.assumptions) + "\n\nAcceptance criteria:\n"@
        + bullets_or_none(step.acceptance_criteria) + "\n\nPrior findings:\n"@ + bullets_or_none(
        findings,
    ) + "\n\nKnown sources (cite as [index]):\n"@ + (if sources_list.len() == 0 {
        "- None"@
    } else {
        join_nl(sources_list)
    })
}

/// The fixed tail of an academic step prompt.
pub open spec fn academic_step_tail() -> Seq<char> {
    "\n\nCRITICAL ACADEMIC REQUIREMENTS:\n\n1. SOURCE QUALITY\n   - Prioritize peer-reviewed journal articles and conference proceedings\n   - For each source, note: publication venue, year, and whether it's peer-reviewed\n   - Distinguish between primary research, reviews, and meta-analyses\n   - Flag preprints or non-peer-reviewed sources explicitly\n\n2. EVIDENCE AND CITATION\n   - Cite ALL factual claims using [index] format\n   - Never make unsourced claims about research findings or statistics\n   - When multiple sources agree/disagree, cite all relevant ones\n   - Note the strength of evidence (e.g., \"based on large-scale RCT\" vs \"preliminary findings\")\n\n3. CRITICAL EVALUATION\n   - Assess methodological rigor of cited studies\n   - Note sample sizes, study designs, and potential limitations\n   - Identify potential biases or confounding factors\n   - Highlight any conflicting findings across studies\n\n4. SCHOLARLY LANGUAGE\n   - Use formal academic tone (third person, precise terminology)\n   - Employ appropriate hedging language (\"suggests\", \"indicates\", \"implies\")\n   - Avoid overgeneralizations or absolute claims\n   - Define technical terms when first introduced\n\n5. SYSTEMATIC APPROACH\n   - Follow the step's acceptance criteria rigorously\n   - If this is a search step, use broad, well-defined search terms\n   - If this is an analysis step, organize findings thematically\n   - Build logically on prior findings\n\nInstructions:\n- Use Tavily_academic_search or Tavily_web_search tools as needed to gather peer-reviewed evidence\n- When citing sources, use [1], [2], etc. based on the known sources list\n- Return a scholarly, well-structured output suitable for inclusion in an academic report\n- Maintain objectivity and acknowledge uncertainty where appropriate\n\nNEGATIVE CONSTRAINTS (CRITICAL):\n- **NO OUTSIDE KNOWLEDGE**: You must ONLY use the information provided in \"Prior findings\" and \"Known sources\".\n- **NO HALLUCINATION**: If the provided sources do not contain the answer, explicitly state it. DO NOT make up facts.\n- **STRICT CITATION**: Every single factual claim must have a citation [x].\n- **NO SYNTHETIC SOURCES**: Do not invent source titles or links. Use the [index] exactly as listed."@
}

/// The fixed tail of a general step prompt.
pub open spec fn general_step_tail() -> Seq<char> {
    "\n\nInstructions:\n- Use the available tools when needed to gather evidence.\n- When citing sources, use [1], [2], etc. based on the known sources list.\n- Return a concise step output that can be used by subsequent steps."@
}

/// One step-execution prompt: the trimmed header between the mode's fixed
/// opening line and fixed tail. Academic mode differs only in content
/// severity, never in control flow.
pub open spec fn step_prompt_spec(
    meta: ResearchPlanMetaV,
    step: ResearchStepV,
    idx: nat,
    findings: Seq<Seq<char>>,
    sources_list: Seq<Seq<char>>,
    academic: bool,
) -> Seq<char> {
    let t = trim_chars(step_base_info(meta, step, idx, findings, sources_list));
    if academic {
        "You are executing an academic research plan step.\n\n"@ + t + academic_step_tail()
    } else {
        "You are executing a structured research plan step.\n\n"@ + t + general_step_tail()
    }
}

/// Build one step-execution prompt.
pub fn build_step_prompt(
    plan_meta: &ResearchPlanMeta,
    step: &ResearchStep,
    step_index: usize,
    prior_findings: &Vec<String>,
    sources_list: &Vec<String>,
    research_type: &str,
) -> (r: String)
    requires
        step_index < 0xffff_ffff,
    ensures
        r@ == step_prompt_spec(
            plan_meta@,
            step@,
            step_index as nat,
            prior_findings@.map_values(|s: String| s@),
            sources_list@.map_values(|s: String| s@),
            research_type@ == "academic"@,
        ),
{
    let is_academic = crate::text::str_eq(research_type, "academic");
    let mut base = String::new();
    base.append("Goal: ");
    base.append(plan_meta.goal.as_str());
    base.append("\nQuestion type: ");
    base.append(plan_meta.question_type.as_str());
    base.append("\nStep ");
    let idx_dec = u64_to_dec(step_index as u64 + 1);
    base.append(idx_dec.as_str());
    base.append(": ");
    base.append(step.action.as_str());
    base.append("\nExpected output: ");
    base.append(step.expected_output.as_str());
    base.append("\nDeliverable format: ");
    base.append(step.deliverable_format.as_str());
    base.append("\nDepth: ");
    base.append(step.depth.as_str());
    base.append("\nRequires search: ");
    if step.requires_search {
        base.append("true");
    } else {
        base.append("false");
    }
    base.append("\n\nAssumptions:\n");
    let assumptions = bullets_exec(&plan_meta.assumptions);
    base.append(assumptions.as_str());
    base.append("\n\nAcceptance criteria:\n");
    let criteria = bullets_exec(&step.acceptance_criteria);
    base.append(criteria.as_str());
    base.append("\n\nPrior findings:\n");
    let findings = bullets_exec(prior_findings);
    base.append(findings.as_str());
    base.append("\n\nKnown sources (cite as [index]):\n");
    if sources_list.len() == 0 {
        base.append("- None");
    } else {
        let joined = join_lines(sources_list);
        base.append(joined.as_str());
    }
    proof {
        assert(base@ =~= step_base_info(
            plan_meta@,
            step@,
            step_index as nat,
            prior_findings@.map_values(|s: String| s@),
            sources_list@.map_values(|s: String| s@),
        ));
    }
    let trimmed = trim_str(base.as_str());
    let mut out = String::new();
    if is_academic {
        out.append("You are executing an academic research plan step.\n\n");
        out.append(trimmed.as_str());
        out.append(
            "\n\nCRITICAL ACADEMIC REQUIREMENTS:\n\n1. SOURCE QUALITY\n   - Prioritize peer-reviewed journal articles and conference proceedings\n   - For each source, note: publication venue, year, and whether it's peer-reviewed\n   - Distinguish between primary research, reviews, and meta-analyses\n   - Flag preprints or non-peer-reviewed sources explicitly\n\n2. EVIDENCE AND CITATION\n   - Cite ALL factual claims using [index] format\n   - Never make unsourced claims about research findings or statistics\n   - When multiple sources agree/disagree, cite all relevant ones\n   - Note the strength of evidence (e.g., \"based on large-scale RCT\" vs \"preliminary findings\")\n\n3. CRITICAL EVALUATION\n   - Assess methodological rigor of cited studies\n   - Note sample sizes, study designs, and potential limitations\n   - Identify potential biases or confounding factors\n   - Highlight any conflicting findings across studies\n\n4. SCHOLARLY LANGUAGE\n   - Use formal academic tone (third person, precise terminology)\n   - Employ appropriate hedging language (\"suggests\", \"indicates\", \"implies\")\n   - Avoid overgeneralizations or absolute claims\n   - Define technical terms when first introduced\n\n5. SYSTEMATIC APPROACH\n   - Follow the step's acceptance criteria rigorously\n   - If this is a search step, use broad, well-defined search terms\n   - If this is an analysis step, organize findings thematically\n   - Build logically on prior findings\n\nInstructions:\n- Use Tavily_academic_search or Tavily_web_search tools as needed to gather peer-reviewed evidence\n- When citing sources, use [1], [2], etc. based on the known sources list\n- Return a scholarly, well-structured output suitable for inclusion in an academic report\n- Maintain objectivity and acknowledge uncertainty where appropriate\n\nNEGATIVE CONSTRAINTS (CRITICAL):\n- **NO OUTSIDE KNOWLEDGE**: You must ONLY use the information provided in \"Prior findings\" and \"Known sources\".\n- **NO HALLUCINATION**: If the provided sources do not contain the answer, explicitly state it. DO NOT make up facts.\n- **STRICT CITATION**: Every single factual claim must have a citation [x].\n- **NO SYNTHETIC SOURCES**: Do not invent source titles or links. Use the [index] exactly as listed.",
        );
    } else {
        out.append("You are executing a structured research plan step.\n\n");
        out.append(trimmed.as_str());
        out.append(
            "\n\nInstructions:\n- Use the available tools when needed to gather evidence.\n- When citing sources, use [1], [2], etc. based on the known sources list.\n- Return a concise step output that can be used by subsequent steps.",
        );
    }
    proof {
        assert(out@ =~= step_prompt_spec(
            plan_meta@,
            step@,
            step_index as nat,
            prior_findings@.map_values(|s: String| s@),
            sources_list@.map_values(|s: String| s@),
            research_type@ == "academic"@,
        ));
    }
    out
}

/// The shared header of the final report prompt.
pub open spec fn report_base_info(
    meta: ResearchPlanMetaV,
    question: Seq<char>,
    findings: Seq<Seq<char>>,
    sources_list: Seq<Seq<char>>,
) -> Seq<char> {
    "Question: "@ + question + "\nPlan goal: "@ + meta.goal + "\nQuestion type: "@
        + meta.question_type + "\n\nFindings to synthesize:\n"@ + bullets_or_none(findings)
        + "\n\nSources (cite as [index]):\n"@ + (if sources_list.len() == 0 {
        "- None"@
    } else {
        join_nl(sources_list)
    })
}

/// The fixed middle of the academic report prompt, between the trimmed
/// header and the official source list.
pub open spec fn academic_report_tail() -> Seq<char> {
    "\n\nREPORT STRUCTURE:\n\nYour report MUST follow this academic structure:\n\n## 1. ABSTRACT (150-250 words)\n   - Brief summary of research question, methods, key findings, and implications\n   - Written last, but appears first\n\n## 2. INTRODUCTION\n   - Background and context for the research question\n   - Significance and relevance of the topic\n   - Clear statement of research objectives/questions\n   - Scope and limitations of the review\n\n## 3. METHODOLOGY (if applicable)\n   - Search strategy (databases, keywords, timeframe)\n   - Inclusion/exclusion criteria\n   - Quality assessment approach\n   - Data extraction and synthesis methods\n\n## 4. LITERATURE REVIEW / FINDINGS\n   Organize thematically (NOT source-by-source):\n   - Group findings by major themes or subtopics\n   - For each theme:\n     * Synthesize what multiple sources say\n     * Cite all relevant sources [1][2][3]\n     * Note consensus and disagreements\n     * Assess quality of evidence\n   - Present conflicting findings objectively\n   - Distinguish between well-established and preliminary findings\n\n## 5. DISCUSSION\n   - Interpret the synthesized findings\n   - Compare with broader theoretical frameworks\n   - Address research questions posed in introduction\n   - Note implications for theory and practice\n   - Acknowledge limitations of the evidence base:\n     * Methodological limitations of cited studies\n     * Gaps in coverage (populations, contexts, outcomes)\n     * Potential publication bias\n   - Discuss areas of uncertainty or ongoing debate\n\n## 6. CONCLUSION\n   - Summarize key findings and their significance\n   - Highlight main contributions of this review\n   - Suggest directions for future research\n   - Provide actionable recommendations (if appropriate)\n\n## 7. REFERENCES\n   - **MANDATORY**: This section must ONLY contain sources listed in the \"Sources\" block provided above.\n   - **NO OMISSIONS**: Include every source you cited in the text.\n   - **NO ADDITIONS**: Do NOT add any external books, papers, or links that are not in the provided Source list.\n   - Format: \"[index] Title. URL\" (Copy exactly from the Source list).\n\nACADEMIC WRITING STANDARDS:\n\n- **Tone**: Formal, objective, third-person\n- **Language**: Precise terminology, appropriate hedging\n- **Citations**: Every factual claim must have a citation\n- **Evidence hierarchy**: Note study designs and sample sizes\n- **Critical thinking**: Evaluate rather than just summarize\n- **Synthesis**: Integrate across sources, don't just list findings\n- **Limitations**: Always acknowledge what is NOT known\n\nQUALITY CHECKLIST:\n- [ ] Every factual claim is cited\n- [ ] Sources are critically evaluated, not just reported\n- [ ] Conflicting evidence is presented fairly\n- [ ] Limitations are explicitly discussed\n- [ ] Implications for future research are clear\n- [ ] Academic tone is maintained throughout\n\nNEGATIVE CONSTRAINTS (CRITICAL):\n- **NO EXTERNAL KNOWLEDGE**: You must ONLY use the information provided in the \"Sources\" section. Do not use outside knowledge to fill gaps.\n- **NO HALLUCINATION**: If the provided sources do not contain the answer, explicitly state \"The provided sources do not contain information about X\". DO NOT make up facts, authors, or years.\n- **STRICT CITATION**: Every single paragraph must contain at least one citation [x].\n- **NO SYNTHETIC SOURCES**: Do not invent source titles or links. Use the [index] exactly as listed in the \"Sources\" section.\n\nHALLUCINATION CHECK:\nBefore writing each sentence, ask: \"Is this fact present in source [x]?\" If no, delete it.\nIf you violate these constraints, the task is considered failed.\n\nProduce a comprehensive, publication-quality academic report.\n\nCRITICAL FINAL INSTRUCTION:\nWhen writing the \"7. REFERENCES\" section, you MUST strictly copy the list below. Do NOT add anything else.\n\nOFFICIAL SOURCE LIST (USE THESE AND ONLY THESE):\n"@
}

/// The fixed tail of the general report prompt.
pub open spec fn general_report_tail() -> Seq<char> {
    "\n\nRequirements:\n- Evidence-driven and traceable: every factual claim must be backed by a citation.\n- Include a short \"Self-check\" section at the end with 3-5 bullets.\n- Use clear headings and complete the full report in one response."@
}

/// The final report prompt: in academic mode the reference list is fixed
/// to exactly the provided source list, with strict no-outside-knowledge
/// constraints; general mode asks for a cited, self-checked report.
pub open spec fn report_prompt_spec(
    meta: ResearchPlanMetaV,
    question: Seq<char>,
    findings: Seq<Seq<char>>,
    sources_list: Seq<Seq<char>>,
    academic: bool,
) -> Seq<char> {
    let t = trim_chars(report_base_info(meta, question, findings, sources_list));
    if academic {
        "You are writing an academic research report based on a systematic literature review.\n\n"@
            + t + academic_report_tail() + (if sources_list.len() == 0 {
            "No sources available."@
        } else {
            join_nl(sources_list)
        })
    } else {
        "You are a deep research writer producing a final report.\n\n"@ + t
            + general_report_tail()
    }
}

/// Build the final report prompt.
pub fn build_final_report_prompt(
    plan_meta: &ResearchPlanMeta,
    question: &str,
    findings: &Vec<String>,
    sources_list: &Vec<String>,
    research_type: &str,
) -> (r: String)
    ensures
        r@ == report_prompt_spec(
            plan_meta@,
            question@,
            findings@.map_values(|s: String| s@),
            sources_list@.map_values(|s: String| s@),
            research_type@ == "academic"@,
        ),
{
    let is_academic = crate::text::str_eq(research_type, "academic");
    let mut base = String::new();
    base.append("Question: ");
    base.append(question);
    base.append("\nPlan goal: ");
    base.append(plan_meta.goal.as_str());
    base.append("\nQuestion type: ");
    base.append(plan_meta.question_type.as_str());
    base.append("\n\nFindings to synthesize:\n");
    let fb = bullets_exec(findings);
    base.append(fb.as_str());
    base.append("\n\nSources (cite as [index]):\n");
    if sources_list.len() == 0 {
        base.append("- None");
    } else {
        let joined = join_lines(sources_list);
        base.append(joined.as_str());
    }
    proof {
        assert(base@ =~= report_base_info(
            plan_meta@,
            question@,
            findings@.map_values(|s: String| s@),
            sources_list@.map_values(|s: String| s@),
        ));
    }
    let trimmed = trim_str(base.as_str());
    let mut out = String::new();
    if is_academic {
        out.append(
            "You are writing an academic research report based on a systematic literature review.\n\n",
        );
        out.append(trimmed.as_str());
        out.append(
            "\n\nREPORT STRUCTURE:\n\nYour report MUST follow this academic structure:\n\n## 1. ABSTRACT (150-250 words)\n   - Brief summary of research question, methods, key findings, and implications\n   - Written last, but appears first\n\n## 2. INTRODUCTION\n   - Background and context for the research question\n   - Significance and relevance of the topic\n   - Clear statement of research objectives/questions\n   - Scope and limitations of the review\n\n## 3. METHODOLOGY (if applicable)\n   - Search strategy (databases, keywords, timeframe)\n   - Inclusion/exclusion criteria\n   - Quality assessment approach\n   - Data extraction and synthesis methods\n\n## 4. LITERATURE REVIEW / FINDINGS\n   Organize thematically (NOT source-by-source):\n   - Group findings by major themes or subtopics\n   - For each theme:\n     * Synthesize what multiple sources say\n     * Cite all relevant sources [1][2][3]\n     * Note consensus and disagreements\n     * Assess quality of evidence\n   - Present conflicting findings objectively\n   - Distinguish between well-established and preliminary findings\n\n## 5. DISCUSSION\n   - Interpret the synthesized findings\n   - Compare with broader theoretical frameworks\n   - Address research questions posed in introduction\n   - Note implications for theory and practice\n   - Acknowledge limitations of the evidence base:\n     * Methodological limitations of cited studies\n     * Gaps in coverage (populations, contexts, outcomes)\n     * Potential publication bias\n   - Discuss areas of uncertainty or ongoing debate\n\n## 6. CONCLUSION\n   - Summarize key findings and their significance\n   - Highlight main contributions of this review\n   - Suggest directions for future research\n   - Provide actionable recommendations (if appropriate)\n\n## 7. REFERENCES\n   - **MANDATORY**: This section must ONLY contain sources listed in the \"Sources\" block provided above.\n   - **NO OMISSIONS**: Include every source you cited in the text.\n   - **NO ADDITIONS**: Do NOT add any external books, papers, or links that are not in the provided Source list.\n   - Format: \"[index] Title. URL\" (Copy exactly from the Source list).\n\nACADEMIC WRITING STANDARDS:\n\n- **Tone**: Formal, objective, third-person\n- **Language**: Precise terminology, appropriate hedging\n- **Citations**: Every factual claim must have a citation\n- **Evidence hierarchy**: Note study designs and sample sizes\n- **Critical thinking**: Evaluate rather than just summarize\n- **Synthesis**: Integrate across sources, don't just list findings\n- **Limitations**: Always acknowledge what is NOT known\n\nQUALITY CHECKLIST:\n- [ ] Every factual claim is cited\n- [ ] Sources are critically evaluated, not just reported\n- [ ] Conflicting evidence is presented fairly\n- [ ] Limitations are explicitly discussed\n- [ ] Implications for future research are clear\n- [ ] Academic tone is maintained throughout\n\nNEGATIVE CONSTRAINTS (CRITICAL):\n- **NO EXTERNAL KNOWLEDGE**: You must ONLY use the information provided in the \"Sources\" section. Do not use outside knowledge to fill gaps.\n- **NO HALLUCINATION**: If the provided sources do not contain the answer, explicitly state \"The provided sources do not contain information about X\". DO NOT make up facts, authors, or years.\n- **STRICT CITATION**: Every single paragraph must contain at least one citation [x].\n- **NO SYNTHETIC SOURCES**: Do not invent source titles or links. Use the [index] exactly as listed in the \"Sources\" section.\n\nHALLUCINATION CHECK:\nBefore writing each sentence, ask: \"Is this fact present in source [x]?\" If no, delete it.\nIf you violate these constraints, the task is considered failed.\n\nProduce a comprehensive, publication-quality academic report.\n\nCRITICAL FINAL INSTRUCTION:\nWhen writing the \"7. REFERENCES\" section, you MUST strictly copy the list below. Do NOT add anything else.\n\nOFFICIAL SOURCE LIST (USE THESE AND ONLY THESE):\n",
        );
        if sources_list.len() == 0 {
            out.append("No sources available.");
        } else {
            let joined = join_lines(sources_list);
            out.append(joined.as_str());
        }
    } else {
        out.append("You are a deep research writer producing a final report.\n\n");
        out.append(trimmed.as_str());
        out.append(
            "\n\nRequirements:\n- Evidence-driven and traceable: every factual claim must be backed by a citation.\n- Include a short \"Self-check\" section at the end with 3-5 bullets.\n- Use clear headings and complete the full report in one response.",
        );
    }
    proof {
        assert(out@ =~= report_prompt_spec(
            plan_meta@,
            question@,
            findings@.map_values(|s: String| s@),
            sources_list@.map_values(|s: String| s@),
            research_type@ == "academic"@,
        ));
    }
    out
}

} // verus!
