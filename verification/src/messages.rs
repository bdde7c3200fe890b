//! Chat message handling: the request-side message model, context-limit
//! truncation, text extraction, prompt flattening, tool enablement and
//! tool-choice parsing.

use vstd::prelude::*;

use vstd::string::StringSliceAdditionalSpecFns;

use crate::json::{json_compact, json_compact_of, json_str_field, json_str_of, json_sub_field,
    json_sub_of, json_top_str, json_top_str_of};
use crate::text::str_eq;

verus! {

/// One function reference inside a request tool call.
pub struct ChatToolFunction {
    pub name: Option<String>,
    pub arguments: Option<String>,
}

/// One tool call carried by an assistant message.
pub struct ChatToolCall {
    pub id: Option<String>,
    pub tool_type: Option<String>,
    pub function: Option<ChatToolFunction>,
}

/// One part of a structured user message.
pub enum ContentPart {
    Text(String),
    ImageUrl(String),
}

/// The content of a chat message: plain text or structured parts.
pub enum MessageContent {
    Text(String),
    Parts(Vec<ContentPart>),
}

/// One request message.
pub struct ChatMessage {
    pub role: String,
    pub content: Option<MessageContent>,
    pub tool_calls: Option<Vec<ChatToolCall>>,
    pub tool_call_id: Option<String>,
    pub name: Option<String>,
    pub id: Option<String>,
}

/// Whether a message carries the system role.
pub open spec fn spec_is_system(m: ChatMessage) -> bool {
    m.role@ == "system"@
}

/// The system messages of a sequence, in order.
pub open spec fn keep_system(s: Seq<ChatMessage>) -> Seq<ChatMessage>
    decreases s.len(),
{
    if s.len() == 0 {
        Seq::empty()
    } else {
        keep_system(s.drop_last()) + (if spec_is_system(s.last()) {
            seq![s.last()]
        } else {
            Seq::empty()
        })
    }
}

/// The non-system messages of a sequence, in order.
pub open spec fn keep_non_system(s: Seq<ChatMessage>) -> Seq<ChatMessage>
    decreases s.len(),
{
    if s.len() == 0 {
        Seq::empty()
    } else {
        keep_non_system(s.drop_last()) + (if !spec_is_system(s.last()) {
            seq![s.last()]
        } else {
            Seq::empty()
        })
    }
}

/// The last `l` elements (all of them where fewer exist).
pub open spec fn tail_n(s: Seq<ChatMessage>, l: int) -> Seq<ChatMessage> {
    if s.len() <= l {
        s
    } else {
        s.skip(s.len() - l)
    }
}

/// Context-limit truncation: with no limit (or limit zero, or few enough
/// messages) everything is kept; otherwise every system message is kept and
/// only the most recent `l` non-system messages follow them, all in their
/// original relative order.
pub fn apply_context_limit(messages: Vec<ChatMessage>, limit: Option<usize>) -> (r: Vec<
    ChatMessage,
>)
    ensures
        match limit {
            None => r@ == messages@,
            Some(l) => if l == 0 || messages@.len() <= l {
                r@ == messages@
            } else {
                r@ == keep_system(messages@) + tail_n(keep_non_system(messages@), l as int)
            },
        },
{
    let l = match limit {
        Some(l) => l,
        None => {
            return messages;
        },
    };
    if l == 0 || messages.len() <= l {
        return messages;
    }
    let ghost orig = messages@;
    let mut rest = messages;
    let mut sys: Vec<ChatMessage> = Vec::new();
    let mut non: Vec<ChatMessage> = Vec::new();
    let ghost mut seen: int = 0;
    proof {
        assert(orig.take(0) =~= Seq::<ChatMessage>::empty());
        assert(keep_system(orig.take(0)) =~= Seq::<ChatMessage>::empty());
        assert(keep_non_system(orig.take(0)) =~= Seq::<ChatMessage>::empty());
    }
    while rest.len() > 0
        invariant
            0 <= seen <= orig.len(),
            rest@ == orig.skip(seen),
            sys@ == keep_system(orig.take(seen)),
            non@ == keep_non_system(orig.take(seen)),
        decreases rest@.len(),
    {
        let m = rest.remove(0);
        proof {
            assert(orig.skip(seen)[0] == m);
            assert(orig.skip(seen).drop_first() =~= orig.skip(seen + 1));
            assert(orig.take(seen + 1).drop_last() =~= orig.take(seen));
            assert(orig.take(seen + 1).last() == orig[seen]);
        }
        let is_sys = str_eq(m.role.as_str(), "system");
        if is_sys {
            sys.push(m);
            proof {
                assert(sys@ =~= keep_system(orig.take(seen + 1)));
                assert(non@ =~= keep_non_system(orig.take(seen + 1)));
            }
        } else {
            non.push(m);
            proof {
                assert(sys@ =~= keep_system(orig.take(seen + 1)));
                assert(non@ =~= keep_non_system(orig.take(seen + 1)));
            }
        }
        proof {
            seen = seen + 1;
        }
    }
    proof {
        assert(orig.take(seen) =~= orig);
    }
    let ghost full_non = keep_non_system(orig);
    let mut drop_count: usize = 0;
    if non.len() > l {
        drop_count = non.len() - l;
    }
    let mut dropped: usize = 0;
    while dropped < drop_count
        invariant
            dropped <= drop_count,
            drop_count <= full_non.len(),
            non@ == full_non.skip(dropped as int),
        decreases drop_count - dropped,
    {
        let _ = non.remove(0);
        proof {
            assert(full_non.skip(dropped as int).drop_first() =~= full_non.skip(
                dropped as int + 1,
            ));
        }
        dropped += 1;
    }
    proof {
        assert(non@ =~= tail_n(full_non, l as int));
    }
    let mut out = sys;
    out.append(&mut non);
    out
}

/// The text one content part contributes.
pub open spec fn part_text(p: ContentPart) -> Seq<char> {
    match p {
        ContentPart::Text(t) => t@,
        ContentPart::ImageUrl(_) => Seq::empty(),
    }
}

/// The concatenated text of a part list.
pub open spec fn parts_text(ps: Seq<ContentPart>) -> Seq<char>
    decreases ps.len(),
{
    if ps.len() == 0 {
        Seq::empty()
    } else {
        parts_text(ps.drop_last()) + part_text(ps.last())
    }
}

/// The text a part contributes, or nothing for an image part.
pub fn extract_text_from_part(part: &ContentPart) -> (r: Option<String>)
    ensures
        match part {
            ContentPart::Text(t) => r matches Some(s) && s@ == t@,
            ContentPart::ImageUrl(_) => r is None,
        },
{
    match part {
        ContentPart::Text(t) => Some(t.clone()),
        ContentPart::ImageUrl(_) => None,
    }
}

/// The text of a message content: plain text verbatim; for structured
/// parts, the concatenation of the text parts, or nothing where that is
/// empty.
pub fn extract_text_content(content: &Option<MessageContent>) -> (r: Option<String>)
    ensures
        match content {
            None => r is None,
            Some(MessageContent::Text(t)) => r matches Some(s) && s@ == t@,
            Some(MessageContent::Parts(ps)) => if parts_text(ps@).len() == 0 {
                r is None
            } else {
                r matches Some(s) && s@ == parts_text(ps@)
            },
        },
{
    match content {
        None => None,
        Some(MessageContent::Text(t)) => Some(t.clone()),
        Some(MessageContent::Parts(ps)) => {
            let mut combined = String::new();
            let n = ps.len();
            let mut i: usize = 0;
            proof {
                assert(parts_text(ps@.take(0)) =~= Seq::<char>::empty());
            }
            while i < n
                invariant
                    i <= n,
                    n == ps@.len(),
                    combined@ == parts_text(ps@.take(i as int)),
                decreases n - i,
            {
                proof {
                    assert(ps@.take(i as int + 1).drop_last() =~= ps@.take(i as int));
                    assert(ps@.take(i as int + 1).last() == ps@[i as int]);
                }
                match extract_text_from_part(&ps[i]) {
                    Some(t) => {
                        combined.append(t.as_str());
                    },
                    None => {
                        proof {
                            assert(combined@ + part_text(ps@[i as int]) =~= combined@);
                        }
                    },
                }
                i += 1;
            }
            proof {
                assert(ps@.take(n as int) =~= ps@);
            }
            if combined.as_str().is_empty() {
                None
            } else {
                Some(combined)
            }
        },
    }
}

/// Split the newest message off as the prompt, keeping the rest as
/// history. An empty message list is rejected.
pub fn split_prompt_history(messages: Vec<ChatMessage>) -> (r: Result<
    (ChatMessage, Vec<ChatMessage>),
    String,
>)
    ensures
        messages@.len() == 0 <==> r is Err,
        r matches Ok((prompt, history)) ==> {
            &&& prompt == messages@.last()
            &&& history@ == messages@.drop_last()
        },
{
    let mut messages = messages;
    if messages.len() == 0 {
        return Err(String::from_str("Missing required field: messages"));
    }
    let prompt = match messages.pop() {
        Some(p) => p,
        None => {
            proof {
                assert(false);
            }
            unreached()
        },
    };
    Ok((prompt, messages))
}

/// The string content of a message (empty where it has none or parts).
pub open spec fn plain_text_of(m: ChatMessage) -> Seq<char> {
    match m.content {
        Some(MessageContent::Text(t)) => t@,
        _ => Seq::empty(),
    }
}

/// One `role: content` line.
pub open spec fn msg_line(m: ChatMessage) -> Seq<char> {
    m.role@ + ": "@ + plain_text_of(m)
}

/// All messages flattened to `role: content` lines joined by newlines.
pub open spec fn flatten_spec(s: Seq<ChatMessage>) -> Seq<char>
    decreases s.len(),
{
    if s.len() == 0 {
        Seq::empty()
    } else if s.len() == 1 {
        msg_line(s[0])
    } else {
        flatten_spec(s.drop_last()) + "\n"@ + msg_line(s.last())
    }
}

/// Flatten messages into one `role: content` prompt, one line each.
pub fn flatten_messages(messages: &Vec<ChatMessage>) -> (r: String)
    ensures
        r@ == flatten_spec(messages@),
{
    let mut out = String::new();
    let n = messages.len();
    let mut i: usize = 0;
    while i < n
        invariant
            i <= n,
            n == messages@.len(),
            out@ == flatten_spec(messages@.take(i as int)),
        decreases n - i,
    {
        proof {
            assert(messages@.take(i as int + 1).drop_last() =~= messages@.take(i as int));
            assert(messages@.take(i as int + 1).last() == messages@[i as int]);
        }
        if i > 0 {
            out.append("\n");
        }
        let m = &messages[i];
        out.append(m.role.as_str());
        out.append(": ");
        match &m.content {
            Some(MessageContent::Text(t)) => {
                out.append(t.as_str());
            },
            _ => {
                proof {
                    assert(plain_text_of(messages@[i as int]) =~= Seq::<char>::empty());
                }
            },
        }
        proof {
            if i == 0 {
                assert(out@ =~= flatten_spec(messages@.take(1)));
            } else {
                assert(out@ =~= flatten_spec(messages@.take(i as int + 1)));
            }
        }
        i += 1;
    }
    proof {
        assert(messages@.take(n as int) =~= messages@);
    }
    out
}

/// Which built-in tool executors a request enables.
pub struct EnabledTools {
    pub calculator: bool,
    pub web_search: bool,
    pub academic_search: bool,
}

/// One request tool definition (only its function name matters here).
pub struct ToolFunctionDefinition {
    pub name: Option<String>,
}

/// One request tool entry.
pub struct ToolDefinition {
    pub tool_type: Option<String>,
    pub function: Option<ToolFunctionDefinition>,
}

/// The name a tool definition declares, if any.
pub open spec fn def_name(t: ToolDefinition) -> Option<Seq<char>> {
    match t.function {
        Some(f) => match f.name {
            Some(n) => Some(n@),
            None => None,
        },
        None => None,
    }
}

/// Whether a name is requested, through the tool list or the id list.
pub open spec fn name_listed(
    tools: Seq<ToolDefinition>,
    ids: Seq<String>,
    name: Seq<char>,
) -> bool {
    (exists|i: int| 0 <= i < tools.len() && def_name(#[trigger] tools[i]) == Some(name)) || (
    exists|i: int| 0 <= i < ids.len() && (#[trigger] ids[i])@ == name)
}

/// Whether the request names any tool at all.
pub open spec fn any_names(tools: Seq<ToolDefinition>, ids: Seq<String>) -> bool {
    (exists|i: int| 0 <= i < tools.len() && def_name(#[trigger] tools[i]) is Some) || ids.len()
        > 0
}

/// The tool list of a request (empty where absent).
pub open spec fn tools_seq(tools: Option<Vec<ToolDefinition>>) -> Seq<ToolDefinition> {
    match tools {
        Some(v) => v@,
        None => Seq::empty(),
    }
}

/// The id list of a request (empty where absent).
pub open spec fn ids_seq(ids: Option<Vec<String>>) -> Seq<String> {
    match ids {
        Some(v) => v@,
        None => Seq::empty(),
    }
}

/// Whether `name` is requested.
fn listed(tools: &Option<Vec<ToolDefinition>>, ids: &Option<Vec<String>>, name: &str) -> (r: bool)
    ensures
        r <==> name_listed(tools_seq(*tools), ids_seq(*ids), name@),
{
    if let Some(ts) = tools {
        let n = ts.len();
        let mut i: usize = 0;
        while i < n
            invariant
                i <= n,
                n == ts@.len(),
                tools_seq(*tools) == ts@,
                forall|j: int| 0 <= j < i ==> def_name(#[trigger] ts@[j]) != Some(name@),
            decreases n - i,
        {
            if let Some(f) = &ts[i].function {
                if let Some(fname) = &f.name {
                    if str_eq(fname.as_str(), name) {
                        proof {
                            assert(tools_seq(*tools) == ts@);
                            assert(def_name(ts@[i as int]) == Some(name@));
                        }
                        return true;
                    }
                }
            }
            i += 1;
        }
    }
    if let Some(is) = ids {
        let n = is.len();
        let mut i: usize = 0;
        while i < n
            invariant
                i <= n,
                n == is@.len(),
                ids_seq(*ids) == is@,
                forall|j: int| 0 <= j < i ==> (#[trigger] is@[j])@ != name@,
            decreases n - i,
        {
            if str_eq(is[i].as_str(), name) {
                proof {
                    assert(ids_seq(*ids) == is@);
                    assert((is@[i as int])@ == name@);
                }
                return true;
            }
            i += 1;
        }
    }
    false
}

/// Whether the request names any tool.
fn has_any_names(tools: &Option<Vec<ToolDefinition>>, ids: &Option<Vec<String>>) -> (r: bool)
    ensures
        r <==> any_names(tools_seq(*tools), ids_seq(*ids)),
{
    if let Some(is) = ids {
        if is.len() > 0 {
            return true;
        }
    }
    if let Some(ts) = tools {
        let n = ts.len();
        let mut i: usize = 0;
        while i < n
            invariant
                i <= n,
                n == ts@.len(),
                tools_seq(*tools) == ts@,
                forall|j: int| 0 <= j < i ==> def_name(#[trigger] ts@[j]) is None,
            decreases n - i,
        {
            if let Some(f) = &ts[i].function {
                if f.name.is_some() {
                    proof {
                        assert(tools_seq(*tools) == ts@);
                        assert(def_name(ts@[i as int]) is Some);
                    }
                    return true;
                }
            }
            i += 1;
        }
    }
    false
}

/// Which executors a request enables: named search tools enable search,
/// a `tavily` search provider with no named tools enables web search by
/// default, and the calculator is enabled only by name.
pub fn resolve_enabled_tools(
    tools: &Option<Vec<ToolDefinition>>,
    tool_ids: &Option<Vec<String>>,
    search_provider: &Option<String>,
) -> (r: EnabledTools)
    ensures
        ({
            let ts = tools_seq(*tools);
            let ids = ids_seq(*tool_ids);
            let search_active = match search_provider {
                Some(p) => p@ == "tavily"@,
                None => false,
            };
            &&& (r.web_search <==> name_listed(ts, ids, "Tavily_web_search"@) || name_listed(
                ts,
                ids,
                "web_search"@,
            ) || (search_active && !any_names(ts, ids)))
            &&& (r.academic_search <==> name_listed(ts, ids, "Tavily_academic_search"@)
                || name_listed(ts, ids, "academic_search"@))
            &&& (r.calculator <==> name_listed(ts, ids, "calculator"@))
        }),
{
    let search_active = match search_provider {
        Some(p) => str_eq(p.as_str(), "tavily"),
        None => false,
    };
    let any = has_any_names(tools, tool_ids);
    let web = listed(tools, tool_ids, "Tavily_web_search") || listed(tools, tool_ids, "web_search")
        || (search_active && !any);
    let academic = listed(tools, tool_ids, "Tavily_academic_search") || listed(
        tools,
        tool_ids,
        "academic_search",
    );
    let calculator = listed(tools, tool_ids, "calculator");
    EnabledTools { calculator, web_search: web, academic_search: academic }
}

/// The caller's tool-choice policy.
pub enum ToolChoice {
    /// The model decides.
    Auto,
    /// Tools are disabled for this turn.
    Disabled,
    /// The model must call some tool.
    Required,
    /// The model must call one of these functions.
    Specific(Vec<String>),
}

/// Parse the request's `toolChoice` JSON: the keywords `auto`, `none` and
/// `required`, or an object naming one function; anything else is no
/// choice.
pub fn parse_tool_choice(raw: Option<&Vec<u8>>) -> (r: Option<ToolChoice>)
    ensures
        match raw {
            None => r is None,
            Some(d) => match json_top_str_of(d@) {
                Some(s) => {
                    &&& (s == "auto"@ <==> r matches Some(ToolChoice::Auto))
                    &&& (s == "none"@ <==> r matches Some(ToolChoice::Disabled))
                    &&& (s == "required"@ <==> r matches Some(ToolChoice::Required))
                    &&& (s != "auto"@ && s != "none"@ && s != "required"@ ==> r is None)
                },
                None => match json_sub_of(d@, "function"@) {
                    Some(f) => match json_str_of(f, "name"@) {
                        Some(n) => r matches Some(ToolChoice::Specific(names))
                            && names@.map_values(|x: String| x@) == seq![n],
                        None => r is None,
                    },
                    None => r is None,
                },
            },
        },
{
    let d = match raw {
        Some(d) => d,
        None => {
            return None;
        },
    };
    proof {
        reveal_strlit("auto");
        reveal_strlit("none");
        reveal_strlit("required");
        assert("auto"@ != "none"@) by {
            assert("auto"@[0] == 'a');
            assert("none"@[0] == 'n');
        }
        assert("auto"@ != "required"@) by {
            assert("auto"@.len() == 4);
            assert("required"@.len() == 8);
        }
        assert("none"@ != "required"@) by {
            assert("none"@.len() == 4);
            assert("required"@.len() == 8);
        }
    }
    match json_top_str(d.as_slice()) {
        Some(s) => {
            if str_eq(s.as_str(), "auto") {
                Some(ToolChoice::Auto)
            } else if str_eq(s.as_str(), "none") {
                Some(ToolChoice::Disabled)
            } else if str_eq(s.as_str(), "required") {
                Some(ToolChoice::Required)
            } else {
                None
            }
        },
        None => {
            match json_sub_field(d.as_slice(), "function") {
                Some(f) => {
                    match json_str_field(f.as_slice(), "name") {
                        Some(n) => {
                            let mut names: Vec<String> = Vec::new();
                            let ghost nv = n@;
                            names.push(n);
                            proof {
                                assert(names@.map_values(|x: String| x@) =~= seq![nv]);
                            }
                            Some(ToolChoice::Specific(names))
                        },
                        None => None,
                    }
                },
                None => None,
            }
        },
    }
}

/// Canonicalize tool-call arguments: where the text parses as JSON it is
/// kept in compact serialized form, otherwise it stands verbatim.
pub fn normalize_tool_arguments(args: &str) -> (r: String)
    ensures
        match json_compact_of(args.spec_bytes()) {
            Some(c) => r@ == c,
            None => r@ == args@,
        },
{
    match json_compact(args.as_bytes()) {
        Some(c) => c,
        None => args.to_owned(),
    }
}

} // verus!
