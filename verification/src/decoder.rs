//! The generic vendor stream decoder: raw transport bytes are reassembled
//! into lines, each line is classified as an SSE data line, and each data
//! payload is decoded into canonical stream events through the tool-call
//! accumulator. One decoder serves every vendor dialect; a `VendorSchema`
//! carries the vendor-specific reasoning field names.

use vstd::prelude::*;

use crate::accumulator::{
    acc_apply, acc_apply_all, apply_events, flush_events, ToolCallAccumulator, ToolCallStateV,
    ToolFragment, ToolFragmentV,
};
use crate::events::{events_view, StreamEvent, StreamEventV, Usage};
use crate::json::{
    json_arr_item, json_arr_len, json_arr_len_of, json_item_of, json_str_field, json_str_of,
    json_sub_field, json_sub_of, json_u64_field, json_u64_of,
};
use crate::linebuf::{lemma_split_concat, lines_of, rem_of, LineBuffer};
use crate::text::str_eq;

verus! {

// ---------------------------------------------------------------------------
// SSE line classification
// ---------------------------------------------------------------------------
/// ASCII whitespace for line trimming.
pub open spec fn is_ws(b: u8) -> bool {
    b == 32 || b == 9 || b == 13 || b == 10
}

/// The sequence with leading whitespace dropped.
pub open spec fn trim_front(s: Seq<u8>) -> Seq<u8>
    decreases s.len(),
{
    if s.len() > 0 && is_ws(s[0]) {
        trim_front(s.drop_first())
    } else {
        s
    }
}

/// The sequence with trailing whitespace dropped.
pub open spec fn trim_back(s: Seq<u8>) -> Seq<u8>
    decreases s.len(),
{
    if s.len() > 0 && is_ws(s.last()) {
        trim_back(s.drop_last())
    } else {
        s
    }
}

/// The sequence with whitespace dropped on both sides.
pub open spec fn trim_spec(s: Seq<u8>) -> Seq<u8> {
    trim_back(trim_front(s))
}

/// The bytes of the `data: ` SSE prefix.
pub open spec fn data_prefix() -> Seq<u8> {
    seq![100u8, 97u8, 116u8, 97u8, 58u8, 32u8]
}

/// The bytes of the `[DONE]` end marker.
pub open spec fn done_marker() -> Seq<u8> {
    seq![91u8, 68u8, 79u8, 78u8, 69u8, 93u8]
}

/// What one reassembled line means to the decoder.
pub enum LineKindV {
    /// Blank, or not an SSE data line: dropped without effect.
    Skip,
    /// The `[DONE]` marker: the vendor-chunk phase ends.
    Done,
    /// The payload bytes after `data: `.
    Payload(Seq<u8>),
}

/// Classification of one line: trim, skip blanks and non-data lines, strip
/// the `data: ` prefix, and recognize `[DONE]`.
pub open spec fn line_kind(line: Seq<u8>) -> LineKindV {
    let t = trim_spec(line);
    if t.len() == 0 {
        LineKindV::Skip
    } else if t.len() < 6 || t.take(6) != data_prefix() {
        LineKindV::Skip
    } else {
        let p = t.skip(6);
        if p == done_marker() {
            LineKindV::Done
        } else {
            LineKindV::Payload(p)
        }
    }
}

/// Where the first `a` bytes are whitespace and byte `a` is not (or the end
/// stands there), trimming the front drops exactly `a` bytes.
proof fn lemma_trim_front_at(s: Seq<u8>, a: int)
    requires
        0 <= a <= s.len(),
        forall|j: int| 0 <= j < a ==> is_ws(s[j]),
        a < s.len() ==> !is_ws(s[a]),
    ensures
        trim_front(s) == s.skip(a),
    decreases a,
{
    if a == 0 {
        assert(s.skip(0) =~= s);
    } else {
        assert(forall|j: int|
            0 <= j < s.drop_first().len() ==> s.drop_first()[j] == s[j + 1]);
        lemma_trim_front_at(s.drop_first(), a - 1);
        assert(s.drop_first().skip(a - 1) =~= s.skip(a));
    }
}

/// Where byte `b - 1` is the last non-whitespace byte, trimming the back
/// keeps exactly the first `b` bytes.
proof fn lemma_trim_back_at(s: Seq<u8>, b: int)
    requires
        0 <= b <= s.len(),
        forall|j: int| b <= j < s.len() ==> is_ws(s[j]),
        b > 0 ==> !is_ws(s[b - 1]),
    ensures
        trim_back(s) == s.take(b),
    decreases s.len(),
{
    if b == s.len() {
        if s.len() > 0 {
            assert(s.take(b) =~= s);
        } else {
            assert(s.take(0) =~= s);
        }
    } else {
        assert(is_ws(s.last()));
        assert(forall|j: int| 0 <= j < s.drop_last().len() ==> s.drop_last()[j] == s[j]);
        lemma_trim_back_at(s.drop_last(), b);
        assert(s.drop_last().take(b) =~= s.take(b));
    }
}

/// Exec classification result.
pub enum LineKind {
    Skip,
    Done,
    Payload(Vec<u8>),
}

/// Trim ASCII whitespace from both ends of a line.
fn trim_bytes(line: &Vec<u8>) -> (r: Vec<u8>)
    ensures
        r@ == trim_spec(line@),
{
    let n = line.len();
    let mut a: usize = 0;
    while a < n && (line[a] == 32 || line[a] == 9 || line[a] == 13 || line[a] == 10)
        invariant
            a <= n,
            n == line@.len(),
            forall|j: int| 0 <= j < a ==> is_ws(line@[j]),
        decreases n - a,
    {
        a += 1;
    }
    proof {
        lemma_trim_front_at(line@, a as int);
    }
    if a == n {
        proof {
            assert(line@.skip(a as int) =~= Seq::<u8>::empty());
            lemma_trim_back_at(line@.skip(a as int), 0);
        }
        return Vec::new();
    }
    let mut b: usize = n;
    while b > a + 1 && (line[b - 1] == 32 || line[b - 1] == 9 || line[b - 1] == 13 || line[b - 1]
        == 10)
        invariant
            a < b <= n,
            n == line@.len(),
            forall|j: int| b <= j < n ==> is_ws(line@[j]),
        decreases b,
    {
        b -= 1;
    }
    proof {
        assert(!is_ws(line@[a as int]));
        assert(forall|j: int|
            0 <= j < line@.skip(a as int).len() ==> line@.skip(a as int)[j] == line@[j + a]);
        lemma_trim_back_at(line@.skip(a as int), b - a);
    }
    let mut out: Vec<u8> = Vec::new();
    let mut i: usize = a;
    while i < b
        invariant
            a <= i <= b <= n,
            n == line@.len(),
            out@ == line@.skip(a as int).take(b - a).take(i - a),
        decreases b - i,
    {
        out.push(line[i]);
        proof {
            assert(out@ =~= line@.skip(a as int).take(b - a).take(i + 1 - a));
        }
        i += 1;
    }
    proof {
        assert(line@.skip(a as int).take(b - a).take(b - a) =~= line@.skip(a as int).take(b - a));
    }
    out
}

/// Classify one reassembled line.
pub fn classify_line(line: &Vec<u8>) -> (r: LineKind)
    ensures
        match r {
            LineKind::Skip => line_kind(line@) == LineKindV::Skip,
            LineKind::Done => line_kind(line@) == LineKindV::Done,
            LineKind::Payload(p) => line_kind(line@) == LineKindV::Payload(p@),
        },
{
    let t = trim_bytes(line);
    let n = t.len();
    if n == 0 {
        return LineKind::Skip;
    }
    if n < 6 || t[0] != 100 || t[1] != 97 || t[2] != 116 || t[3] != 97 || t[4] != 58 || t[5] != 32 {
        proof {
            if n >= 6 {
                assert(t@.take(6) != data_prefix());
            }
        }
        return LineKind::Skip;
    }
    proof {
        assert(t@.take(6) =~= data_prefix());
    }
    let mut p: Vec<u8> = Vec::new();
    let mut i: usize = 6;
    while i < n
        invariant
            6 <= i <= n,
            n == t@.len(),
            p@ == t@.skip(6).take(i - 6),
        decreases n - i,
    {
        p.push(t[i]);
        proof {
            assert(p@ =~= t@.skip(6).take(i - 5));
        }
        i += 1;
    }
    proof {
        assert(t@.skip(6).take(n - 6) =~= t@.skip(6));
    }
    if p.len() == 6 && p[0] == 91 && p[1] == 68 && p[2] == 79 && p[3] == 78 && p[4] == 69 && p[5]
        == 93 {
        proof {
            assert(p@ =~= done_marker());
        }
        LineKind::Done
    } else {
        proof {
            if p@.len() == 6 {
                assert(p@ != done_marker() ==> line_kind(line@) == LineKindV::Payload(p@));
            }
            assert(p@ == done_marker() ==> p@.len() == 6 && p@[0] == 91 && p@[1] == 68 && p@[2]
                == 79 && p@[3] == 78 && p@[4] == 69 && p@[5] == 93);
        }
        LineKind::Payload(p)
    }
}

// ---------------------------------------------------------------------------
// Vendor chunk decoding
// ---------------------------------------------------------------------------
/// The serialized first choice of a vendor chunk.
pub open spec fn chunk_choice(d: Seq<u8>) -> Option<Seq<u8>> {
    json_item_of(d, "choices"@, 0)
}

/// The serialized delta object of the first choice.
pub open spec fn chunk_delta(d: Seq<u8>) -> Option<Seq<u8>> {
    match chunk_choice(d) {
        Some(c) => json_sub_of(c, "delta"@),
        None => None,
    }
}

/// The finish reason of the first choice.
pub open spec fn chunk_finish(d: Seq<u8>) -> Option<Seq<char>> {
    match chunk_choice(d) {
        Some(c) => json_str_of(c, "finish_reason"@),
        None => None,
    }
}

/// The first of the vendor's reasoning field names that holds a string in
/// the delta: first match wins, so aliased fields never double-emit.
pub open spec fn reasoning_lookup(fields: Seq<Seq<char>>, db: Seq<u8>) -> Option<Seq<char>>
    decreases fields.len(),
{
    if fields.len() == 0 {
        None
    } else {
        match json_str_of(db, fields[0]) {
            Some(s) => Some(s),
            None => reasoning_lookup(fields.drop_first(), db),
        }
    }
}

/// The tool-call fragment encoded by one `tool_calls` array element.
pub open spec fn frag_of(item: Seq<u8>) -> ToolFragmentV {
    ToolFragmentV {
        index: match json_u64_of(item, "index"@) {
            Some(n) => Some(n as usize),
            None => None,
        },
        id: json_str_of(item, "id"@),
        name: match json_sub_of(item, "function"@) {
            Some(f) => json_str_of(f, "name"@),
            None => None,
        },
        arguments: match json_sub_of(item, "function"@) {
            Some(f) => json_str_of(f, "arguments"@),
            None => None,
        },
    }
}

/// The fragment at position `i` of the delta's `tool_calls` array.
pub open spec fn frag_at(db: Seq<u8>, i: int) -> ToolFragmentV {
    match json_item_of(db, "tool_calls"@, i as usize) {
        Some(b) => frag_of(b),
        None => ToolFragmentV { index: None, id: None, name: None, arguments: None },
    }
}

/// All tool-call fragments carried by one delta, in array order.
pub open spec fn frags_of(db: Seq<u8>) -> Seq<ToolFragmentV> {
    match json_arr_len_of(db, "tool_calls"@) {
        Some(n) => Seq::new(n as nat, |i: int| frag_at(db, i)),
        None => Seq::empty(),
    }
}

/// The delta events of a fragment sequence applied in order.
pub open spec fn frags_events(
    acc: Seq<(usize, ToolCallStateV)>,
    frags: Seq<ToolFragmentV>,
) -> Seq<StreamEventV>
    decreases frags.len(),
{
    if frags.len() == 0 {
        Seq::empty()
    } else {
        apply_events(acc, frags[0]) + frags_events(acc_apply(acc, frags[0]), frags.drop_first())
    }
}

/// Folding one more fragment extends the state and event sequence at the end.
proof fn lemma_frags_snoc(
    acc: Seq<(usize, ToolCallStateV)>,
    frags: Seq<ToolFragmentV>,
    f: ToolFragmentV,
)
    ensures
        acc_apply_all(acc, frags.push(f)) == acc_apply(acc_apply_all(acc, frags), f),
        frags_events(acc, frags.push(f)) == frags_events(acc, frags) + apply_events(
            acc_apply_all(acc, frags),
            f,
        ),
    decreases frags.len(),
{
    if frags.len() == 0 {
        assert(frags.push(f)[0] == f);
        assert(frags.push(f).drop_first() =~= Seq::<ToolFragmentV>::empty());
        assert(frags_events(acc_apply(acc, f), frags.push(f).drop_first())
            =~= Seq::<StreamEventV>::empty());
        assert(acc_apply_all(acc_apply(acc, f), frags.push(f).drop_first()) == acc_apply(acc, f));
        assert(acc_apply_all(acc, frags) == acc);
        assert(frags_events(acc, frags) =~= Seq::<StreamEventV>::empty());
        assert(frags_events(acc, frags.push(f)) =~= frags_events(acc, frags) + apply_events(
            acc_apply_all(acc, frags),
            f,
        ));
    } else {
        let acc1 = acc_apply(acc, frags[0]);
        let rest = frags.drop_first();
        assert(frags.push(f)[0] == frags[0]);
        assert(frags.push(f).drop_first() =~= rest.push(f));
        lemma_frags_snoc(acc1, rest, f);
        assert(acc_apply_all(acc, frags.push(f)) == acc_apply_all(acc1, rest.push(f)));
        assert(acc_apply_all(acc, frags) == acc_apply_all(acc1, rest));
        assert(frags_events(acc, frags.push(f)) == apply_events(acc, frags[0]) + frags_events(
            acc1,
            rest.push(f),
        ));
        assert(frags_events(acc, frags) == apply_events(acc, frags[0]) + frags_events(acc1, rest));
        assert(apply_events(acc, frags[0]) + (frags_events(acc1, rest) + apply_events(
            acc_apply_all(acc1, rest),
            f,
        )) =~= (apply_events(acc, frags[0]) + frags_events(acc1, rest)) + apply_events(
            acc_apply_all(acc1, rest),
            f,
        ));
    }
}

/// The token usage a chunk reports, where it reports any counter.
pub open spec fn usage_of(d: Seq<u8>) -> Option<Usage> {
    match json_sub_of(d, "usage"@) {
        Some(u) => {
            let p = json_u64_of(u, "prompt_tokens"@);
            let c = json_u64_of(u, "completion_tokens"@);
            let t = json_u64_of(u, "total_tokens"@);
            if p is Some || c is Some || t is Some {
                Some(
                    Usage {
                        prompt_tokens: p.unwrap_or(0),
                        completion_tokens: c.unwrap_or(0),
                        total_tokens: t.unwrap_or(0),
                    },
                )
            } else {
                None
            }
        },
        None => None,
    }
}

/// The decoder state the line fold runs over (the line buffer aside).
#[verifier::ext_equal]
pub struct DecoderCoreV {
    pub acc: Seq<(usize, ToolCallStateV)>,
    pub usage: Option<Usage>,
    pub done: bool,
}

/// The reasoning events of one delta: one `ReasoningDelta` when the vendor
/// field holds non-empty text.
pub open spec fn reasoning_events(fields: Seq<Seq<char>>, db: Seq<u8>) -> Seq<StreamEventV> {
    match reasoning_lookup(fields, db) {
        Some(s) => if s.len() > 0 {
            seq![StreamEventV::ReasoningDelta(s)]
        } else {
            Seq::empty()
        },
        None => Seq::empty(),
    }
}

/// The text events of one delta: one `TextDelta` when `content` holds
/// non-empty text.
pub open spec fn content_events(db: Seq<u8>) -> Seq<StreamEventV> {
    match json_str_of(db, "content"@) {
        Some(s) => if s.len() > 0 {
            seq![StreamEventV::TextDelta(s)]
        } else {
            Seq::empty()
        },
        None => Seq::empty(),
    }
}

/// One data payload decoded: reasoning first, then content, then tool-call
/// deltas in array order; a `tool_calls` finish reason flushes the
/// accumulator; a reported usage replaces the stored one.
pub open spec fn payload_step(fields: Seq<Seq<char>>, st: DecoderCoreV, d: Seq<u8>) -> (
    DecoderCoreV,
    Seq<StreamEventV>,
) {
    let pre = match chunk_delta(d) {
        Some(db) => reasoning_events(fields, db) + content_events(db),
        None => Seq::empty(),
    };
    let frs = match chunk_delta(d) {
        Some(db) => frags_of(db),
        None => Seq::empty(),
    };
    let fev = frags_events(st.acc, frs);
    let acc2 = acc_apply_all(st.acc, frs);
    let flush_now = chunk_finish(d) == Some("tool_calls"@);
    let ev2 = if flush_now {
        flush_events(acc2)
    } else {
        Seq::empty()
    };
    let acc3 = if flush_now {
        Seq::empty()
    } else {
        acc2
    };
    let usage2 = match usage_of(d) {
        Some(u) => Some(u),
        None => st.usage,
    };
    (DecoderCoreV { acc: acc3, usage: usage2, done: st.done }, pre + fev + ev2)
}

/// One line folded into the decoder state. After `[DONE]` every further
/// line is without effect.
pub open spec fn line_step(fields: Seq<Seq<char>>, st: DecoderCoreV, line: Seq<u8>) -> (
    DecoderCoreV,
    Seq<StreamEventV>,
) {
    if st.done {
        (st, Seq::empty())
    } else {
        match line_kind(line) {
            LineKindV::Skip => (st, Seq::empty()),
            LineKindV::Done => (
                DecoderCoreV { acc: st.acc, usage: st.usage, done: true },
                Seq::empty(),
            ),
            LineKindV::Payload(d) => payload_step(fields, st, d),
        }
    }
}

/// A sequence of lines folded in order.
pub open spec fn run_lines(fields: Seq<Seq<char>>, st: DecoderCoreV, ls: Seq<Seq<u8>>) -> (
    DecoderCoreV,
    Seq<StreamEventV>,
)
    decreases ls.len(),
{
    if ls.len() == 0 {
        (st, Seq::empty())
    } else {
        let (c1, e1) = line_step(fields, st, ls[0]);
        let (c2, e2) = run_lines(fields, c1, ls.drop_first());
        (c2, e1 + e2)
    }
}

/// Folding lines splits over concatenation of line sequences.
pub proof fn lemma_run_lines_append(
    fields: Seq<Seq<char>>,
    st: DecoderCoreV,
    l1: Seq<Seq<u8>>,
    l2: Seq<Seq<u8>>,
)
    ensures
        ({
            let (ca, ea) = run_lines(fields, st, l1);
            let (cb, eb) = run_lines(fields, ca, l2);
            run_lines(fields, st, l1 + l2) == (cb, ea + eb)
        }),
    decreases l1.len(),
{
    let (ca, ea) = run_lines(fields, st, l1);
    let (cb, eb) = run_lines(fields, ca, l2);
    if l1.len() == 0 {
        assert(l1 + l2 =~= l2);
        assert(ea + eb =~= eb);
    } else {
        let (c1, e1) = line_step(fields, st, l1[0]);
        assert((l1 + l2)[0] == l1[0]);
        assert((l1 + l2).drop_first() =~= l1.drop_first() + l2);
        lemma_run_lines_append(fields, c1, l1.drop_first(), l2);
        assert(e1 + (run_lines(fields, c1, l1.drop_first()).1 + eb) =~= ea + eb);
    }
}

/// Folding one more line extends the run at the end.
proof fn lemma_run_lines_snoc(
    fields: Seq<Seq<char>>,
    st: DecoderCoreV,
    ls: Seq<Seq<u8>>,
    l: Seq<u8>,
)
    ensures
        ({
            let (ca, ea) = run_lines(fields, st, ls);
            let (cb, eb) = line_step(fields, ca, l);
            run_lines(fields, st, ls.push(l)) == (cb, ea + eb)
        }),
{
    let (ca, ea) = run_lines(fields, st, ls);
    let (cb, eb) = line_step(fields, ca, l);
    assert(seq![l][0] == l);
    assert(seq![l].drop_first() =~= Seq::<Seq<u8>>::empty());
    assert(run_lines(fields, cb, seq![l].drop_first()) == (
        cb,
        Seq::<StreamEventV>::empty(),
    ));
    assert(eb + Seq::<StreamEventV>::empty() =~= eb);
    assert(run_lines(fields, ca, seq![l]) == (cb, eb));
    lemma_run_lines_append(fields, st, ls, seq![l]);
    assert(ls + seq![l] =~= ls.push(l));
}

/// A whole transport chunk decoded: the buffered bytes and the chunk are
/// split into complete lines, the lines are folded in order, and the
/// incomplete tail stays buffered.
pub open spec fn decode_run(
    fields: Seq<Seq<char>>,
    st: DecoderCoreV,
    pending: Seq<u8>,
    bytes: Seq<u8>,
) -> (DecoderCoreV, Seq<u8>, Seq<StreamEventV>) {
    let all = pending + bytes;
    let (c2, ev) = run_lines(fields, st, lines_of(all));
    (c2, rem_of(all), ev)
}

/// Decoder chunk-boundary invariance: feeding bytes in two chunks produces
/// exactly the state and event sequence of feeding their concatenation, for
/// every split point. Hence the same logical byte stream yields an
/// identical event sequence however the transport fragments it.
pub proof fn lemma_decoder_chunk_invariance(
    fields: Seq<Seq<char>>,
    st: DecoderCoreV,
    pending: Seq<u8>,
    a: Seq<u8>,
    b: Seq<u8>,
)
    ensures
        ({
            let (c1, p1, e1) = decode_run(fields, st, pending, a + b);
            let (ca, pa, ea) = decode_run(fields, st, pending, a);
            let (cb, pb, eb) = decode_run(fields, ca, pa, b);
            c1 == cb && p1 == pb && e1 == ea + eb
        }),
{
    assert(pending + (a + b) =~= (pending + a) + b);
    lemma_split_concat(pending + a, b);
    lemma_run_lines_append(
        fields,
        st,
        lines_of(pending + a),
        lines_of(rem_of(pending + a) + b),
    );
}

// ---------------------------------------------------------------------------
// Executable decoder
// ---------------------------------------------------------------------------
/// The vendor-specific part of a decoder: which delta fields carry
/// reasoning text, in precedence order.
pub struct VendorSchema {
    pub reasoning_fields: Vec<String>,
}

impl View for VendorSchema {
    type V = Seq<Seq<char>>;

    open spec fn view(&self) -> Seq<Seq<char>> {
        self.reasoning_fields@.map_values(|f: String| f@)
    }
}

/// Decodes one vendor's chat-completions byte stream into canonical events.
pub struct StreamDecoder {
    schema: VendorSchema,
    buf: LineBuffer,
    acc: ToolCallAccumulator,
    usage: Option<Usage>,
    done: bool,
}

impl StreamDecoder {
    /// The vendor reasoning fields this decoder scans.
    pub closed spec fn fields(&self) -> Seq<Seq<char>> {
        self.schema@
    }

    /// The bytes buffered towards the next complete line.
    pub closed spec fn pending(&self) -> Seq<u8> {
        self.buf@
    }

    /// The fold state: accumulator contents, stored usage, end-marker flag.
    pub closed spec fn state(&self) -> DecoderCoreV {
        DecoderCoreV { acc: self.acc@, usage: self.usage, done: self.done }
    }

    /// A fresh decoder for one vendor stream.
    pub fn new(schema: VendorSchema) -> (r: Self)
        ensures
            r.fields() == schema@,
            r.pending() == Seq::<u8>::empty(),
            r.state() == (DecoderCoreV {
                acc: Seq::<(usize, ToolCallStateV)>::empty(),
                usage: None::<Usage>,
                done: false,
            }),
    {
        StreamDecoder {
            schema,
            buf: LineBuffer::new(),
            acc: ToolCallAccumulator::new(),
            usage: None,
            done: false,
        }
    }

    /// The first schema field holding a string in the delta.
    fn reasoning_first(schema: &VendorSchema, db: &Vec<u8>) -> (r: Option<String>)
        ensures
            match r {
                Some(s) => reasoning_lookup(schema@, db@) == Some(s@),
                None => reasoning_lookup(schema@, db@) is None,
            },
    {
        let ghost fields = schema@;
        proof {
            assert(fields.skip(0) =~= fields);
        }
        let n = schema.reasoning_fields.len();
        let mut k: usize = 0;
        while k < n
            invariant
                k <= n,
                n == schema.reasoning_fields@.len(),
                fields == schema@,
                reasoning_lookup(fields, db@) == reasoning_lookup(fields.skip(k as int), db@),
            decreases n - k,
        {
            proof {
                assert(fields.skip(k as int)[0] == fields[k as int]);
                assert(fields[k as int] == schema.reasoning_fields@[k as int]@);
            }
            let field = &schema.reasoning_fields[k];
            match json_str_field(db.as_slice(), field.as_str()) {
                Some(s) => {
                    return Some(s);
                },
                None => {},
            }
            proof {
                assert(fields.skip(k as int).drop_first() =~= fields.skip(k as int + 1));
            }
            k += 1;
        }
        proof {
            assert(fields.skip(n as int).len() == 0);
        }
        None
    }

    /// Read one `tool_calls` element as a fragment.
    fn read_fragment(item: &Vec<u8>) -> (f: ToolFragment)
        ensures
            f@ == frag_of(item@),
    {
        let index = match json_u64_field(item.as_slice(), "index") {
            Some(n) => Some(n as usize),
            None => None,
        };
        let id = json_str_field(item.as_slice(), "id");
        let function = json_sub_field(item.as_slice(), "function");
        let (name, arguments) = match &function {
            Some(fb) => (
                json_str_field(fb.as_slice(), "name"),
                json_str_field(fb.as_slice(), "arguments"),
            ),
            None => (None, None),
        };
        ToolFragment { index, id, name, arguments }
    }

    /// Decode one data payload.
    fn step_payload(&mut self, d: &Vec<u8>) -> (events: Vec<StreamEvent>)
        ensures
            final(self).fields() == old(self).fields(),
            final(self).pending() == old(self).pending(),
            ({
                let (c2, ev) = payload_step(old(self).fields(), old(self).state(), d@);
                final(self).state() == c2 && events_view(events@) == ev
            }),
    {
        let ghost fields = self.fields();
        let ghost core0 = self.state();
        let ghost pending0 = self.pending();
        let ghost dopt = chunk_delta(d@);
        let ghost pre = (match dopt {
            Some(dbv) => reasoning_events(fields, dbv) + content_events(dbv),
            None => Seq::<StreamEventV>::empty(),
        });
        let ghost frs = (match dopt {
            Some(dbv) => frags_of(dbv),
            None => Seq::<ToolFragmentV>::empty(),
        });
        let mut events: Vec<StreamEvent> = Vec::new();
        let delta_b: Option<Vec<u8>> = match json_arr_item(d.as_slice(), "choices", 0) {
            Some(c) => json_sub_field(c.as_slice(), "delta"),
            None => None,
        };
        proof {
            assert(match delta_b {
                Some(ref db) => dopt == Some(db@),
                None => dopt is None,
            });
        }
        match &delta_b {
            Some(db) => {
                match Self::reasoning_first(&self.schema, db) {
                    Some(r) => {
                        if !r.as_str().is_empty() {
                            events.push(StreamEvent::ReasoningDelta(r));
                        }
                    },
                    None => {},
                }
                match json_str_field(db.as_slice(), "content") {
                    Some(c) => {
                        if !c.as_str().is_empty() {
                            events.push(StreamEvent::TextDelta(c));
                        }
                    },
                    None => {},
                }
                proof {
                    assert(events_view(events@) =~= pre);
                    assert(frs == frags_of(db@));
                }
                match json_arr_len(db.as_slice(), "tool_calls") {
                    Some(n) => {
                        let ghost pre_events = events@;
                        let mut i: usize = 0;
                        proof {
                            assert(frs.take(0) =~= Seq::<ToolFragmentV>::empty());
                            assert(n == frs.len());
                        }
                        while i < n
                            invariant
                                i <= n,
                                frs == frags_of(db@),
                                n == frs.len(),
                                json_arr_len_of(db@, "tool_calls"@) == Some(n),
                                self.fields() == fields,
                                self.pending() == pending0,
                                self.usage == core0.usage,
                                self.done == core0.done,
                                self.acc@ == acc_apply_all(core0.acc, frs.take(i as int)),
                                events_view(events@) == events_view(pre_events) + frags_events(
                                    core0.acc,
                                    frs.take(i as int),
                                ),
                            decreases n - i,
                        {
                            let item = match json_arr_item(db.as_slice(), "tool_calls", i) {
                                Some(b) => b,
                                None => {
                                    proof {
                                        assert(false);
                                    }
                                    unreached()
                                },
                            };
                            let frag = Self::read_fragment(&item);
                            proof {
                                assert(frs[i as int] == frag_at(db@, i as int));
                                assert(frag@ == frs[i as int]);
                            }
                            let ghost ev_before = events@;
                            let mut evs = self.acc.apply_fragment(&frag);
                            let ghost evs_v = evs@;
                            events.append(&mut evs);
                            proof {
                                assert(events@ == ev_before + evs_v);
                                assert(events_view(events@) =~= events_view(ev_before)
                                    + apply_events(
                                    acc_apply_all(core0.acc, frs.take(i as int)),
                                    frag@,
                                ));
                                lemma_frags_snoc(core0.acc, frs.take(i as int), frag@);
                                assert(frs.take(i as int).push(frag@) =~= frs.take(i as int + 1));
                                assert(events_view(events@) =~= events_view(pre_events)
                                    + frags_events(core0.acc, frs.take(i as int + 1)));
                            }
                            i += 1;
                        }
                        proof {
                            assert(frs.take(n as int) =~= frs);
                        }
                    },
                    None => {
                        proof {
                            assert(frs =~= Seq::<ToolFragmentV>::empty());
                            assert(frags_events(core0.acc, frs) =~= Seq::<StreamEventV>::empty());
                            assert(acc_apply_all(core0.acc, frs) == core0.acc);
                            assert(events_view(events@) =~= pre + frags_events(core0.acc, frs));
                        }
                    },
                }
            },
            None => {
                proof {
                    assert(pre =~= Seq::<StreamEventV>::empty());
                    assert(frags_events(core0.acc, frs) =~= Seq::<StreamEventV>::empty());
                    assert(acc_apply_all(core0.acc, frs) == core0.acc);
                    assert(events_view(events@) =~= pre + frags_events(core0.acc, frs));
                }
            },
        }
        proof {
            assert(events_view(events@) == pre + frags_events(core0.acc, frs));
            assert(self.acc@ == acc_apply_all(core0.acc, frs));
        }
        let ghost acc2 = acc_apply_all(core0.acc, frs);
        let finish = match json_arr_item(d.as_slice(), "choices", 0) {
            Some(c) => json_str_field(c.as_slice(), "finish_reason"),
            None => None,
        };
        let flush_now = match &finish {
            Some(f) => str_eq(f.as_str(), "tool_calls"),
            None => false,
        };
        proof {
            assert(flush_now <==> chunk_finish(d@) == Some("tool_calls"@));
        }
        if flush_now {
            let ghost ev_before = events@;
            let mut evs = self.acc.flush();
            events.append(&mut evs);
            proof {
                assert(events_view(events@) =~= events_view(ev_before) + flush_events(acc2));
            }
        }
        match json_sub_field(d.as_slice(), "usage") {
            Some(ub) => {
                let p = json_u64_field(ub.as_slice(), "prompt_tokens");
                let c = json_u64_field(ub.as_slice(), "completion_tokens");
                let t = json_u64_field(ub.as_slice(), "total_tokens");
                if p.is_some() || c.is_some() || t.is_some() {
                    self.usage = Some(
                        Usage {
                            prompt_tokens: p.unwrap_or(0),
                            completion_tokens: c.unwrap_or(0),
                            total_tokens: t.unwrap_or(0),
                        },
                    );
                }
            },
            None => {},
        }
        proof {
            assert(self.usage == (match usage_of(d@) {
                Some(u) => Some(u),
                None => core0.usage,
            }));
            let (c2, ev) = payload_step(fields, core0, d@);
            assert(self.state() =~= c2);
            assert(events_view(events@) =~= ev);
        }
        events
    }

    /// Decode one reassembled line.
    fn step_line(&mut self, line: &Vec<u8>) -> (events: Vec<StreamEvent>)
        ensures
            final(self).fields() == old(self).fields(),
            final(self).pending() == old(self).pending(),
            ({
                let (c2, ev) = line_step(old(self).fields(), old(self).state(), line@);
                final(self).state() == c2 && events_view(events@) == ev
            }),
    {
        if self.done {
            let events: Vec<StreamEvent> = Vec::new();
            proof {
                assert(events_view(events@) =~= Seq::<StreamEventV>::empty());
            }
            return events;
        }
        match classify_line(line) {
            LineKind::Skip => {
                let events: Vec<StreamEvent> = Vec::new();
                proof {
                    assert(events_view(events@) =~= Seq::<StreamEventV>::empty());
                }
                events
            },
            LineKind::Done => {
                self.done = true;
                let events: Vec<StreamEvent> = Vec::new();
                proof {
                    assert(events_view(events@) =~= Seq::<StreamEventV>::empty());
                }
                events
            },
            LineKind::Payload(p) => self.step_payload(&p),
        }
    }

    /// Feed one transport chunk; the events returned depend only on the
    /// concatenation of all bytes fed, never on chunk boundaries.
    pub fn push_chunk(&mut self, chunk: &[u8]) -> (events: Vec<StreamEvent>)
        ensures
            final(self).fields() == old(self).fields(),
            ({
                let (c2, p2, ev) = decode_run(
                    old(self).fields(),
                    old(self).state(),
                    old(self).pending(),
                    chunk@,
                );
                final(self).state() == c2 && final(self).pending() == p2 && events_view(events@)
                    == ev
            }),
    {
        let ghost fields = self.fields();
        let ghost core0 = self.state();
        let ghost pending0 = self.pending();
        let lines = self.buf.push_bytes(chunk);
        let ghost ls = lines@.map_values(|l: Vec<u8>| l@);
        let mut events: Vec<StreamEvent> = Vec::new();
        let n = lines.len();
        let mut i: usize = 0;
        proof {
            assert(ls.take(0) =~= Seq::<Seq<u8>>::empty());
            assert(events_view(events@) =~= Seq::<StreamEventV>::empty());
        }
        while i < n
            invariant
                i <= n,
                n == lines@.len(),
                ls == lines@.map_values(|l: Vec<u8>| l@),
                self.fields() == fields,
                self.pending() == rem_of(pending0 + chunk@),
                ls == lines_of(pending0 + chunk@),
                ({
                    let (ci, ei) = run_lines(fields, core0, ls.take(i as int));
                    self.state() == ci && events_view(events@) == ei
                }),
            decreases n - i,
        {
            let ghost pre_core = self.state();
            let line = &lines[i];
            proof {
                assert(line@ == ls[i as int]);
            }
            let mut evs = self.step_line(line);
            events.append(&mut evs);
            proof {
                lemma_run_lines_snoc(fields, core0, ls.take(i as int), ls[i as int]);
                assert(ls.take(i as int).push(ls[i as int]) =~= ls.take(i as int + 1));
                assert(events_view(events@) =~= run_lines(fields, core0, ls.take(i as int + 1)).1);
            }
            i += 1;
        }
        proof {
            assert(ls.take(n as int) =~= ls);
        }
        events
    }

    /// End the stream: flush any tool calls still open as a final
    /// best-effort pass, then emit one `FinalResponse` carrying the vendor's
    /// usage counters, zero-filled where none were reported.
    pub fn finish(&mut self) -> (events: Vec<StreamEvent>)
        ensures
            final(self).fields() == old(self).fields(),
            final(self).state().acc.len() == 0,
            events_view(events@) == flush_events(old(self).state().acc) + seq![
                StreamEventV::FinalResponse {
                    usage: match old(self).state().usage {
                        Some(u) => u,
                        None => Usage { prompt_tokens: 0, completion_tokens: 0, total_tokens: 0 },
                    },
                },
            ],
    {
        let mut events = self.acc.flush();
        let usage = match self.usage {
            Some(u) => u,
            None => Usage::zero(),
        };
        events.push(StreamEvent::FinalResponse { usage });
        proof {
            assert(events_view(events@) =~= flush_events(old(self).state().acc) + seq![
                StreamEventV::FinalResponse {
                    usage: match old(self).state().usage {
                        Some(u) => u,
                        None => Usage { prompt_tokens: 0, completion_tokens: 0, total_tokens: 0 },
                    },
                },
            ]);
        }
        events
    }
}

} // verus!
