//! Tool-call accumulation: merges per-index delta fragments arriving across
//! stream chunks into complete tool calls, keyed by the vendor's per-chunk
//! index (ids may arrive late or be empty on early fragments).

use vstd::prelude::*;

use crate::events::{events_view, StreamEvent, StreamEventV, ToolCallPart, ToolCallPartV};

verus! {

/// One tool-call delta fragment as a vendor chunk carries it.
pub struct ToolFragment {
    pub index: Option<usize>,
    pub id: Option<String>,
    pub name: Option<String>,
    pub arguments: Option<String>,
}

/// Spec-level mirror of `ToolFragment`.
pub struct ToolFragmentV {
    pub index: Option<usize>,
    pub id: Option<Seq<char>>,
    pub name: Option<Seq<char>>,
    pub arguments: Option<Seq<char>>,
}

impl View for ToolFragment {
    type V = ToolFragmentV;

    open spec fn view(&self) -> ToolFragmentV {
        ToolFragmentV {
            index: self.index,
            id: match self.id {
                Some(ref s) => Some(s@),
                None => None,
            },
            name: match self.name {
                Some(ref s) => Some(s@),
                None => None,
            },
            arguments: match self.arguments {
                Some(ref s) => Some(s@),
                None => None,
            },
        }
    }
}

/// Accumulated state of one tool call under construction.
pub struct ToolCallState {
    pub id: String,
    pub name: String,
    pub arguments: String,
}

/// Spec-level mirror of `ToolCallState`.
pub struct ToolCallStateV {
    pub id: Seq<char>,
    pub name: Seq<char>,
    pub arguments: Seq<char>,
}

impl View for ToolCallState {
    type V = ToolCallStateV;

    open spec fn view(&self) -> ToolCallStateV {
        ToolCallStateV { id: self.id@, name: self.name@, arguments: self.arguments@ }
    }
}

/// The index slot a fragment addresses; a fragment without one addresses
/// slot zero.
pub open spec fn frag_index(f: ToolFragmentV) -> usize {
    match f.index {
        Some(i) => i,
        None => 0,
    }
}

/// The name text a fragment contributes (empty when it carries none).
pub open spec fn frag_name_piece(f: ToolFragmentV) -> Seq<char> {
    match f.name {
        Some(n) => n,
        None => Seq::empty(),
    }
}

/// The argument text a fragment contributes (empty when it carries none).
pub open spec fn frag_args_piece(f: ToolFragmentV) -> Seq<char> {
    match f.arguments {
        Some(a) => a,
        None => Seq::empty(),
    }
}

/// The id after a fragment is applied: a non-empty fragment id replaces the
/// stored one; otherwise the stored id stays.
pub open spec fn merged_id(prev: Seq<char>, f: ToolFragmentV) -> Seq<char> {
    match f.id {
        Some(i) => if i.len() > 0 {
            i
        } else {
            prev
        },
        None => prev,
    }
}

/// A fragment merged into one entry's state: the id is replaced when a
/// non-empty one arrives, name and argument text are appended in arrival
/// order.
pub open spec fn merge_state(st: ToolCallStateV, f: ToolFragmentV) -> ToolCallStateV {
    ToolCallStateV {
        id: merged_id(st.id, f),
        name: st.name + frag_name_piece(f),
        arguments: st.arguments + frag_args_piece(f),
    }
}

/// The state a fresh entry starts from.
pub open spec fn empty_state() -> ToolCallStateV {
    ToolCallStateV { id: Seq::empty(), name: Seq::empty(), arguments: Seq::empty() }
}

/// The accumulator contents after applying one fragment: the first entry
/// with the fragment's index is merged in place; with no such entry a fresh
/// one is appended.
pub open spec fn acc_apply(
    s: Seq<(usize, ToolCallStateV)>,
    f: ToolFragmentV,
) -> Seq<(usize, ToolCallStateV)>
    decreases s.len(),
{
    let idx = frag_index(f);
    if s.len() == 0 {
        seq![(idx, merge_state(empty_state(), f))]
    } else if s[0].0 == idx {
        seq![(idx, merge_state(s[0].1, f))] + s.drop_first()
    } else {
        seq![s[0]] + acc_apply(s.drop_first(), f)
    }
}

/// The accumulator contents after applying a sequence of fragments in order.
pub open spec fn acc_apply_all(
    s: Seq<(usize, ToolCallStateV)>,
    frags: Seq<ToolFragmentV>,
) -> Seq<(usize, ToolCallStateV)>
    decreases frags.len(),
{
    if frags.len() == 0 {
        s
    } else {
        acc_apply_all(acc_apply(s, frags[0]), frags.drop_first())
    }
}

/// The state stored for an index (the fresh state when none is stored).
pub open spec fn state_for(s: Seq<(usize, ToolCallStateV)>, idx: usize) -> ToolCallStateV
    decreases s.len(),
{
    if s.len() == 0 {
        empty_state()
    } else if s[0].0 == idx {
        s[0].1
    } else {
        state_for(s.drop_first(), idx)
    }
}

/// The `ToolCallDelta` events one fragment produces: a name delta when it
/// carries non-empty name text, then an argument delta when it carries
/// non-empty argument text, each under the id as updated by the fragment.
pub open spec fn apply_events(
    s: Seq<(usize, ToolCallStateV)>,
    f: ToolFragmentV,
) -> Seq<StreamEventV> {
    let id = merged_id(state_for(s, frag_index(f)).id, f);
    let name_events: Seq<StreamEventV> = if frag_name_piece(f).len() > 0 {
        seq![StreamEventV::ToolCallDelta { id: id, part: ToolCallPartV::Name(frag_name_piece(f)) }]
    } else {
        Seq::empty()
    };
    let args_events: Seq<StreamEventV> = if frag_args_piece(f).len() > 0 {
        seq![
            StreamEventV::ToolCallDelta {
                id: id,
                part: ToolCallPartV::ArgsFragment(frag_args_piece(f)),
            },
        ]
    } else {
        Seq::empty()
    };
    name_events + args_events
}

/// The `ToolCall` events a flush produces: one per stored entry, in storage
/// order.
pub open spec fn flush_events(s: Seq<(usize, ToolCallStateV)>) -> Seq<StreamEventV> {
    s.map_values(
        |e: (usize, ToolCallStateV)|
            StreamEventV::ToolCall { id: e.1.id, name: e.1.name, arguments: e.1.arguments },
    )
}

/// Merges per-index tool-call fragments; an entry lives from its first
/// fragment until a flush hands it out as one complete `ToolCall` event.
pub struct ToolCallAccumulator {
    entries: Vec<(usize, ToolCallState)>,
}

impl View for ToolCallAccumulator {
    type V = Seq<(usize, ToolCallStateV)>;

    closed spec fn view(&self) -> Seq<(usize, ToolCallStateV)> {
        self.entries@.map_values(|e: (usize, ToolCallState)| (e.0, e.1@))
    }
}

impl ToolCallAccumulator {
    /// An empty accumulator.
    pub fn new() -> (r: Self)
        ensures
            r@ == Seq::<(usize, ToolCallStateV)>::empty(),
    {
        let r = ToolCallAccumulator { entries: Vec::new() };
        proof {
            assert(r@ =~= Seq::<(usize, ToolCallStateV)>::empty());
        }
        r
    }

    /// How many tool calls are under construction.
    pub fn len(&self) -> (r: usize)
        ensures
            r == self@.len(),
    {
        self.entries.len()
    }

    /// The position of the first entry with this index, if any.
    fn find_slot(&self, idx: usize) -> (r: Option<usize>)
        ensures
            match r {
                Some(j) => j < self@.len() && self@[j as int].0 == idx && forall|i: int|
                    0 <= i < j ==> self@[i].0 != idx,
                None => forall|i: int| 0 <= i < self@.len() ==> self@[i].0 != idx,
            },
    {
        let n = self.entries.len();
        let mut i: usize = 0;
        while i < n
            invariant
                i <= n,
                n == self@.len(),
                forall|k: int| 0 <= k < i ==> self@[k].0 != idx,
            decreases n - i,
        {
            if self.entries[i].0 == idx {
                return Some(i);
            }
            i += 1;
        }
        None
    }

    /// Merge one fragment and return the delta events it produces.
    pub fn apply_fragment(&mut self, frag: &ToolFragment) -> (events: Vec<StreamEvent>)
        ensures
            final(self)@ == acc_apply(old(self)@, frag@),
            events_view(events@) == apply_events(old(self)@, frag@),
    {
        let idx = match frag.index {
            Some(i) => i,
            None => 0,
        };
        proof {
            assert(frag_index(frag@) == idx);
        }
        let ghost old_view = self@;
        let result_id: String;
        match self.find_slot(idx) {
            Some(j) => {
                let (_k, st) = self.entries.remove(j);
                proof {
                    assert(old_view[j as int] == (_k, st@));
                }
                let m = Self::merge_exec(st, frag);
                result_id = m.id.clone();
                self.entries.insert(j, (idx, m));
                proof {
                    lemma_acc_apply_found(old_view, frag@, j as int);
                    lemma_state_for_found(old_view, idx, j as int);
                    assert(self@ =~= old_view.take(j as int).push(
                        (idx, merge_state(old_view[j as int].1, frag@)),
                    ) + old_view.skip(j as int + 1));
                }
            },
            None => {
                let fresh = ToolCallState {
                    id: String::new(),
                    name: String::new(),
                    arguments: String::new(),
                };
                let m = Self::merge_exec(fresh, frag);
                result_id = m.id.clone();
                self.entries.push((idx, m));
                proof {
                    lemma_acc_apply_missing(old_view, frag@);
                    lemma_state_for_missing(old_view, idx);
                    assert(self@ =~= old_view.push((idx, merge_state(empty_state(), frag@))));
                }
            },
        }
        proof {
            assert(result_id@ == merged_id(state_for(old_view, idx).id, frag@));
        }
        let mut events: Vec<StreamEvent> = Vec::new();
        if let Some(name) = &frag.name {
            if !name.as_str().is_empty() {
                events.push(
                    StreamEvent::ToolCallDelta {
                        id: result_id.clone(),
                        part: ToolCallPart::Name(name.clone()),
                    },
                );
            }
        }
        if let Some(args) = &frag.arguments {
            if !args.as_str().is_empty() {
                events.push(
                    StreamEvent::ToolCallDelta {
                        id: result_id.clone(),
                        part: ToolCallPart::ArgsFragment(args.clone()),
                    },
                );
            }
        }
        proof {
            assert(events_view(events@) =~= apply_events(old_view, frag@));
        }
        events
    }

    /// Merge one fragment into one entry's state.
    fn merge_exec(st: ToolCallState, frag: &ToolFragment) -> (r: ToolCallState)
        ensures
            r@ == merge_state(st@, frag@),
    {
        let mut st = st;
        if let Some(id) = &frag.id {
            if !id.as_str().is_empty() {
                st.id = id.clone();
            }
        }
        match &frag.name {
            Some(n) => st.name.append(n.as_str()),
            None => {
                proof {
                    assert(st.name@ + frag_name_piece(frag@) =~= st.name@);
                }
            },
        }
        match &frag.arguments {
            Some(a) => st.arguments.append(a.as_str()),
            None => {
                proof {
                    assert(st.arguments@ + frag_args_piece(frag@) =~= st.arguments@);
                }
            },
        }
        st
    }

    /// Hand out every accumulated entry as one complete `ToolCall` event, in
    /// storage order, and clear the accumulator: emission clears the slot, so
    /// no entry is ever emitted twice.
    pub fn flush(&mut self) -> (events: Vec<StreamEvent>)
        ensures
            final(self)@.len() == 0,
            events_view(events@) == flush_events(old(self)@),
    {
        let ghost old_view = self@;
        let n = self.entries.len();
        let mut events: Vec<StreamEvent> = Vec::new();
        let mut i: usize = 0;
        proof {
            assert(events_view(events@) =~= flush_events(old_view.take(0)));
        }
        while i < n
            invariant
                i <= n,
                n == self@.len(),
                self@ == old_view,
                events_view(events@) == flush_events(old_view.take(i as int)),
            decreases n - i,
        {
            let e = &self.entries[i];
            proof {
                assert(self@[i as int] == (self.entries@[i as int].0, self.entries@[i as int].1@));
                assert(e.1@ == old_view[i as int].1);
            }
            let ev = StreamEvent::ToolCall {
                id: e.1.id.clone(),
                name: e.1.name.clone(),
                arguments: e.1.arguments.clone(),
            };
            proof {
                assert(ev@ == StreamEventV::ToolCall {
                    id: old_view[i as int].1.id,
                    name: old_view[i as int].1.name,
                    arguments: old_view[i as int].1.arguments,
                });
            }
            let ghost prev_events = events@;
            events.push(ev);
            proof {
                assert(events@ == prev_events.push(ev));
                assert(events_view(events@) =~= events_view(prev_events).push(ev@));
                assert(flush_events(old_view.take(i as int + 1)) =~= flush_events(
                    old_view.take(i as int),
                ).push(ev@));
                assert(events_view(events@) =~= flush_events(old_view.take(i as int + 1)));
            }
            i += 1;
        }
        self.entries = Vec::new();
        proof {
            assert(old_view.take(n as int) =~= old_view);
            assert(self@ =~= Seq::<(usize, ToolCallStateV)>::empty());
        }
        events
    }
}

/// Where the first entry with the fragment's index stands at position `j`,
/// applying the fragment merges exactly that entry in place.
proof fn lemma_acc_apply_found(s: Seq<(usize, ToolCallStateV)>, f: ToolFragmentV, j: int)
    requires
        0 <= j < s.len(),
        s[j].0 == frag_index(f),
        forall|i: int| 0 <= i < j ==> s[i].0 != frag_index(f),
    ensures
        acc_apply(s, f) == s.take(j).push((frag_index(f), merge_state(s[j].1, f))) + s.skip(j + 1),
    decreases j,
{
    let idx = frag_index(f);
    if j == 0 {
        assert(acc_apply(s, f) =~= s.take(0).push((idx, merge_state(s[0].1, f))) + s.skip(1));
    } else {
        assert(s.drop_first()[j - 1] == s[j]);
        assert(forall|i: int| 0 <= i < j - 1 ==> s.drop_first()[i] == s[i + 1]);
        lemma_acc_apply_found(s.drop_first(), f, j - 1);
        assert(s.drop_first().take(j - 1) =~= s.skip(1).take(j - 1));
        assert(acc_apply(s, f) =~= s.take(j).push((idx, merge_state(s[j].1, f))) + s.skip(j + 1));
    }
}

/// Where no entry has the fragment's index, applying the fragment appends a
/// fresh entry.
proof fn lemma_acc_apply_missing(s: Seq<(usize, ToolCallStateV)>, f: ToolFragmentV)
    requires
        forall|i: int| 0 <= i < s.len() ==> s[i].0 != frag_index(f),
    ensures
        acc_apply(s, f) == s.push((frag_index(f), merge_state(empty_state(), f))),
    decreases s.len(),
{
    if s.len() == 0 {
        assert(acc_apply(s, f) =~= s.push((frag_index(f), merge_state(empty_state(), f))));
    } else {
        assert(forall|i: int| 0 <= i < s.drop_first().len() ==> s.drop_first()[i] == s[i + 1]);
        lemma_acc_apply_missing(s.drop_first(), f);
        assert(acc_apply(s, f) =~= s.push((frag_index(f), merge_state(empty_state(), f))));
    }
}

/// Where the first entry with the index stands at position `j`, the stored
/// state for that index is that entry's state.
proof fn lemma_state_for_found(s: Seq<(usize, ToolCallStateV)>, idx: usize, j: int)
    requires
        0 <= j < s.len(),
        s[j].0 == idx,
        forall|i: int| 0 <= i < j ==> s[i].0 != idx,
    ensures
        state_for(s, idx) == s[j].1,
    decreases j,
{
    if j > 0 {
        assert(forall|i: int| 0 <= i < j - 1 ==> s.drop_first()[i] == s[i + 1]);
        assert(s.drop_first()[j - 1] == s[j]);
        lemma_state_for_found(s.drop_first(), idx, j - 1);
    }
}

/// Where no entry has the index, the stored state for it is the fresh state.
proof fn lemma_state_for_missing(s: Seq<(usize, ToolCallStateV)>, idx: usize)
    requires
        forall|i: int| 0 <= i < s.len() ==> s[i].0 != idx,
    ensures
        state_for(s, idx) == empty_state(),
    decreases s.len(),
{
    if s.len() > 0 {
        assert(forall|i: int|
            0 <= i < s.drop_first().len() ==> s.drop_first()[i] == s[i + 1]);
        lemma_state_for_missing(s.drop_first(), idx);
    }
}

/// The name text contributed by a fragment sequence, in arrival order.
pub open spec fn name_concat(frags: Seq<ToolFragmentV>) -> Seq<char>
    decreases frags.len(),
{
    if frags.len() == 0 {
        Seq::empty()
    } else {
        frag_name_piece(frags[0]) + name_concat(frags.drop_first())
    }
}

/// The argument text contributed by a fragment sequence, in arrival order.
pub open spec fn args_concat(frags: Seq<ToolFragmentV>) -> Seq<char>
    decreases frags.len(),
{
    if frags.len() == 0 {
        Seq::empty()
    } else {
        frag_args_piece(frags[0]) + args_concat(frags.drop_first())
    }
}

/// Applying fragments that all share one index to a single-entry accumulator
/// keeps one entry and appends every name and argument piece in order.
proof fn lemma_apply_all_single(st: ToolCallStateV, idx: usize, frags: Seq<ToolFragmentV>)
    requires
        forall|i: int| 0 <= i < frags.len() ==> frag_index(#[trigger] frags[i]) == idx,
    ensures
        ({
            let s = acc_apply_all(seq![(idx, st)], frags);
            &&& s.len() == 1
            &&& s[0].0 == idx
            &&& s[0].1.name == st.name + name_concat(frags)
            &&& s[0].1.arguments == st.arguments + args_concat(frags)
        }),
    decreases frags.len(),
{
    if frags.len() == 0 {
        assert(st.name + name_concat(frags) =~= st.name);
        assert(st.arguments + args_concat(frags) =~= st.arguments);
    } else {
        let f = frags[0];
        let merged = merge_state(st, f);
        assert(acc_apply(seq![(idx, st)], f) =~= seq![(idx, merged)]);
        assert(forall|i: int|
            0 <= i < frags.drop_first().len() ==> frags.drop_first()[i] == frags[i + 1]);
        lemma_apply_all_single(merged, idx, frags.drop_first());
        assert(merged.name + name_concat(frags.drop_first()) =~= st.name + name_concat(frags));
        assert(merged.arguments + args_concat(frags.drop_first()) =~= st.arguments + args_concat(
            frags,
        ));
    }
}

/// Tool-call reassembly: for any sequence of delta fragments sharing one
/// index, applied in arrival order to an empty accumulator, the single
/// resulting entry's name is the concatenation of all name pieces and its
/// arguments are the concatenation of all argument pieces, in that order.
/// A later flush hands exactly this entry out as the final `ToolCall`.
pub proof fn lemma_tool_call_reassembly(frags: Seq<ToolFragmentV>, idx: usize)
    requires
        frags.len() > 0,
        forall|i: int| 0 <= i < frags.len() ==> frag_index(#[trigger] frags[i]) == idx,
    ensures
        ({
            let s = acc_apply_all(Seq::empty(), frags);
            &&& s.len() == 1
            &&& s[0].0 == idx
            &&& s[0].1.name == name_concat(frags)
            &&& s[0].1.arguments == args_concat(frags)
            &&& flush_events(s) == seq![
                StreamEventV::ToolCall {
                    id: s[0].1.id,
                    name: name_concat(frags),
                    arguments: args_concat(frags),
                },
            ]
        }),
{
    let f = frags[0];
    let first = merge_state(empty_state(), f);
    assert(acc_apply(Seq::empty(), f) =~= seq![(idx, first)]);
    assert(forall|i: int|
        0 <= i < frags.drop_first().len() ==> frags.drop_first()[i] == frags[i + 1]);
    lemma_apply_all_single(first, idx, frags.drop_first());
    let s = acc_apply_all(Seq::empty(), frags);
    assert(s[0].1.name =~= name_concat(frags));
    assert(s[0].1.arguments =~= args_concat(frags));
    assert(flush_events(s) =~= seq![
        StreamEventV::ToolCall { id: s[0].1.id, name: s[0].1.name, arguments: s[0].1.arguments },
    ]);
}

} // verus!
