//! The SSE session for one chat request: serializes canonical events into
//! wire frames with the stable event-type vocabulary (`text`, `thought`,
//! `tool_call`, `tool_result`, `done`, `error`), accumulates the full text
//! and reasoning, gathers deduplicated sources from recognized search
//! tools, and ends every session with exactly one `done` or `error` frame.

use vstd::prelude::*;

use vstd::string::StringSliceAdditionalSpecFns;

use crate::json::{json_compact, json_compact_of, json_quote, json_quoted};
use crate::sources::{
    collect_web_search_sources, feed_all, is_tavily_search_tool_name, result_sources,
    spec_is_search_tool, ResearchSource, ResearchSourceV, SourceMap,
};
use crate::tags::{split_spec, TaggedTextParser, TextPiece, TextPieceV};

verus! {

/// The JSON body of one `text` frame.
pub open spec fn text_frame_spec(content: Seq<char>) -> Seq<char> {
    "{\"content\":"@ + json_quoted(content) + ",\"type\":\"text\"}"@
}

/// The JSON body of one `thought` frame.
pub open spec fn thought_frame_spec(content: Seq<char>) -> Seq<char> {
    "{\"content\":"@ + json_quoted(content) + ",\"type\":\"thought\"}"@
}

/// The JSON body of one `tool_call` frame.
pub open spec fn tool_call_frame_spec(id: Seq<char>, name: Seq<char>, args: Seq<char>) -> Seq<
    char,
> {
    "{\"arguments\":"@ + json_quoted(args) + ",\"id\":"@ + json_quoted(id) + ",\"name\":"@
        + json_quoted(name) + ",\"type\":\"tool_call\"}"@
}

/// The serialized output of a tool result: the parsed JSON in compact form
/// where the text parses, the text as a JSON string otherwise.
pub open spec fn output_norm(data: Seq<u8>, raw: Seq<char>) -> Seq<char> {
    match json_compact_of(data) {
        Some(c) => c,
        None => json_quoted(raw),
    }
}

/// The JSON body of one `tool_result` frame.
pub open spec fn tool_result_frame_spec(
    id: Seq<char>,
    name: Option<Seq<char>>,
    output: Seq<char>,
) -> Seq<char> {
    "{\"id\":"@ + json_quoted(id) + ",\"name\":"@ + (match name {
        Some(n) => json_quoted(n),
        None => "null"@,
    }) + ",\"output\":"@ + output + ",\"status\":\"done\",\"type\":\"tool_result\"}"@
}

/// One source as a JSON object of its title and URI.
pub open spec fn source_item_spec(s: ResearchSourceV) -> Seq<char> {
    "{\"title\":"@ + json_quoted(s.title) + ",\"uri\":"@ + json_quoted(s.url) + "}"@
}

/// The comma-separated source items.
pub open spec fn sources_items_spec(s: Seq<ResearchSourceV>) -> Seq<char>
    decreases s.len(),
{
    if s.len() == 0 {
        Seq::empty()
    } else if s.len() == 1 {
        source_item_spec(s[0])
    } else {
        sources_items_spec(s.drop_last()) + ","@ + source_item_spec(s.last())
    }
}

/// The JSON body of the terminal `done` frame: the accumulated full text,
/// the gathered sources where any search tool ran, and the accumulated
/// reasoning where any arrived.
pub open spec fn done_frame_spec(
    content: Seq<char>,
    thought: Seq<char>,
    sources: Seq<ResearchSourceV>,
) -> Seq<char> {
    "{\"content\":"@ + json_quoted(content) + (if sources.len() > 0 {
        ",\"sources\":["@ + sources_items_spec(sources) + "]"@
    } else {
        Seq::empty()
    }) + (if thought.len() > 0 {
        ",\"thought\":"@ + json_quoted(thought)
    } else {
        Seq::empty()
    }) + ",\"type\":\"done\"}"@
}

/// The JSON body of the terminal `error` frame.
pub open spec fn error_frame_spec(err: Seq<char>) -> Seq<char> {
    "{\"error\":"@ + json_quoted(err) + ",\"type\":\"error\"}"@
}

/// The visible text contributed by split pieces, in order.
pub open spec fn visible_concat(ps: Seq<TextPieceV>) -> Seq<char>
    decreases ps.len(),
{
    if ps.len() == 0 {
        Seq::empty()
    } else {
        (match ps[0] {
            TextPieceV::Visible(s) => s,
            TextPieceV::Thought(_) => Seq::empty(),
        }) + visible_concat(ps.drop_first())
    }
}

/// The thought text contributed by split pieces, in order.
pub open spec fn thought_concat(ps: Seq<TextPieceV>) -> Seq<char>
    decreases ps.len(),
{
    if ps.len() == 0 {
        Seq::empty()
    } else {
        (match ps[0] {
            TextPieceV::Visible(_) => Seq::empty(),
            TextPieceV::Thought(s) => s,
        }) + thought_concat(ps.drop_first())
    }
}

/// The frames split pieces produce: one per non-empty piece, in order.
pub open spec fn piece_frames(ps: Seq<TextPieceV>) -> Seq<Seq<char>>
    decreases ps.len(),
{
    if ps.len() == 0 {
        Seq::empty()
    } else {
        (match ps[0] {
            TextPieceV::Visible(s) => if s.len() > 0 {
                seq![text_frame_spec(s)]
            } else {
                Seq::empty()
            },
            TextPieceV::Thought(s) => if s.len() > 0 {
                seq![thought_frame_spec(s)]
            } else {
                Seq::empty()
            },
        }) + piece_frames(ps.drop_first())
    }
}

/// Appending one piece extends all three folds at the end.
proof fn lemma_pieces_snoc(ps: Seq<TextPieceV>, p: TextPieceV)
    ensures
        visible_concat(ps.push(p)) == visible_concat(ps) + (match p {
            TextPieceV::Visible(s) => s,
            TextPieceV::Thought(_) => Seq::empty(),
        }),
        thought_concat(ps.push(p)) == thought_concat(ps) + (match p {
            TextPieceV::Visible(_) => Seq::empty(),
            TextPieceV::Thought(s) => s,
        }),
        piece_frames(ps.push(p)) == piece_frames(ps) + (match p {
            TextPieceV::Visible(s) => if s.len() > 0 {
                seq![text_frame_spec(s)]
            } else {
                Seq::<Seq<char>>::empty()
            },
            TextPieceV::Thought(s) => if s.len() > 0 {
                seq![thought_frame_spec(s)]
            } else {
                Seq::<Seq<char>>::empty()
            },
        }),
    decreases ps.len(),
{
    if ps.len() == 0 {
        assert(ps.push(p)[0] == p);
        assert(ps.push(p).drop_first() =~= Seq::<TextPieceV>::empty());
        assert(visible_concat(Seq::<TextPieceV>::empty()) =~= Seq::<char>::empty());
        assert(thought_concat(Seq::<TextPieceV>::empty()) =~= Seq::<char>::empty());
        assert(piece_frames(Seq::<TextPieceV>::empty()) =~= Seq::<Seq<char>>::empty());
        assert(visible_concat(ps.push(p)) =~= visible_concat(ps) + (match p {
            TextPieceV::Visible(s) => s,
            TextPieceV::Thought(_) => Seq::<char>::empty(),
        }));
        assert(thought_concat(ps.push(p)) =~= thought_concat(ps) + (match p {
            TextPieceV::Visible(_) => Seq::<char>::empty(),
            TextPieceV::Thought(s) => s,
        }));
        assert(piece_frames(ps.push(p)) =~= piece_frames(ps) + (match p {
            TextPieceV::Visible(s) => if s.len() > 0 {
                seq![text_frame_spec(s)]
            } else {
                Seq::<Seq<char>>::empty()
            },
            TextPieceV::Thought(s) => if s.len() > 0 {
                seq![thought_frame_spec(s)]
            } else {
                Seq::<Seq<char>>::empty()
            },
        }));
    } else {
        assert(ps.push(p)[0] == ps[0]);
        assert(ps.push(p).drop_first() =~= ps.drop_first().push(p));
        lemma_pieces_snoc(ps.drop_first(), p);
        assert(visible_concat(ps.push(p)) =~= visible_concat(ps) + (match p {
            TextPieceV::Visible(s) => s,
            TextPieceV::Thought(_) => Seq::<char>::empty(),
        }));
        assert(thought_concat(ps.push(p)) =~= thought_concat(ps) + (match p {
            TextPieceV::Visible(_) => Seq::<char>::empty(),
            TextPieceV::Thought(s) => s,
        }));
        assert(piece_frames(ps.push(p)) =~= piece_frames(ps) + (match p {
            TextPieceV::Visible(s) => if s.len() > 0 {
                seq![text_frame_spec(s)]
            } else {
                Seq::<Seq<char>>::empty()
            },
            TextPieceV::Thought(s) => if s.len() > 0 {
                seq![thought_frame_spec(s)]
            } else {
                Seq::<Seq<char>>::empty()
            },
        }));
    }
}

/// The name recorded for a tool-call id, if any (first record wins).
pub open spec fn lookup_name(names: Seq<(Seq<char>, Seq<char>)>, id: Seq<char>) -> Option<
    Seq<char>,
>
    decreases names.len(),
{
    if names.len() == 0 {
        None
    } else if names[0].0 == id {
        Some(names[0].1)
    } else {
        lookup_name(names.drop_first(), id)
    }
}

/// One chat request's SSE session state.
pub struct ChatSession {
    parser: TaggedTextParser,
    full_content: String,
    full_thought: String,
    sources: SourceMap,
    tool_names: Vec<(String, String)>,
    terminated: bool,
}

impl ChatSession {
    /// The accumulated visible text.
    pub closed spec fn content(&self) -> Seq<char> {
        self.full_content@
    }

    /// The accumulated reasoning text.
    pub closed spec fn thought(&self) -> Seq<char> {
        self.full_thought@
    }

    /// The gathered deduplicated sources.
    pub closed spec fn sources_view(&self) -> Seq<ResearchSourceV> {
        self.sources@
    }

    /// The recorded tool-call names.
    pub closed spec fn names_view(&self) -> Seq<(Seq<char>, Seq<char>)> {
        self.tool_names@.map_values(|e: (String, String)| (e.0@, e.1@))
    }

    /// Whether the one terminal frame was already produced.
    pub closed spec fn terminated(&self) -> bool {
        self.terminated
    }

    /// The splitter state carried between text chunks.
    pub closed spec fn splitter_state(&self) -> (bool, bool) {
        (self.parser.enable_tags, self.parser.in_thought_block)
    }

    /// A fresh session. Tag parsing is enabled for vendors that inline
    /// reasoning in plain text.
    pub fn new(enable_tag_parsing: bool) -> (r: Self)
        ensures
            r.content() == Seq::<char>::empty(),
            r.thought() == Seq::<char>::empty(),
            r.sources_view() == Seq::<ResearchSourceV>::empty(),
            r.names_view() == Seq::<(Seq<char>, Seq<char>)>::empty(),
            !r.terminated(),
            r.splitter_state() == (enable_tag_parsing, false),
    {
        let r = ChatSession {
            parser: TaggedTextParser::new(enable_tag_parsing),
            full_content: String::new(),
            full_thought: String::new(),
            sources: SourceMap::new(),
            tool_names: Vec::new(),
            terminated: false,
        };
        proof {
            assert(r.names_view() =~= Seq::<(Seq<char>, Seq<char>)>::empty());
        }
        r
    }

    /// Take one text delta: split it into visible and thought pieces, emit
    /// one frame per non-empty piece, and extend the accumulated text.
    pub fn on_text(&mut self, text: &str) -> (frames: Vec<String>)
        requires
            !old(self).terminated(),
        ensures
            !final(self).terminated(),
            final(self).sources_view() == old(self).sources_view(),
            final(self).names_view() == old(self).names_view(),
            final(self).splitter_state().0 == old(self).splitter_state().0,
            final(self).splitter_state().1 == (if old(self).splitter_state().0 {
                split_spec(old(self).splitter_state().1, text@).1
            } else {
                old(self).splitter_state().1
            }),
            ({
                let ps = if old(self).splitter_state().0 {
                    split_spec(old(self).splitter_state().1, text@).0
                } else {
                    seq![TextPieceV::Visible(text@)]
                };
                &&& frames@.map_values(|f: String| f@) == piece_frames(ps)
                &&& final(self).content() == old(self).content() + visible_concat(ps)
                &&& final(self).thought() == old(self).thought() + thought_concat(ps)
            }),
    {
        let pieces = self.parser.handle(text);
        let ghost ps = pieces@.map_values(|p: TextPiece| p@);
        let ghost parser_state = self.parser.in_thought_block;
        proof {
            if !old(self).splitter_state().0 {
                assert(ps == seq![TextPieceV::Visible(text@)]);
            }
        }
        let mut frames: Vec<String> = Vec::new();
        let n = pieces.len();
        let mut i: usize = 0;
        proof {
            assert(ps.take(0) =~= Seq::<TextPieceV>::empty());
            assert(frames@.map_values(|f: String| f@) =~= piece_frames(ps.take(0)));
            assert(self.content() + visible_concat(ps.take(0)) =~= self.content());
            assert(self.thought() + thought_concat(ps.take(0)) =~= self.thought());
        }
        while i < n
            invariant
                i <= n,
                n == pieces@.len(),
                ps == pieces@.map_values(|p: TextPiece| p@),
                !self.terminated,
                self.sources@ == old(self).sources_view(),
                self.tool_names@.map_values(|e: (String, String)| (e.0@, e.1@)) == old(
                    self,
                ).names_view(),
                self.parser.enable_tags == old(self).splitter_state().0,
                self.parser.in_thought_block == parser_state,
                parser_state == (if old(self).splitter_state().0 {
                    split_spec(old(self).splitter_state().1, text@).1
                } else {
                    old(self).splitter_state().1
                }),
                frames@.map_values(|f: String| f@) == piece_frames(ps.take(i as int)),
                self.full_content@ == old(self).content() + visible_concat(ps.take(i as int)),
                self.full_thought@ == old(self).thought() + thought_concat(ps.take(i as int)),
            decreases n - i,
        {
            proof {
                lemma_pieces_snoc(ps.take(i as int), ps[i as int]);
                assert(ps.take(i as int).push(ps[i as int]) =~= ps.take(i as int + 1));
                assert(pieces@[i as int]@ == ps[i as int]);
            }
            match &pieces[i] {
                TextPiece::Visible(s) => {
                    if !s.as_str().is_empty() {
                        let mut frame = String::new();
                        frame.append("{\"content\":");
                        let q = json_quote(s.as_str());
                        frame.append(q.as_str());
                        frame.append(",\"type\":\"text\"}");
                        proof {
                            assert(frame@ =~= text_frame_spec(s@));
                        }
                        let ghost prev = frames@;
                        frames.push(frame);
                        proof {
                            assert(frames@.map_values(|f: String| f@) =~= prev.map_values(
                                |f: String| f@,
                            ).push(text_frame_spec(s@)));
                        }
                    }
                    self.full_content.append(s.as_str());
                    proof {
                        assert(frames@.map_values(|f: String| f@) =~= piece_frames(
                            ps.take(i as int + 1),
                        ));
                        assert(self.full_content@ =~= old(self).content() + visible_concat(
                            ps.take(i as int + 1),
                        ));
                        assert(self.full_thought@ =~= old(self).thought() + thought_concat(
                            ps.take(i as int + 1),
                        ));
                    }
                },
                TextPiece::Thought(s) => {
                    if !s.as_str().is_empty() {
                        let mut frame = String::new();
                        frame.append("{\"content\":");
                        let q = json_quote(s.as_str());
                        frame.append(q.as_str());
                        frame.append(",\"type\":\"thought\"}");
                        proof {
                            assert(frame@ =~= thought_frame_spec(s@));
                        }
                        let ghost prev = frames@;
                        frames.push(frame);
                        proof {
                            assert(frames@.map_values(|f: String| f@) =~= prev.map_values(
                                |f: String| f@,
                            ).push(thought_frame_spec(s@)));
                        }
                    }
                    self.full_thought.append(s.as_str());
                    proof {
                        assert(frames@.map_values(|f: String| f@) =~= piece_frames(
                            ps.take(i as int + 1),
                        ));
                        assert(self.full_content@ =~= old(self).content() + visible_concat(
                            ps.take(i as int + 1),
                        ));
                        assert(self.full_thought@ =~= old(self).thought() + thought_concat(
                            ps.take(i as int + 1),
                        ));
                    }
                },
            }
            i += 1;
        }
        proof {
            assert(ps.take(n as int) =~= ps);
        }
        frames
    }

    /// Take one reasoning delta: emit one `thought` frame where non-empty.
    pub fn on_reasoning(&mut self, text: &str) -> (frame: Option<String>)
        requires
            !old(self).terminated(),
        ensures
            !final(self).terminated(),
            final(self).content() == old(self).content(),
            final(self).sources_view() == old(self).sources_view(),
            final(self).names_view() == old(self).names_view(),
            final(self).splitter_state() == old(self).splitter_state(),
            text@.len() == 0 ==> frame is None && final(self).thought() == old(self).thought(),
            text@.len() > 0 ==> {
                &&& frame matches Some(f) && f@ == thought_frame_spec(text@)
                &&& final(self).thought() == old(self).thought() + text@
            },
    {
        if text.is_empty() {
            return None;
        }
        self.full_thought.append(text);
        let mut frame = String::new();
        frame.append("{\"content\":");
        let q = json_quote(text);
        frame.append(q.as_str());
        frame.append(",\"type\":\"thought\"}");
        proof {
            assert(frame@ =~= thought_frame_spec(text@));
        }
        Some(frame)
    }

    /// Take one completed tool call: record its name for the result and
    /// emit one `tool_call` frame.
    pub fn on_tool_call(&mut self, id: &str, name: &str, arguments: &str) -> (frame: String)
        requires
            !old(self).terminated(),
        ensures
            !final(self).terminated(),
            final(self).content() == old(self).content(),
            final(self).thought() == old(self).thought(),
            final(self).sources_view() == old(self).sources_view(),
            final(self).splitter_state() == old(self).splitter_state(),
            final(self).names_view() == old(self).names_view().push((id@, name@)),
            frame@ == tool_call_frame_spec(id@, name@, arguments@),
    {
        self.tool_names.push((id.to_owned(), name.to_owned()));
        proof {
            assert(self.tool_names@.map_values(|e: (String, String)| (e.0@, e.1@)) =~= old(
                self,
            ).names_view().push((id@, name@)));
        }
        let mut frame = String::new();
        frame.append("{\"arguments\":");
        let qa = json_quote(arguments);
        frame.append(qa.as_str());
        frame.append(",\"id\":");
        let qi = json_quote(id);
        frame.append(qi.as_str());
        frame.append(",\"name\":");
        let qn = json_quote(name);
        frame.append(qn.as_str());
        frame.append(",\"type\":\"tool_call\"}");
        proof {
            assert(frame@ =~= tool_call_frame_spec(id@, name@, arguments@));
        }
        frame
    }

    /// Look up the recorded name for a tool-call id.
    fn find_name(&self, id: &str) -> (r: Option<String>)
        ensures
            match r {
                Some(n) => lookup_name(self.names_view(), id@) == Some(n@),
                None => lookup_name(self.names_view(), id@) is None,
            },
    {
        let ghost names = self.names_view();
        proof {
            assert(names.skip(0) =~= names);
        }
        let n = self.tool_names.len();
        let mut i: usize = 0;
        while i < n
            invariant
                i <= n,
                n == self.tool_names@.len(),
                names == self.names_view(),
                lookup_name(names, id@) == lookup_name(names.skip(i as int), id@),
            decreases n - i,
        {
            proof {
                assert(names.skip(i as int)[0] == names[i as int]);
                assert(names[i as int] == (self.tool_names@[i as int].0@,
                self.tool_names@[i as int].1@));
            }
            if crate::text::str_eq(self.tool_names[i].0.as_str(), id) {
                return Some(self.tool_names[i].1.clone());
            }
            proof {
                assert(names.skip(i as int).drop_first() =~= names.skip(i as int + 1));
            }
            i += 1;
        }
        proof {
            assert(names.skip(n as int).len() == 0);
        }
        None
    }

    /// Take one tool result: emit one `tool_result` frame, and merge the
    /// result's sources where the originating tool is a recognized search
    /// tool.
    pub fn on_tool_result(&mut self, id: &str, output: &str) -> (frame: String)
        requires
            !old(self).terminated(),
        ensures
            !final(self).terminated(),
            final(self).content() == old(self).content(),
            final(self).thought() == old(self).thought(),
            final(self).names_view() == old(self).names_view(),
            final(self).splitter_state() == old(self).splitter_state(),
            ({
                let name = lookup_name(old(self).names_view(), id@);
                &&& frame@ == tool_result_frame_spec(
                    id@,
                    name,
                    output_norm(output.spec_bytes(), output@),
                )
                &&& final(self).sources_view() == (match name {
                    Some(n) => if spec_is_search_tool(n) {
                        feed_all(old(self).sources_view(), result_sources(output.spec_bytes()))
                    } else {
                        old(self).sources_view()
                    },
                    None => old(self).sources_view(),
                })
            }),
    {
        let name = self.find_name(id);
        match &name {
            Some(n) => {
                if is_tavily_search_tool_name(n.as_str()) {
                    collect_web_search_sources(&mut self.sources, output.as_bytes());
                }
            },
            None => {},
        }
        let out = match json_compact(output.as_bytes()) {
            Some(c) => c,
            None => json_quote(output),
        };
        let mut frame = String::new();
        frame.append("{\"id\":");
        let qi = json_quote(id);
        frame.append(qi.as_str());
        frame.append(",\"name\":");
        match &name {
            Some(n) => {
                let qn = json_quote(n.as_str());
                frame.append(qn.as_str());
            },
            None => {
                frame.append("null");
            },
        }
        frame.append(",\"output\":");
        frame.append(out.as_str());
        frame.append(",\"status\":\"done\",\"type\":\"tool_result\"}");
        proof {
            assert(frame@ =~= tool_result_frame_spec(
                id@,
                lookup_name(old(self).names_view(), id@),
                output_norm(output.spec_bytes(), output@),
            ));
        }
        frame
    }

    /// Build the comma-separated JSON items for the gathered sources.
    fn sources_items(&self) -> (r: String)
        ensures
            r@ == sources_items_spec(self.sources_view()),
    {
        let mut out = String::new();
        let n = self.sources.len();
        let mut i: usize = 0;
        while i < n
            invariant
                i <= n,
                n == self.sources_view().len(),
                out@ == sources_items_spec(self.sources_view().take(i as int)),
            decreases n - i,
        {
            proof {
                assert(self.sources_view().take(i as int + 1).drop_last()
                    =~= self.sources_view().take(i as int));
                assert(self.sources_view().take(i as int + 1).last() == self.sources_view()[
                    i as int]);
            }
            if i > 0 {
                out.append(",");
            }
            let src = self.sources.get(i);
            out.append("{\"title\":");
            let qt = json_quote(src.title.as_str());
            out.append(qt.as_str());
            out.append(",\"uri\":");
            let qu = json_quote(src.url.as_str());
            out.append(qu.as_str());
            out.append("}");
            proof {
                if i == 0 {
                    assert(out@ =~= sources_items_spec(self.sources_view().take(1)));
                } else {
                    assert(out@ =~= sources_items_spec(self.sources_view().take(i as int + 1)));
                }
            }
            i += 1;
        }
        proof {
            assert(self.sources_view().take(n as int) =~= self.sources_view());
        }
        out
    }

    /// End the session successfully: exactly one `done` frame carrying the
    /// accumulated full text, the accumulated reasoning where any arrived,
    /// and the deduplicated sources where any search tool ran.
    pub fn finish(&mut self) -> (frame: String)
        requires
            !old(self).terminated(),
        ensures
            final(self).terminated(),
            frame@ == done_frame_spec(
                old(self).content(),
                old(self).thought(),
                old(self).sources_view(),
            ),
    {
        let mut frame = String::new();
        frame.append("{\"content\":");
        let qc = json_quote(self.full_content.as_str());
        frame.append(qc.as_str());
        if self.sources.len() > 0 {
            frame.append(",\"sources\":[");
            let items = self.sources_items();
            frame.append(items.as_str());
            frame.append("]");
        }
        if !self.full_thought.as_str().is_empty() {
            frame.append(",\"thought\":");
            let qt = json_quote(self.full_thought.as_str());
            frame.append(qt.as_str());
        }
        frame.append(",\"type\":\"done\"}");
        self.terminated = true;
        proof {
            assert(frame@ =~= done_frame_spec(
                old(self).content(),
                old(self).thought(),
                old(self).sources_view(),
            ));
        }
        frame
    }

    /// End the session with a failure: exactly one terminal `error` frame
    /// with a human-readable message; the loop never retries.
    pub fn fail(&mut self, err: &str) -> (frame: String)
        requires
            !old(self).terminated(),
        ensures
            final(self).terminated(),
            frame@ == error_frame_spec(err@),
    {
        let mut frame = String::new();
        frame.append("{\"error\":");
        let q = json_quote(err);
        frame.append(q.as_str());
        frame.append(",\"type\":\"error\"}");
        self.terminated = true;
        proof {
            assert(frame@ =~= error_frame_spec(err@));
        }
        frame
    }
}

} // verus!
