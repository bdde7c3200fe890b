//! Splitting assistant text into visible answer text and inline `<think>`
//! content, incrementally across chunk boundaries: a two-state machine that
//! scans case-insensitively for the nearest opening or closing tag and
//! carries its state between calls.

use vstd::prelude::*;

use crate::text::{find_first_tag, find_tag_spec, first_match_in, tag_match_at};

verus! {

/// One piece of split output.
pub enum TextPiece {
    Visible(String),
    Thought(String),
}

/// Spec-level mirror of `TextPiece`.
pub enum TextPieceV {
    Visible(Seq<char>),
    Thought(Seq<char>),
}

impl View for TextPiece {
    type V = TextPieceV;

    open spec fn view(&self) -> TextPieceV {
        match self {
            TextPiece::Visible(s) => TextPieceV::Visible(s@),
            TextPiece::Thought(s) => TextPieceV::Thought(s@),
        }
    }
}

/// The view of a piece vector.
pub open spec fn pieces_view(v: Seq<TextPiece>) -> Seq<TextPieceV> {
    v.map_values(|p: TextPiece| p@)
}

/// The tags that open a thought block.
pub open spec fn open_tags() -> Seq<Seq<char>> {
    seq!["<think>"@, "<thought>"@]
}

/// The tags that close a thought block.
pub open spec fn close_tags() -> Seq<Seq<char>> {
    seq!["</think>"@, "</thought>"@]
}

/// The split of one text, starting in the given state: text before a found
/// tag is emitted in the current state, the tag is consumed and the state
/// flips, and unterminated trailing content is emitted in whatever state is
/// active. The final state is carried to the next call.
pub open spec fn split_spec(in_thought: bool, text: Seq<char>) -> (Seq<TextPieceV>, bool)
    decreases text.len(),
{
    if text.len() == 0 {
        (Seq::empty(), in_thought)
    } else if !in_thought {
        match find_tag_spec(text, open_tags(), 0) {
            None => (seq![TextPieceV::Visible(text)], false),
            Some((i, l)) => if l < 1 || i < 0 || i + l > text.len() {
                (seq![TextPieceV::Visible(text)], false)
            } else {
                let pre: Seq<TextPieceV> = if i > 0 {
                    seq![TextPieceV::Visible(text.take(i))]
                } else {
                    Seq::empty()
                };
                let r = split_spec(true, text.skip(i + l));
                (pre + r.0, r.1)
            },
        }
    } else {
        match find_tag_spec(text, close_tags(), 0) {
            None => (seq![TextPieceV::Thought(text)], true),
            Some((i, l)) => if l < 1 || i < 0 || i + l > text.len() {
                (seq![TextPieceV::Thought(text)], true)
            } else {
                let pre: Seq<TextPieceV> = if i > 0 {
                    seq![TextPieceV::Thought(text.take(i))]
                } else {
                    Seq::empty()
                };
                let r = split_spec(false, text.skip(i + l));
                (pre + r.0, r.1)
            },
        }
    }
}

/// A found first match names a matching tag from the list.
proof fn lemma_first_match_exists(tags: Seq<Seq<char>>, text: Seq<char>, i: int)
    requires
        first_match_in(tags, text, i) is Some,
    ensures
        exists|k: int|
            0 <= k < tags.len() && #[trigger] tag_match_at(text, i, tags[k]) && first_match_in(
                tags,
                text,
                i,
            ) == Some(tags[k]),
    decreases tags.len(),
{
    if tags.len() > 0 {
        if tag_match_at(text, i, tags[0]) {
            assert(tag_match_at(text, i, tags[0]) && first_match_in(tags, text, i) == Some(
                tags[0],
            ));
        } else {
            lemma_first_match_exists(tags.drop_first(), text, i);
            let k0 = choose|k: int|
                0 <= k < tags.drop_first().len() && #[trigger] tag_match_at(
                    text,
                    i,
                    tags.drop_first()[k],
                ) && first_match_in(tags.drop_first(), text, i) == Some(tags.drop_first()[k]);
            assert(tags.drop_first()[k0] == tags[k0 + 1]);
            assert(tag_match_at(text, i, tags[k0 + 1]) && first_match_in(tags, text, i) == Some(
                tags[k0 + 1],
            ));
        }
    }
}

/// A found tag position lies in the text and the matched tag fits there.
proof fn lemma_find_tag_bounds(text: Seq<char>, tags: Seq<Seq<char>>, p: int, i: int, l: int)
    requires
        find_tag_spec(text, tags, p) == Some((i, l)),
    ensures
        p <= i < text.len(),
        exists|k: int|
            0 <= k < tags.len() && #[trigger] tag_match_at(text, i, tags[k]) && l
                == tags[k].len(),
    decreases text.len() - p,
{
    if p < 0 || p >= text.len() {
    } else {
        match first_match_in(tags, text, p) {
            Some(t) => {
                lemma_first_match_exists(tags, text, p);
            },
            None => {
                lemma_find_tag_bounds(text, tags, p + 1, i, l);
            },
        }
    }
}

/// Every thought tag is at least one character long.
proof fn lemma_tags_nonempty()
    ensures
        forall|k: int| 0 <= k < open_tags().len() ==> #[trigger] open_tags()[k].len() >= 1,
        forall|k: int| 0 <= k < close_tags().len() ==> #[trigger] close_tags()[k].len() >= 1,
{
    reveal_strlit("<think>");
    reveal_strlit("<thought>");
    reveal_strlit("</think>");
    reveal_strlit("</thought>");
    assert(open_tags()[0].len() == 7);
    assert(open_tags()[1].len() == 9);
    assert(close_tags()[0].len() == 8);
    assert(close_tags()[1].len() == 10);
}

/// Separates visible answer text from inline thought content. With tags
/// disabled the whole input passes through verbatim as visible text.
pub struct TaggedTextParser {
    pub enable_tags: bool,
    pub in_thought_block: bool,
}

impl TaggedTextParser {
    /// A parser starting outside any thought block.
    pub fn new(enable_tags: bool) -> (r: Self)
        ensures
            r.enable_tags == enable_tags,
            !r.in_thought_block,
    {
        TaggedTextParser { enable_tags, in_thought_block: false }
    }

    /// Split one text chunk, carrying the block state across calls.
    pub fn handle(&mut self, text: &str) -> (out: Vec<TextPiece>)
        ensures
            final(self).enable_tags == old(self).enable_tags,
            !old(self).enable_tags ==> {
                &&& pieces_view(out@) == seq![TextPieceV::Visible(text@)]
                &&& final(self).in_thought_block == old(self).in_thought_block
            },
            old(self).enable_tags ==> {
                let (ps, st) = split_spec(old(self).in_thought_block, text@);
                pieces_view(out@) == ps && final(self).in_thought_block == st
            },
    {
        let mut out: Vec<TextPiece> = Vec::new();
        if !self.enable_tags {
            out.push(TextPiece::Visible(text.to_owned()));
            proof {
                assert(pieces_view(out@) =~= seq![TextPieceV::Visible(text@)]);
            }
            return out;
        }
        let ghost state0 = self.in_thought_block;
        let mut remaining = text.to_owned();
        proof {
            assert(pieces_view(out@) + split_spec(self.in_thought_block, remaining@).0
                =~= split_spec(state0, text@).0);
        }
        loop
            invariant
                self.enable_tags == old(self).enable_tags,
                old(self).enable_tags,
                state0 == old(self).in_thought_block,
                split_spec(state0, text@).0 == pieces_view(out@) + split_spec(
                    self.in_thought_block,
                    remaining@,
                ).0,
                split_spec(state0, text@).1 == split_spec(self.in_thought_block, remaining@).1,
            decreases remaining@.len(),
        {
            let rem_len = remaining.as_str().unicode_len();
            if rem_len == 0 {
                proof {
                    assert(split_spec(self.in_thought_block, remaining@).0
                        =~= Seq::<TextPieceV>::empty());
                    assert(pieces_view(out@) + Seq::<TextPieceV>::empty() =~= pieces_view(out@));
                }
                return out;
            }
            let in_thought = self.in_thought_block;
            let tags: Vec<&str> = if !in_thought {
                vec!["<think>", "<thought>"]
            } else {
                vec!["</think>", "</thought>"]
            };
            let ghost tag_views = if !in_thought {
                open_tags()
            } else {
                close_tags()
            };
            proof {
                assert(tags@.map_values(|t: &str| t@) =~= tag_views);
            }
            match find_first_tag(remaining.as_str(), &tags) {
                None => {
                    let piece = if !in_thought {
                        TextPiece::Visible(remaining)
                    } else {
                        TextPiece::Thought(remaining)
                    };
                    let ghost pv = piece@;
                    out.push(piece);
                    proof {
                        assert(split_spec(in_thought, remaining@).0 =~= seq![pv]);
                        assert(pieces_view(out@) =~= split_spec(state0, text@).0);
                    }
                    return out;
                },
                Some((i, l)) => {
                    proof {
                        lemma_find_tag_bounds(remaining@, tag_views, 0, i as int, l as int);
                        lemma_tags_nonempty();
                        assert(l >= 1);
                        assert(i + l <= remaining@.len());
                    }
                    if i > 0 {
                        let pre = remaining.as_str().substring_char(0, i).to_owned();
                        proof {
                            assert(pre@ =~= remaining@.take(i as int));
                        }
                        let piece = if !in_thought {
                            TextPiece::Visible(pre)
                        } else {
                            TextPiece::Thought(pre)
                        };
                        out.push(piece);
                    }
                    let next = remaining.as_str().substring_char(i + l, rem_len).to_owned();
                    proof {
                        assert(next@ =~= remaining@.skip(i as int + l as int));
                        let r = split_spec(!in_thought, remaining@.skip(i as int + l as int));
                        assert(split_spec(in_thought, remaining@).0 =~= (if i > 0 {
                            seq![
                                (if !in_thought {
                                    TextPieceV::Visible(remaining@.take(i as int))
                                } else {
                                    TextPieceV::Thought(remaining@.take(i as int))
                                }),
                            ]
                        } else {
                            Seq::<TextPieceV>::empty()
                        }) + r.0);
                        assert(pieces_view(out@) + r.0 =~= split_spec(state0, text@).0);
                    }
                    remaining = next;
                    self.in_thought_block = !in_thought;
                },
            }
        }
    }
}

} // verus!
