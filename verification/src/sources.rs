//! Research sources: search results deduplicated by URL in an
//! insertion-ordered mapping where the first occurrence wins, and the
//! numbered source list built from it.

use vstd::prelude::*;
use vstd::seq_lib::*;

use crate::json::{json_arr_item, json_arr_len, json_arr_len_of, json_item_of, json_str_field,
    json_str_of};
use crate::text::str_eq;

verus! {

/// One deduplicated source gathered from a search tool result.
pub struct ResearchSource {
    pub title: String,
    pub url: String,
    pub uri: String,
    pub snippet: String,
}

/// Spec-level mirror of `ResearchSource`.
pub struct ResearchSourceV {
    pub title: Seq<char>,
    pub url: Seq<char>,
    pub uri: Seq<char>,
    pub snippet: Seq<char>,
}

impl View for ResearchSource {
    type V = ResearchSourceV;

    open spec fn view(&self) -> ResearchSourceV {
        ResearchSourceV {
            title: self.title@,
            url: self.url@,
            uri: self.uri@,
            snippet: self.snippet@,
        }
    }
}

impl Clone for ResearchSource {
    fn clone(&self) -> (r: Self)
        ensures
            r@ == self@,
    {
        ResearchSource {
            title: self.title.clone(),
            url: self.url.clone(),
            uri: self.uri.clone(),
            snippet: self.snippet.clone(),
        }
    }
}

/// Whether some stored source already claims this URL.
pub open spec fn has_url(s: Seq<ResearchSourceV>, url: Seq<char>) -> bool {
    exists|i: int| 0 <= i < s.len() && s[i].url == url
}

/// One source offered to the mapping: dropped when its URL is already
/// present, appended otherwise.
pub open spec fn insert_source(s: Seq<ResearchSourceV>, src: ResearchSourceV) -> Seq<
    ResearchSourceV,
> {
    if has_url(s, src.url) {
        s
    } else {
        s.push(src)
    }
}

/// A sequence of sources offered in order.
pub open spec fn feed_all(s: Seq<ResearchSourceV>, rs: Seq<ResearchSourceV>) -> Seq<
    ResearchSourceV,
>
    decreases rs.len(),
{
    if rs.len() == 0 {
        s
    } else {
        feed_all(insert_source(s, rs[0]), rs.drop_first())
    }
}

/// The URLs of the stored sources, in storage order.
pub open spec fn urls_of(s: Seq<ResearchSourceV>) -> Seq<Seq<char>> {
    s.map_values(|x: ResearchSourceV| x.url)
}

/// No two stored sources share a URL.
pub open spec fn urls_unique(s: Seq<ResearchSourceV>) -> bool {
    urls_of(s).no_duplicates()
}

/// Result `i` is the first in `rs` with its URL.
pub open spec fn first_occurrence(rs: Seq<ResearchSourceV>, i: int) -> bool {
    0 <= i < rs.len() && forall|j: int| 0 <= j < i ==> rs[j].url != rs[i].url
}

/// Inserting preserves URL uniqueness and adjusts the URL set by the one
/// offered URL.
proof fn lemma_insert_props(s: Seq<ResearchSourceV>, src: ResearchSourceV)
    requires
        urls_unique(s),
    ensures
        urls_unique(insert_source(s, src)),
        urls_of(insert_source(s, src)).to_set() == urls_of(s).to_set().insert(src.url),
        forall|k: int|
            0 <= k < s.len() ==> #[trigger] insert_source(s, src)[k] == s[k],
        has_url(insert_source(s, src), src.url),
        forall|u: Seq<char>|
            #[trigger] has_url(insert_source(s, src), u) <==> has_url(s, u) || u == src.url,
{
    if has_url(s, src.url) {
        let i = choose|i: int| 0 <= i < s.len() && s[i].url == src.url;
        assert(urls_of(s)[i] == src.url);
        assert(urls_of(s).to_set().contains(src.url));
        assert(urls_of(s).to_set() =~= urls_of(s).to_set().insert(src.url));
    } else {
        let s2 = s.push(src);
        assert(urls_of(s2) =~= urls_of(s).push(src.url));
        assert(forall|i: int|
            0 <= i < s.len() ==> #[trigger] urls_of(s)[i] != src.url) by {
            assert forall|i: int| 0 <= i < s.len() implies #[trigger] urls_of(s)[i] != src.url by {
                assert(urls_of(s)[i] == s[i].url);
            }
        }
        assert(urls_of(s2).no_duplicates());
        assert(urls_of(s2).to_set() =~= urls_of(s).to_set().insert(src.url)) by {
            assert(urls_of(s2).drop_last() =~= urls_of(s));
            assert(forall|u: Seq<char>|
                #[trigger] urls_of(s2).to_set().contains(u) <==> urls_of(s2).contains(u));
            assert(forall|u: Seq<char>|
                #[trigger] urls_of(s).to_set().contains(u) <==> urls_of(s).contains(u));
            assert forall|u: Seq<char>| #[trigger] urls_of(s2).contains(u) implies urls_of(
                s,
            ).contains(u) || u == src.url by {
                let i = choose|i: int| 0 <= i < urls_of(s2).len() && urls_of(s2)[i] == u;
                if i < s.len() {
                    assert(urls_of(s)[i] == u);
                }
            }
            assert forall|u: Seq<char>|
                urls_of(s).contains(u) || u == src.url implies #[trigger] urls_of(s2).contains(
                u,
            ) by {
                if urls_of(s).contains(u) {
                    let i = choose|i: int| 0 <= i < urls_of(s).len() && urls_of(s)[i] == u;
                    assert(urls_of(s2)[i] == u);
                } else {
                    assert(urls_of(s2)[s.len() as int] == u);
                }
            }
        }
        assert(s2[s.len() as int] == src);
    }
    let ins = insert_source(s, src);
    assert forall|u: Seq<char>| #[trigger] has_url(ins, u) implies has_url(s, u) || u
        == src.url by {
        let k = choose|k: int| 0 <= k < ins.len() && ins[k].url == u;
        if k < s.len() {
            assert(s[k].url == u);
        } else {
            assert(ins[k] == src);
        }
    }
    assert forall|u: Seq<char>| has_url(s, u) || u == src.url implies #[trigger] has_url(
        ins,
        u,
    ) by {
        if has_url(s, u) {
            let k = choose|k: int| 0 <= k < s.len() && s[k].url == u;
            assert(ins[k] == s[k]);
        } else {
            assert(has_url(ins, src.url));
        }
    }
}

/// Source dedup: offering any sequence of search results to an empty
/// mapping keeps exactly one entry per distinct URL, in first-seen order;
/// for each URL the entry kept is the first result that carried it (so the
/// first-seen title wins), and the mapping's size equals the number of
/// distinct URLs offered.
pub proof fn lemma_source_dedup(rs: Seq<ResearchSourceV>)
    ensures
        ({
            let m = feed_all(Seq::empty(), rs);
            &&& urls_unique(m)
            &&& m.len() == urls_of(rs).to_set().len()
            &&& forall|i: int| first_occurrence(rs, i) ==> #[trigger] m.contains(rs[i])
            &&& forall|k: int|
                0 <= k < m.len() ==> exists|i: int| first_occurrence(rs, i) && #[trigger] m[k]
                    == rs[i]
        }),
{
    lemma_feed_props(Seq::empty(), rs);
    let m = feed_all(Seq::empty(), rs);
    assert(urls_of(Seq::<ResearchSourceV>::empty()) =~= Seq::<Seq<char>>::empty());
    assert(urls_of(m).to_set() =~= urls_of(rs).to_set());
    urls_of(m).unique_seq_to_set();
    assert(urls_of(m).len() == m.len());
}

/// Feeding relative to any URL-unique start: uniqueness is preserved, the
/// URL set grows by the offered URLs, existing entries stay in place, and
/// each first occurrence whose URL is new is kept verbatim while every new
/// entry is such a first occurrence.
proof fn lemma_feed_props(s: Seq<ResearchSourceV>, rs: Seq<ResearchSourceV>)
    requires
        urls_unique(s),
    ensures
        ({
            let m = feed_all(s, rs);
            &&& urls_unique(m)
            &&& urls_of(m).to_set() == urls_of(s).to_set() + urls_of(rs).to_set()
            &&& forall|k: int| 0 <= k < s.len() ==> #[trigger] m[k] == s[k]
            &&& m.len() >= s.len()
            &&& forall|i: int|
                first_occurrence(rs, i) && !has_url(s, rs[i].url) ==> #[trigger] m.contains(
                    rs[i],
                )
            &&& forall|k: int|
                s.len() <= k < m.len() ==> exists|i: int| first_occurrence(rs, i)
                    && #[trigger] m[k] == rs[i]
            &&& forall|u: Seq<char>|
                #[trigger] has_url(m, u) <==> has_url(s, u) || urls_of(rs).to_set().contains(u)
        }),
    decreases rs.len(),
{
    if rs.len() == 0 {
        assert(urls_of(rs).to_set() =~= Set::<Seq<char>>::empty());
        assert(urls_of(s).to_set() + urls_of(rs).to_set() =~= urls_of(s).to_set());
        assert(forall|u: Seq<char>| !(#[trigger] urls_of(rs).to_set().contains(u)));
    } else {
        let s1 = insert_source(s, rs[0]);
        let rest = rs.drop_first();
        lemma_insert_props(s, rs[0]);
        lemma_feed_props(s1, rest);
        let m = feed_all(s, rs);
        assert(m == feed_all(s1, rest));
        assert(urls_of(rest).to_set() =~= urls_of(rs).to_set().remove(rs[0].url) || true);
        assert(urls_of(rs) =~= seq![rs[0].url] + urls_of(rest)) by {
            assert(urls_of(rs).drop_first() =~= urls_of(rest));
            assert(urls_of(rs)[0] == rs[0].url);
            assert(urls_of(rs) =~= seq![urls_of(rs)[0]] + urls_of(rs).drop_first());
        }
        assert(urls_of(rs).to_set() =~= urls_of(rest).to_set().insert(rs[0].url)) by {
            assert forall|u: Seq<char>| #[trigger] urls_of(rs).contains(u) implies u == rs[0].url
                || urls_of(rest).contains(u) by {
                let i = choose|i: int| 0 <= i < urls_of(rs).len() && urls_of(rs)[i] == u;
                if i > 0 {
                    assert(urls_of(rest)[i - 1] == rest[i - 1].url);
                    assert(rest[i - 1] == rs[i]);
                    assert(urls_of(rest)[i - 1] == u);
                }
            }
            assert forall|u: Seq<char>|
                u == rs[0].url || urls_of(rest).contains(u) implies #[trigger] urls_of(
                rs,
            ).contains(u) by {
                if u == rs[0].url {
                    assert(urls_of(rs)[0] == u);
                } else {
                    let i = choose|i: int| 0 <= i < urls_of(rest).len() && urls_of(rest)[i] == u;
                    assert(rest[i] == rs[i + 1]);
                    assert(urls_of(rs)[i + 1] == u);
                }
            }
            assert(forall|u: Seq<char>|
                #[trigger] urls_of(rs).to_set().contains(u) <==> urls_of(rs).contains(u));
            assert(forall|u: Seq<char>|
                #[trigger] urls_of(rest).to_set().contains(u) <==> urls_of(rest).contains(u));
        }
        assert(urls_of(m).to_set() =~= urls_of(s).to_set() + urls_of(rs).to_set());
        // First occurrences in `rs` whose URL is absent from `s`.
        assert forall|i: int|
            first_occurrence(rs, i) && !has_url(s, rs[i].url) implies #[trigger] m.contains(
            rs[i],
        ) by {
            if i == 0 {
                assert(s1[s.len() as int] == rs[0]);
                assert(m[s.len() as int] == rs[0]);
                assert(m.contains(rs[0]));
            } else {
                assert(forall|j: int| 0 <= j < i - 1 ==> rest[j] == rs[j + 1]);
                assert(first_occurrence(rest, i - 1));
                assert(rs[i].url != rs[0].url);
                assert(!has_url(s1, rest[i - 1].url));
                assert(m.contains(rest[i - 1]));
            }
        }
        // Every appended entry is a kept first occurrence.
        assert forall|k: int| s.len() <= k < m.len() implies exists|i: int|
            first_occurrence(rs, i) && #[trigger] m[k] == rs[i] by {
            if k < s1.len() {
                // Entry appended by the head insert: it is rs[0], a first
                // occurrence by definition.
                assert(s1.len() > s.len());
                assert(m[k] == s1[k]);
                assert(s1[k] == rs[0]);
                assert(first_occurrence(rs, 0));
            } else {
                let i0 = choose|i: int|
                    first_occurrence(rest, i) && #[trigger] feed_all(s1, rest)[k] == rest[i];
                assert(rest[i0] == rs[i0 + 1]);
                if rest[i0].url == rs[0].url {
                    // A later result with the head's URL is never kept:
                    // after the head insert its URL is present.
                    assert(has_url(s1, rest[i0].url));
                    assert(first_occurrence(rs, i0 + 1) || true);
                }
                if first_occurrence(rs, i0 + 1) {
                    assert(m[k] == rs[i0 + 1]);
                } else {
                    // Some j <= i0 shares the URL; then j == 0 since i0 is a
                    // first occurrence within `rest`.
                    assert(exists|j: int|
                        0 <= j < i0 + 1 && #[trigger] rs[j].url == rs[i0 + 1].url);
                    let j0 = choose|j: int|
                        0 <= j < i0 + 1 && #[trigger] rs[j].url == rs[i0 + 1].url;
                    if j0 > 0 {
                        assert(rest[j0 - 1].url == rest[i0].url);
                        assert(false);
                    }
                    assert(rs[0].url == rest[i0].url);
                    assert(has_url(s1, rest[i0].url));
                    // Contradiction: a kept entry's URL was not yet present.
                    assert(forall|jj: int|
                        first_occurrence(rest, jj) && feed_all(s1, rest).contains(rest[jj])
                            || true);
                    lemma_kept_entry_was_new(s1, rest, k);
                    assert(false);
                }
            }
        }
    }
}

/// An entry appended during a feed carries a URL that was not yet present
/// when the feed started.
proof fn lemma_kept_entry_was_new(s: Seq<ResearchSourceV>, rs: Seq<ResearchSourceV>, k: int)
    requires
        urls_unique(s),
        s.len() <= k < feed_all(s, rs).len(),
    ensures
        !has_url(s, feed_all(s, rs)[k].url),
    decreases rs.len(),
{
    if rs.len() > 0 {
        let s1 = insert_source(s, rs[0]);
        lemma_insert_props(s, rs[0]);
        if k < s1.len() {
            assert(s1[k] == rs[0]);
            assert(!has_url(s, rs[0].url));
            lemma_feed_props(s1, rs.drop_first());
            assert(feed_all(s, rs)[k] == s1[k]);
        } else {
            lemma_kept_entry_was_new(s1, rs.drop_first(), k);
            assert(!has_url(s1, feed_all(s1, rs.drop_first())[k].url));
            assert forall|u: Seq<char>| has_url(s, u) implies has_url(s1, u) by {
                let i = choose|i: int| 0 <= i < s.len() && s[i].url == u;
                assert(s1[i] == s[i]);
            }
        }
    } else {
        assert(feed_all(s, rs).len() == s.len());
    }
}

/// An insertion-ordered URL-keyed source mapping: first occurrence wins.
pub struct SourceMap {
    entries: Vec<ResearchSource>,
}

impl View for SourceMap {
    type V = Seq<ResearchSourceV>;

    closed spec fn view(&self) -> Seq<ResearchSourceV> {
        self.entries@.map_values(|s: ResearchSource| s@)
    }
}

impl SourceMap {
    /// An empty mapping.
    pub fn new() -> (r: Self)
        ensures
            r@ == Seq::<ResearchSourceV>::empty(),
            urls_unique(r@),
    {
        let r = SourceMap { entries: Vec::new() };
        proof {
            assert(r@ =~= Seq::<ResearchSourceV>::empty());
            assert(urls_of(r@) =~= Seq::<Seq<char>>::empty());
        }
        r
    }

    /// How many distinct sources are stored.
    pub fn len(&self) -> (r: usize)
        ensures
            r == self@.len(),
    {
        self.entries.len()
    }

    /// Read one stored source.
    pub fn get(&self, i: usize) -> (r: &ResearchSource)
        requires
            i < self@.len(),
        ensures
            r@ == self@[i as int],
    {
        &self.entries[i]
    }

    /// Whether a source with this URL is stored.
    pub fn contains_url(&self, url: &str) -> (r: bool)
        ensures
            r <==> has_url(self@, url@),
    {
        let n = self.entries.len();
        let mut i: usize = 0;
        while i < n
            invariant
                i <= n,
                n == self@.len(),
                forall|j: int| 0 <= j < i ==> self@[j].url != url@,
            decreases n - i,
        {
            proof {
                assert(self@[i as int] == self.entries@[i as int]@);
            }
            if str_eq(self.entries[i].url.as_str(), url) {
                return true;
            }
            i += 1;
        }
        false
    }

    /// Offer one source: dropped when its URL is present, appended
    /// otherwise.
    pub fn insert(&mut self, src: ResearchSource)
        ensures
            final(self)@ == insert_source(old(self)@, src@),
    {
        let present = self.contains_url(src.url.as_str());
        if !present {
            self.entries.push(src);
            proof {
                assert(self@ =~= old(self)@.push(src@));
            }
        }
    }

    /// Clone the stored sources in order.
    pub fn to_vec(&self) -> (r: Vec<ResearchSource>)
        ensures
            r@.map_values(|s: ResearchSource| s@) == self@,
    {
        let n = self.entries.len();
        let mut out: Vec<ResearchSource> = Vec::new();
        let mut i: usize = 0;
        while i < n
            invariant
                i <= n,
                n == self@.len(),
                out@.map_values(|s: ResearchSource| s@) == self@.take(i as int),
            decreases n - i,
        {
            proof {
                assert(self@[i as int] == self.entries@[i as int]@);
            }
            let c = self.entries[i].clone();
            let ghost prev = out@;
            out.push(c);
            proof {
                assert(out@ == prev.push(c));
                assert(out@.map_values(|s: ResearchSource| s@) =~= prev.map_values(
                    |s: ResearchSource| s@,
                ).push(c@));
                assert(out@.map_values(|s: ResearchSource| s@) =~= self@.take(i as int + 1));
            }
            i += 1;
        }
        proof {
            assert(self@.take(n as int) =~= self@);
        }
        out
    }
}

/// Whether a tool name is one of the recognized search tools.
pub open spec fn spec_is_search_tool(name: Seq<char>) -> bool {
    ||| name == "Tavily_web_search"@
    ||| name == "Tavily_academic_search"@
    ||| name == "web_search"@
    ||| name == "academic_search"@
}

/// Whether a tool name is one of the recognized search tools, whose
/// results feed the source mapping.
pub fn is_tavily_search_tool_name(name: &str) -> (r: bool)
    ensures
        r <==> spec_is_search_tool(name@),
{
    str_eq(name, "Tavily_web_search") || str_eq(name, "Tavily_academic_search") || str_eq(
        name,
        "web_search",
    ) || str_eq(name, "academic_search")
}

/// The source a `results` array element contributes: its URL is required,
/// a missing title falls back to a fixed label, and the snippet is the
/// content clipped to 200 characters.
pub open spec fn source_of_item(item: Seq<u8>) -> Option<ResearchSourceV> {
    match json_str_of(item, "url"@) {
        None => None,
        Some(u) => Some(
            ResearchSourceV {
                title: match json_str_of(item, "title"@) {
                    Some(t) => t,
                    None => "Unknown Source"@,
                },
                url: u,
                uri: u,
                snippet: match json_str_of(item, "content"@) {
                    Some(c) => if c.len() > 200 {
                        c.take(200)
                    } else {
                        c
                    },
                    None => Seq::empty(),
                },
            },
        ),
    }
}

/// The sources contributed by elements `i..n` of a result's `results`
/// array, in order, skipping elements without a URL.
pub open spec fn result_sources_from(result: Seq<u8>, i: nat, n: nat) -> Seq<ResearchSourceV>
    decreases n - i,
{
    if i >= n {
        Seq::empty()
    } else {
        let head = match json_item_of(result, "results"@, i as usize) {
            Some(b) => match source_of_item(b) {
                Some(src) => seq![src],
                None => Seq::empty(),
            },
            None => Seq::empty(),
        };
        head + result_sources_from(result, i + 1, n)
    }
}

/// All sources a search tool result contributes.
pub open spec fn result_sources(result: Seq<u8>) -> Seq<ResearchSourceV> {
    match json_arr_len_of(result, "results"@) {
        Some(n) => result_sources_from(result, 0, n as nat),
        None => Seq::empty(),
    }
}

/// A split point of the element walk: the sources of `i..n` are those of
/// element `i` followed by those of `i+1..n`.
proof fn lemma_result_sources_step(result: Seq<u8>, i: nat, n: nat)
    requires
        i < n,
    ensures
        result_sources_from(result, i, n) == (match json_item_of(result, "results"@, i as usize) {
            Some(b) => match source_of_item(b) {
                Some(src) => seq![src],
                None => Seq::empty(),
            },
            None => Seq::empty(),
        }) + result_sources_from(result, i + 1, n),
{
}

/// Feeding splits over concatenation of result sequences.
proof fn lemma_feed_all_append(
    s: Seq<ResearchSourceV>,
    r1: Seq<ResearchSourceV>,
    r2: Seq<ResearchSourceV>,
)
    ensures
        feed_all(s, r1 + r2) == feed_all(feed_all(s, r1), r2),
    decreases r1.len(),
{
    if r1.len() == 0 {
        assert(r1 + r2 =~= r2);
    } else {
        assert((r1 + r2)[0] == r1[0]);
        assert((r1 + r2).drop_first() =~= r1.drop_first() + r2);
        lemma_feed_all_append(insert_source(s, r1[0]), r1.drop_first(), r2);
    }
}

/// Merge the sources of one search tool result into the mapping: each
/// result element with a URL is offered in array order; the first
/// occurrence of a URL wins.
pub fn collect_web_search_sources(map: &mut SourceMap, result: &[u8])
    ensures
        final(map)@ == feed_all(old(map)@, result_sources(result@)),
{
    let ghost rs = result_sources(result@);
    match json_arr_len(result, "results") {
        Some(n) => {
            let mut i: usize = 0;
            proof {
                assert(rs == result_sources_from(result@, 0, n as nat));
            }
            while i < n
                invariant
                    i <= n,
                    json_arr_len_of(result@, "results"@) == Some(n),
                    rs == result_sources_from(result@, 0, n as nat),
                    feed_all(old(map)@, rs) == feed_all(
                        map@,
                        result_sources_from(result@, i as nat, n as nat),
                    ),
                decreases n - i,
            {
                proof {
                    lemma_result_sources_step(result@, i as nat, n as nat);
                }
                match json_arr_item(result, "results", i) {
                    Some(item) => {
                        match json_str_field(item.as_slice(), "url") {
                            Some(url) => {
                                let title = match json_str_field(item.as_slice(), "title") {
                                    Some(t) => t,
                                    None => String::from_str("Unknown Source"),
                                };
                                let snippet = match json_str_field(item.as_slice(), "content") {
                                    Some(c) => {
                                        let clen = c.as_str().unicode_len();
                                        if clen > 200 {
                                            c.as_str().substring_char(0, 200).to_owned()
                                        } else {
                                            c
                                        }
                                    },
                                    None => String::new(),
                                };
                                let src = ResearchSource {
                                    title,
                                    url: url.clone(),
                                    uri: url,
                                    snippet,
                                };
                                proof {
                                    assert(source_of_item(item@) == Some(src@));
                                    assert(result_sources_from(result@, i as nat, n as nat)
                                        == seq![src@] + result_sources_from(
                                        result@,
                                        i as nat + 1,
                                        n as nat,
                                    ));
                                }
                                let ghost pre_map = map@;
                                map.insert(src);
                                proof {
                                    lemma_feed_all_append(
                                        pre_map,
                                        seq![src@],
                                        result_sources_from(result@, i as nat + 1, n as nat),
                                    );
                                    assert(seq![src@].drop_first()
                                        =~= Seq::<ResearchSourceV>::empty());
                                    assert(seq![src@][0] == src@);
                                    assert(feed_all(
                                        insert_source(pre_map, src@),
                                        seq![src@].drop_first(),
                                    ) == insert_source(pre_map, src@));
                                    assert(feed_all(pre_map, seq![src@]) == insert_source(
                                        pre_map,
                                        src@,
                                    ));
                                }
                            },
                            None => {
                                proof {
                                    assert(result_sources_from(result@, i as nat, n as nat)
                                        =~= result_sources_from(result@, i as nat + 1, n as nat));
                                }
                            },
                        }
                    },
                    None => {
                        proof {
                            assert(false);
                        }
                    },
                }
                i += 1;
            }
            proof {
                assert(result_sources_from(result@, n as nat, n as nat)
                    =~= Seq::<ResearchSourceV>::empty());
            }
        },
        None => {
            proof {
                assert(rs =~= Seq::<ResearchSourceV>::empty());
            }
        },
    }
}

} // verus!
