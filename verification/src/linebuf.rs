//! Byte-stream line reassembly: a growing buffer that takes transport
//! chunks split at arbitrary byte offsets and hands out complete
//! newline-terminated lines. The split into lines depends only on the
//! concatenation of all bytes fed, never on chunk boundaries.

use vstd::prelude::*;

verus! {

/// The newline byte that terminates a line.
pub open spec fn nl() -> u8 {
    10u8
}

/// Whether the byte sequence holds a newline.
pub open spec fn has_nl(s: Seq<u8>) -> bool
    decreases s.len(),
{
    if s.len() == 0 {
        false
    } else if s[0] == nl() {
        true
    } else {
        has_nl(s.drop_first())
    }
}

/// The complete (newline-terminated) lines of a byte sequence, in order,
/// without their terminators.
pub open spec fn lines_of(s: Seq<u8>) -> Seq<Seq<u8>>
    decreases s.len(),
{
    if s.len() == 0 {
        Seq::empty()
    } else if s[0] == nl() {
        seq![Seq::<u8>::empty()] + lines_of(s.drop_first())
    } else {
        let r = lines_of(s.drop_first());
        if r.len() == 0 {
            Seq::empty()
        } else {
            seq![seq![s[0]] + r[0]] + r.drop_first()
        }
    }
}

/// What remains after the last newline: the incomplete trailing line.
pub open spec fn rem_of(s: Seq<u8>) -> Seq<u8>
    decreases s.len(),
{
    if !has_nl(s) {
        s
    } else {
        rem_of(s.drop_first())
    }
}

/// A sequence yields complete lines exactly when it holds a newline.
pub proof fn lemma_lines_nonempty_iff(s: Seq<u8>)
    ensures
        lines_of(s).len() > 0 <==> has_nl(s),
    decreases s.len(),
{
    if s.len() > 0 && s[0] != nl() {
        lemma_lines_nonempty_iff(s.drop_first());
    }
}

/// A sequence without a newline has no complete line and remains whole.
pub proof fn lemma_no_nl(s: Seq<u8>)
    requires
        forall|j: int| 0 <= j < s.len() ==> s[j] != nl(),
    ensures
        !has_nl(s),
        lines_of(s) == Seq::<Seq<u8>>::empty(),
        rem_of(s) == s,
    decreases s.len(),
{
    if s.len() > 0 {
        assert(forall|j: int|
            0 <= j < s.drop_first().len() ==> s.drop_first()[j] == s[j + 1]);
        lemma_no_nl(s.drop_first());
        lemma_lines_nonempty_iff(s);
    }
}

/// Where the first newline stands at position `i`, the first complete line
/// is the prefix before it and the rest of the split continues after it.
pub proof fn lemma_first_line(s: Seq<u8>, i: int)
    requires
        0 <= i < s.len(),
        s[i] == nl(),
        forall|j: int| 0 <= j < i ==> s[j] != nl(),
    ensures
        has_nl(s),
        lines_of(s) == seq![s.take(i)] + lines_of(s.skip(i + 1)),
        rem_of(s) == rem_of(s.skip(i + 1)),
    decreases i,
{
    if i == 0 {
        assert(s.take(0) =~= Seq::<u8>::empty());
        assert(s.drop_first() =~= s.skip(1));
        assert(lines_of(s) =~= seq![s.take(0)] + lines_of(s.skip(1)));
    } else {
        let d = s.drop_first();
        assert(forall|j: int| 0 <= j < d.len() ==> d[j] == s[j + 1]);
        lemma_first_line(d, i - 1);
        assert(d.take(i - 1) =~= s.take(i).drop_first());
        assert(d.skip(i) =~= s.skip(i + 1));
        lemma_lines_nonempty_iff(d);
        assert(lines_of(d)[0] == d.take(i - 1));
        assert(seq![s[0]] + lines_of(d)[0] =~= s.take(i));
        assert(lines_of(s) =~= seq![s.take(i)] + lines_of(s.skip(i + 1)));
    }
}

/// Chunk-boundary invariance of line splitting: feeding `t` after `s` gives
/// the lines of `s` followed by the lines of `s`'s remainder joined with
/// `t`, and the remainders agree. Hence the split depends only on the
/// concatenation of all bytes fed.
pub proof fn lemma_split_concat(s: Seq<u8>, t: Seq<u8>)
    ensures
        lines_of(s + t) == lines_of(s) + lines_of(rem_of(s) + t),
        rem_of(s + t) == rem_of(rem_of(s) + t),
    decreases s.len(),
{
    if s.len() == 0 {
        assert(s + t =~= t);
        assert(rem_of(s) + t =~= t);
        assert(lines_of(s) + lines_of(t) =~= lines_of(t));
    } else if s[0] == nl() {
        let d = s.drop_first();
        lemma_split_concat(d, t);
        assert((s + t).drop_first() =~= d + t);
        assert(lines_of(s + t) =~= seq![Seq::<u8>::empty()] + lines_of(d + t));
        assert(lines_of(s) + lines_of(rem_of(s) + t) =~= seq![Seq::<u8>::empty()] + (lines_of(d)
            + lines_of(rem_of(d) + t)));
        assert(seq![Seq::<u8>::empty()] + (lines_of(d) + lines_of(rem_of(d) + t)) =~= (
        seq![Seq::<u8>::empty()] + lines_of(d)) + lines_of(rem_of(d) + t));
    } else {
        let d = s.drop_first();
        lemma_split_concat(d, t);
        assert((s + t).drop_first() =~= d + t);
        lemma_lines_nonempty_iff(d);
        lemma_lines_nonempty_iff(d + t);
        lemma_lines_nonempty_iff(rem_of(d) + t);
        if has_nl(s) {
            // The first line of `s + t` and of `s` both extend the first
            // line of `d` with the head byte.
            assert(lines_of(d + t)[0] == lines_of(d)[0]);
            assert(lines_of(s + t) =~= seq![seq![s[0]] + lines_of(d + t)[0]] + lines_of(
                d + t,
            ).drop_first());
            assert(lines_of(d + t).drop_first() =~= lines_of(d).drop_first() + lines_of(
                rem_of(d) + t,
            ));
            assert(lines_of(s) + lines_of(rem_of(s) + t) =~= seq![seq![s[0]] + lines_of(d)[0]]
                + (lines_of(d).drop_first() + lines_of(rem_of(d) + t)));
            assert(lines_of(s + t) =~= lines_of(s) + lines_of(rem_of(s) + t));
        } else {
            // `s` has no newline: it is wholly part of the remainder.
            assert(lines_of(d) =~= Seq::<Seq<u8>>::empty());
            assert(rem_of(d) == d);
            assert(rem_of(s) == s);
            assert(rem_of(s) + t =~= s + t);
            assert(lines_of(s) =~= Seq::<Seq<u8>>::empty());
            assert(lines_of(s) + lines_of(s + t) =~= lines_of(s + t));
        }
    }
}

/// A growing byte buffer that yields complete lines as they arrive.
pub struct LineBuffer {
    pending: Vec<u8>,
}

impl View for LineBuffer {
    type V = Seq<u8>;

    closed spec fn view(&self) -> Seq<u8> {
        self.pending@
    }
}

impl LineBuffer {
    /// An empty buffer.
    pub fn new() -> (r: Self)
        ensures
            r@ == Seq::<u8>::empty(),
    {
        LineBuffer { pending: Vec::new() }
    }

    /// The position of the first newline in the buffer, if any.
    fn find_nl(&self) -> (r: Option<usize>)
        ensures
            match r {
                Some(i) => i < self@.len() && self@[i as int] == nl() && forall|j: int|
                    0 <= j < i ==> self@[j] != nl(),
                None => forall|j: int| 0 <= j < self@.len() ==> self@[j] != nl(),
            },
    {
        let n = self.pending.len();
        let mut i: usize = 0;
        while i < n
            invariant
                i <= n,
                n == self@.len(),
                forall|j: int| 0 <= j < i ==> self@[j] != nl(),
            decreases n - i,
        {
            if self.pending[i] == 10u8 {
                return Some(i);
            }
            i += 1;
        }
        None
    }

    /// Append a transport chunk and hand out every line completed by it.
    /// The lines and the leftover bytes depend only on the concatenation of
    /// everything fed so far, not on how it was chunked.
    pub fn push_bytes(&mut self, chunk: &[u8]) -> (lines: Vec<Vec<u8>>)
        ensures
            final(self)@ == rem_of(old(self)@ + chunk@),
            lines@.map_values(|l: Vec<u8>| l@) == lines_of(old(self)@ + chunk@),
    {
        let ghost orig = self@ + chunk@;
        let mut i: usize = 0;
        while i < chunk.len()
            invariant
                i <= chunk@.len(),
                self@ == old(self)@ + chunk@.take(i as int),
            decreases chunk@.len() - i,
        {
            self.pending.push(chunk[i]);
            proof {
                assert(self@ =~= old(self)@ + chunk@.take(i as int + 1));
            }
            i += 1;
        }
        proof {
            assert(chunk@.take(chunk@.len() as int) =~= chunk@);
            assert(self@ == orig);
        }
        let mut lines: Vec<Vec<u8>> = Vec::new();
        proof {
            assert(lines@.map_values(|l: Vec<u8>| l@) + lines_of(self@) =~= lines_of(orig));
        }
        loop
            invariant
                orig == old(self)@ + chunk@,
                lines_of(orig) == lines@.map_values(|l: Vec<u8>| l@) + lines_of(self@),
                rem_of(orig) == rem_of(self@),
            decreases self@.len(),
        {
            match self.find_nl() {
                Some(p) => {
                    proof {
                        lemma_first_line(self@, p as int);
                    }
                    assert(p < self.pending.len());
                    let mut line: Vec<u8> = Vec::new();
                    let mut j: usize = 0;
                    while j < p
                        invariant
                            j <= p,
                            p < self@.len(),
                            line@ == self@.take(p as int).take(j as int),
                        decreases p - j,
                    {
                        line.push(self.pending[j]);
                        proof {
                            assert(line@ =~= self@.take(p as int).take(j as int + 1));
                        }
                        j += 1;
                    }
                    proof {
                        assert(self@.take(p as int).take(p as int) =~= self@.take(p as int));
                    }
                    let mut rest: Vec<u8> = Vec::new();
                    let mut k: usize = p + 1;
                    while k < self.pending.len()
                        invariant
                            p + 1 <= k <= self@.len(),
                            rest@ == self@.skip(p as int + 1).take(k - p - 1),
                        decreases self@.len() - k,
                    {
                        rest.push(self.pending[k]);
                        proof {
                            assert(rest@ =~= self@.skip(p as int + 1).take(k - p));
                        }
                        k += 1;
                    }
                    proof {
                        assert(self@.skip(p as int + 1).take(
                            self@.len() - p - 1,
                        ) =~= self@.skip(p as int + 1));
                    }
                    let ghost pre = self@;
                    let ghost lines_pre = lines@.map_values(|l: Vec<u8>| l@);
                    self.pending = rest;
                    lines.push(line);
                    proof {
                        assert(lines@.map_values(|l: Vec<u8>| l@) =~= lines_pre.push(
                            pre.take(p as int),
                        ));
                        assert(lines_pre.push(pre.take(p as int)) + lines_of(self@)
                            =~= lines_pre + (seq![pre.take(p as int)] + lines_of(
                            pre.skip(p as int + 1),
                        )));
                        assert(lines@.map_values(|l: Vec<u8>| l@) + lines_of(self@) =~= lines_of(
                            orig,
                        ));
                    }
                },
                None => {
                    proof {
                        lemma_no_nl(self@);
                        assert(lines@.map_values(|l: Vec<u8>| l@) + lines_of(self@)
                            =~= lines@.map_values(|l: Vec<u8>| l@));
                        assert(orig == old(self)@ + chunk@);
                        assert(self@ == rem_of(orig));
                        assert(lines@.map_values(|l: Vec<u8>| l@) == lines_of(orig));
                    }
                    return lines;
                },
            }
        }
    }
}

} // verus!
