//! Character-level string helpers: equality, ASCII case folding, and
//! case-insensitive tag search over `&str` views.

use vstd::prelude::*;

verus! {

/// String equality on `&str`, decided by the character views.
pub fn str_eq(a: &str, b: &str) -> (r: bool)
    ensures
        r <==> a@ == b@,
{
    let a_string = a.to_owned();
    let b_string = b.to_owned();
    a_string == b_string
}

/// ASCII lower-casing of one character; other characters are unchanged.
pub open spec fn lower_char(c: char) -> char {
    if 65 <= (c as u32) && (c as u32) <= 90 {
        (((c as u8) + 32) as u8) as char
    } else {
        c
    }
}

/// Executable ASCII lower-casing, equal to `lower_char`.
pub fn lower_char_exec(c: char) -> (r: char)
    ensures
        r == lower_char(c),
{
    let n = c as u32;
    if 65 <= n && n <= 90 {
        ((c as u8) + 32) as char
    } else {
        c
    }
}

/// The decimal digit character for a value below ten.
pub open spec fn digit_char(d: int) -> char {
    ((48 + d) as u8) as char
}

/// The decimal notation of a number, most significant digit first.
pub open spec fn dec_of(n: nat) -> Seq<char>
    decreases n,
{
    if n < 10 {
        seq![digit_char(n as int)]
    } else {
        dec_of(n / 10).push(digit_char((n % 10) as int))
    }
}

/// The one-character string for a decimal digit.
fn digit_str(d: u64) -> (r: &'static str)
    requires
        d < 10,
    ensures
        r@ == seq![digit_char(d as int)],
{
    proof {
        reveal_strlit("0");
        reveal_strlit("1");
        reveal_strlit("2");
        reveal_strlit("3");
        reveal_strlit("4");
        reveal_strlit("5");
        reveal_strlit("6");
        reveal_strlit("7");
        reveal_strlit("8");
        reveal_strlit("9");
    }
    let r = match d {
        0 => "0",
        1 => "1",
        2 => "2",
        3 => "3",
        4 => "4",
        5 => "5",
        6 => "6",
        7 => "7",
        8 => "8",
        _ => "9",
    };
    proof {
        assert(r@ =~= seq![digit_char(d as int)]);
    }
    r
}

/// The decimal notation of a number.
pub fn u64_to_dec(n: u64) -> (r: String)
    ensures
        r@ == dec_of(n as nat),
    decreases n,
{
    if n < 10 {
        digit_str(n).to_owned()
    } else {
        let mut s = u64_to_dec(n / 10);
        s.append(digit_str(n % 10));
        proof {
            assert(s@ =~= dec_of(n as nat));
        }
        s
    }
}

/// Whitespace for character-level trimming.
pub open spec fn is_ws_char(c: char) -> bool {
    c == ' ' || c == '\t' || c == '\r' || c == '\n'
}

/// The character sequence with leading whitespace dropped.
pub open spec fn trim_front_chars(s: Seq<char>) -> Seq<char>
    decreases s.len(),
{
    if s.len() > 0 && is_ws_char(s[0]) {
        trim_front_chars(s.drop_first())
    } else {
        s
    }
}

/// The character sequence with trailing whitespace dropped.
pub open spec fn trim_back_chars(s: Seq<char>) -> Seq<char>
    decreases s.len(),
{
    if s.len() > 0 && is_ws_char(s.last()) {
        trim_back_chars(s.drop_last())
    } else {
        s
    }
}

/// The character sequence trimmed on both sides.
pub open spec fn trim_chars(s: Seq<char>) -> Seq<char> {
    trim_back_chars(trim_front_chars(s))
}

/// Where the first `a` characters are whitespace and character `a` is not
/// (or the end stands there), front trimming drops exactly `a` characters.
proof fn lemma_trim_front_chars_at(s: Seq<char>, a: int)
    requires
        0 <= a <= s.len(),
        forall|j: int| 0 <= j < a ==> is_ws_char(s[j]),
        a < s.len() ==> !is_ws_char(s[a]),
    ensures
        trim_front_chars(s) == s.skip(a),
    decreases a,
{
    if a == 0 {
        assert(s.skip(0) =~= s);
    } else {
        assert(forall|j: int|
            0 <= j < s.drop_first().len() ==> s.drop_first()[j] == s[j + 1]);
        lemma_trim_front_chars_at(s.drop_first(), a - 1);
        assert(s.drop_first().skip(a - 1) =~= s.skip(a));
    }
}

/// Where character `b - 1` is the last non-whitespace one, back trimming
/// keeps exactly the first `b` characters.
proof fn lemma_trim_back_chars_at(s: Seq<char>, b: int)
    requires
        0 <= b <= s.len(),
        forall|j: int| b <= j < s.len() ==> is_ws_char(s[j]),
        b > 0 ==> !is_ws_char(s[b - 1]),
    ensures
        trim_back_chars(s) == s.take(b),
    decreases s.len(),
{
    if b == s.len() {
        assert(s.take(b) =~= s);
    } else {
        assert(is_ws_char(s.last()));
        assert(forall|j: int| 0 <= j < s.drop_last().len() ==> s.drop_last()[j] == s[j]);
        lemma_trim_back_chars_at(s.drop_last(), b);
        assert(s.drop_last().take(b) =~= s.take(b));
    }
}

/// Whether the character at a position is whitespace.
fn ws_at(s: &str, a: usize) -> (r: bool)
    requires
        a < s@.len(),
    ensures
        r == is_ws_char(s@[a as int]),
{
    let c = s.get_char(a);
    c == ' ' || c == '\t' || c == '\r' || c == '\n'
}

/// Trim whitespace from both ends of a text.
pub fn trim_str(s: &str) -> (r: String)
    ensures
        r@ == trim_chars(s@),
{
    let n = s.unicode_len();
    let mut a: usize = 0;
    while a < n && ws_at(s, a)
        invariant
            a <= n,
            n == s@.len(),
            forall|j: int| 0 <= j < a ==> is_ws_char(s@[j]),
        decreases n - a,
    {
        a += 1;
    }
    proof {
        lemma_trim_front_chars_at(s@, a as int);
    }
    if a == n {
        proof {
            assert(s@.skip(a as int) =~= Seq::<char>::empty());
            lemma_trim_back_chars_at(s@.skip(a as int), 0);
        }
        return String::new();
    }
    let mut b: usize = n;
    while b > a + 1 && ws_at(s, b - 1)
        invariant
            a < b <= n,
            n == s@.len(),
            forall|j: int| b <= j < n ==> is_ws_char(s@[j]),
        decreases b,
    {
        b -= 1;
    }
    proof {
        assert(!is_ws_char(s@[a as int]));
        assert(forall|j: int|
            0 <= j < s@.skip(a as int).len() ==> s@.skip(a as int)[j] == s@[j + a]);
        lemma_trim_back_chars_at(s@.skip(a as int), b - a);
    }
    let r = s.substring_char(a, b).to_owned();
    proof {
        assert(r@ =~= s@.skip(a as int).take(b - a));
    }
    r
}

/// The tag `tag` occurs in `text` at character position `i`, comparing
/// ASCII-case-insensitively on the `text` side.
pub open spec fn tag_match_at(text: Seq<char>, i: int, tag: Seq<char>) -> bool {
    &&& 0 <= i
    &&& i + tag.len() <= text.len()
    &&& forall|j: int| 0 <= j < tag.len() ==> lower_char(text[i + j]) == tag[j]
}

/// The first tag of `tags` (in list order) that matches `text` at position `i`.
pub open spec fn first_match_in(tags: Seq<Seq<char>>, text: Seq<char>, i: int) -> Option<
    Seq<char>,
>
    decreases tags.len(),
{
    if tags.len() == 0 {
        None
    } else if tag_match_at(text, i, tags[0]) {
        Some(tags[0])
    } else {
        first_match_in(tags.drop_first(), text, i)
    }
}

/// The earliest position at or after `p` where some tag matches, together
/// with the length of the first matching tag in list order.
pub open spec fn find_tag_spec(text: Seq<char>, tags: Seq<Seq<char>>, p: int) -> Option<
    (int, int),
>
    decreases text.len() - p,
{
    if p < 0 || p >= text.len() {
        None
    } else {
        match first_match_in(tags, text, p) {
            Some(t) => Some((p, t.len() as int)),
            None => find_tag_spec(text, tags, p + 1),
        }
    }
}

/// Whether `tag` matches `text` at position `p`, case-insensitively on the
/// `text` side.
pub fn check_tag_at(text: &str, text_len: usize, p: usize, tag: &str) -> (r: bool)
    requires
        text_len == text@.len(),
        p < text@.len(),
    ensures
        r <==> tag_match_at(text@, p as int, tag@),
{
    let tag_len = tag.unicode_len();
    if tag_len > text_len - p {
        return false;
    }
    let mut j: usize = 0;
    while j < tag_len
        invariant
            j <= tag_len,
            tag_len == tag@.len(),
            text_len == text@.len(),
            p + tag_len <= text_len,
            forall|k: int| 0 <= k < j ==> lower_char(text@[p + k]) == tag@[k],
        decreases tag_len - j,
    {
        let tc = lower_char_exec(text.get_char(p + j));
        let gc = tag.get_char(j);
        if tc != gc {
            return false;
        }
        j += 1;
    }
    true
}

/// The first tag in `tags` matching at `p`, as its index in `tags`.
fn first_match_at(text: &str, text_len: usize, p: usize, tags: &Vec<&str>) -> (r: Option<usize>)
    requires
        text_len == text@.len(),
        p < text@.len(),
    ensures
        match r {
            Some(k) => k < tags@.len() && first_match_in(tags@.map_values(|t: &str| t@), text@, p as int)
                == Some(tags@[k as int]@),
            None => first_match_in(tags@.map_values(|t: &str| t@), text@, p as int) is None,
        },
{
    let ghost tag_views = tags@.map_values(|t: &str| t@);
    proof {
        assert(tag_views.skip(0) =~= tag_views);
    }
    let mut k: usize = 0;
    while k < tags.len()
        invariant
            k <= tags@.len(),
            text_len == text@.len(),
            p < text@.len(),
            tag_views == tags@.map_values(|t: &str| t@),
            first_match_in(tag_views, text@, p as int) == first_match_in(
                tag_views.skip(k as int),
                text@,
                p as int,
            ),
        decreases tags@.len() - k,
    {
        proof {
            assert(tag_views.skip(k as int)[0] == tag_views[k as int]);
        }
        if check_tag_at(text, text_len, p, tags[k]) {
            return Some(k);
        }
        proof {
            assert(tag_views.skip(k as int).drop_first() =~= tag_views.skip(k as int + 1));
        }
        k += 1;
    }
    proof {
        assert(tag_views.skip(k as int).len() == 0);
    }
    None
}

/// Find the nearest case-insensitive occurrence of any tag in `tags`,
/// returning its character position and the matched tag's character length.
pub fn find_first_tag(text: &str, tags: &Vec<&str>) -> (r: Option<(usize, usize)>)
    ensures
        match r {
            Some((i, l)) => find_tag_spec(text@, tags@.map_values(|t: &str| t@), 0) == Some(
                (i as int, l as int),
            ),
            None => find_tag_spec(text@, tags@.map_values(|t: &str| t@), 0) is None,
        },
{
    let ghost tag_views = tags@.map_values(|t: &str| t@);
    let text_len = text.unicode_len();
    let mut p: usize = 0;
    while p < text_len
        invariant
            p <= text_len,
            text_len == text@.len(),
            tag_views == tags@.map_values(|t: &str| t@),
            find_tag_spec(text@, tag_views, 0) == find_tag_spec(text@, tag_views, p as int),
        decreases text_len - p,
    {
        match first_match_at(text, text_len, p, tags) {
            Some(k) => {
                let l = tags[k].unicode_len();
                return Some((p, l));
            },
            None => {},
        }
        p += 1;
    }
    None
}

} // verus!
