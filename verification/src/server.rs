//! Server-side plumbing that is pure computation: service configuration,
//! host/port parsing from a URL, explicit base-URL selection, and the
//! calculator's input guard.

use vstd::prelude::*;

use crate::text::{trim_chars, trim_str};

verus! {

/// Configuration of the gateway service process.
pub struct RigServerConfig {
    pub host: String,
    pub port: u16,
    pub node_base: String,
    pub allowed_origins: Vec<String>,
}

/// Whether a character is a decimal digit.
pub open spec fn is_digit(c: char) -> bool {
    48 <= (c as u32) && (c as u32) <= 57
}

/// The value of a digit string, most significant digit first.
pub open spec fn digits_value(s: Seq<char>) -> int
    decreases s.len(),
{
    if s.len() == 0 {
        0
    } else {
        digits_value(s.drop_last()) * 10 + ((s.last() as u32) - 48)
    }
}

/// Whether every character is a digit.
pub open spec fn all_digits(s: Seq<char>) -> bool {
    forall|i: int| 0 <= i < s.len() ==> is_digit(#[trigger] s[i])
}

/// The parse of a port number: an optional `+` sign, then only digits,
/// with a value that fits.
pub open spec fn parse_u16_spec(s: Seq<char>) -> Option<u16> {
    let body = if s.len() > 0 && s[0] == '+' {
        s.drop_first()
    } else {
        s
    };
    if body.len() == 0 || !all_digits(body) || digits_value(body) > 65535 {
        None
    } else {
        Some(digits_value(body) as u16)
    }
}

/// A digit string's value only grows as digits are appended.
proof fn lemma_digits_monotone(s: Seq<char>, i: int)
    requires
        0 <= i <= s.len(),
        forall|j: int| 0 <= j < s.len() ==> is_digit(#[trigger] s[j]),
    ensures
        digits_value(s.take(i)) <= digits_value(s),
        digits_value(s.take(i)) >= 0,
    decreases s.len() - i,
{
    if i < s.len() {
        lemma_digits_nonneg(s.take(i));
        assert(s.take(i + 1).drop_last() =~= s.take(i));
        assert(s.take(i + 1).last() == s[i]);
        lemma_digits_monotone(s, i + 1);
        lemma_digits_nonneg(s.take(i));
        assert(digits_value(s.take(i + 1)) >= digits_value(s.take(i)));
    } else {
        assert(s.take(i) =~= s);
        lemma_digits_nonneg(s);
    }
}

/// A digit string's value is never negative.
proof fn lemma_digits_nonneg(s: Seq<char>)
    requires
        forall|j: int| 0 <= j < s.len() ==> is_digit(#[trigger] s[j]),
    ensures
        digits_value(s) >= 0,
    decreases s.len(),
{
    if s.len() > 0 {
        assert(forall|j: int| 0 <= j < s.drop_last().len() ==> s.drop_last()[j] == s[j]);
        lemma_digits_nonneg(s.drop_last());
    }
}

/// Parse a port number as the standard library would: optional `+`, then
/// digits, rejecting anything else or an out-of-range value.
pub fn parse_u16(s: &str) -> (r: Option<u16>)
    ensures
        r == parse_u16_spec(s@),
{
    let n = s.unicode_len();
    let mut start: usize = 0;
    if n > 0 && s.get_char(0) == '+' {
        start = 1;
    }
    let ghost body = if s@.len() > 0 && s@[0] == '+' {
        s@.drop_first()
    } else {
        s@
    };
    proof {
        assert(forall|j: int| 0 <= j < body.len() ==> body[j] == s@[j + start]);
    }
    if start == n {
        return None;
    }
    let mut val: u32 = 0;
    let mut i: usize = start;
    while i < n
        invariant
            start <= i <= n,
            n == s@.len(),
            start == (if s@.len() > 0 && s@[0] == '+' {
                1int
            } else {
                0int
            }),
            body == (if s@.len() > 0 && s@[0] == '+' {
                s@.drop_first()
            } else {
                s@
            }),
            forall|j: int| 0 <= j < i - start ==> is_digit(#[trigger] body[j]),
            val == digits_value(body.take(i - start)),
            val <= 65535,
        decreases n - i,
    {
        let c = s.get_char(i);
        let code = c as u32;
        if code < 48 || code > 57 {
            proof {
                assert(0 <= i - start < body.len());
                assert(body[i - start] == s@[i as int]);
                assert(!is_digit(body[i - start]));
                assert(!all_digits(body));
                assert(parse_u16_spec(s@) is None);
            }
            return None;
        }
        proof {
            assert(body[i - start] == s@[i as int]);
            assert(body.take(i - start + 1).drop_last() =~= body.take(i - start));
            assert(body.take(i - start + 1).last() == body[i - start]);
        }
        let d = code - 48;
        let next = val * 10 + d;
        if next > 65535 {
            proof {
                assert(forall|j: int| 0 <= j < i - start + 1 ==> is_digit(#[trigger] body[j]));
                assert(digits_value(body.take(i - start + 1)) == next);
                if all_digits(body) {
                    lemma_digits_monotone(body, i - start + 1);
                    assert(digits_value(body) > 65535);
                }
                assert(parse_u16_spec(s@) is None);
            }
            return None;
        }
        val = next;
        i += 1;
    }
    proof {
        assert(body.take(n - start) =~= body);
        assert(all_digits(body));
        assert(parse_u16_spec(s@) == Some(val as u16));
    }
    Some(val as u16)
}

/// The position of the first occurrence of a character.
pub open spec fn first_idx(s: Seq<char>, c: char) -> Option<int>
    decreases s.len(),
{
    if s.len() == 0 {
        None
    } else if s[0] == c {
        Some(0)
    } else {
        match first_idx(s.drop_first(), c) {
            Some(i) => Some(i + 1),
            None => None,
        }
    }
}

/// A first-match scan agrees with `first_idx`.
proof fn lemma_first_idx_found(s: Seq<char>, c: char, i: int)
    requires
        0 <= i < s.len(),
        s[i] == c,
        forall|j: int| 0 <= j < i ==> s[j] != c,
    ensures
        first_idx(s, c) == Some(i),
    decreases i,
{
    if i > 0 {
        assert(forall|j: int|
            0 <= j < s.drop_first().len() ==> s.drop_first()[j] == s[j + 1]);
        lemma_first_idx_found(s.drop_first(), c, i - 1);
    }
}

/// A full scan without a match agrees with `first_idx`.
proof fn lemma_first_idx_none(s: Seq<char>, c: char)
    requires
        forall|j: int| 0 <= j < s.len() ==> s[j] != c,
    ensures
        first_idx(s, c) is None,
    decreases s.len(),
{
    if s.len() > 0 {
        assert(forall|j: int|
            0 <= j < s.drop_first().len() ==> s.drop_first()[j] == s[j + 1]);
        lemma_first_idx_none(s.drop_first(), c);
    }
}

/// Find the first occurrence of a character.
pub fn find_char(s: &str, c: char) -> (r: Option<usize>)
    ensures
        match r {
            Some(i) => i < s@.len() && first_idx(s@, c) == Some(i as int),
            None => first_idx(s@, c) is None,
        },
{
    let n = s.unicode_len();
    let mut i: usize = 0;
    while i < n
        invariant
            i <= n,
            n == s@.len(),
            forall|j: int| 0 <= j < i ==> s@[j] != c,
        decreases n - i,
    {
        if s.get_char(i) == c {
            proof {
                lemma_first_idx_found(s@, c, i as int);
            }
            return Some(i);
        }
        i += 1;
    }
    proof {
        lemma_first_idx_none(s@, c);
    }
    None
}

/// Whether `s` starts with `p`.
pub open spec fn starts_with(s: Seq<char>, p: Seq<char>) -> bool {
    p.len() <= s.len() && s.take(p.len() as int) == p
}

/// Prefix test by characters.
pub fn starts_with_str(s: &str, p: &str) -> (r: bool)
    ensures
        r <==> starts_with(s@, p@),
{
    let sn = s.unicode_len();
    let pn = p.unicode_len();
    if pn > sn {
        proof {
            assert(!starts_with(s@, p@));
        }
        return false;
    }
    let mut i: usize = 0;
    while i < pn
        invariant
            i <= pn <= sn,
            sn == s@.len(),
            pn == p@.len(),
            forall|j: int| 0 <= j < i ==> s@[j] == p@[j],
        decreases pn - i,
    {
        if s.get_char(i) != p.get_char(i) {
            proof {
                assert(s@.take(pn as int)[i as int] != p@[i as int]);
            }
            return false;
        }
        i += 1;
    }
    proof {
        assert(s@.take(pn as int) =~= p@);
    }
    true
}

/// The scheme prefix dropped, where one stands.
pub open spec fn strip_scheme(t: Seq<char>) -> Seq<char> {
    if starts_with(t, "http://"@) {
        t.skip("http://"@.len() as int)
    } else if starts_with(t, "https://"@) {
        t.skip("https://"@.len() as int)
    } else {
        t
    }
}

/// The part before the first slash.
pub open spec fn up_to_slash(s: Seq<char>) -> Seq<char> {
    match first_idx(s, '/') {
        Some(i) => s.take(i),
        None => s,
    }
}

/// Host and port read from a URL-shaped text: scheme dropped, the part
/// before the first slash split at the first colon, a missing or
/// unparsable port defaulting to 3001, and an empty host rejected.
pub open spec fn parse_host_port_spec(raw: Seq<char>) -> Option<(Seq<char>, u16)> {
    let t = trim_chars(raw);
    if t.len() == 0 {
        None
    } else {
        let hp = trim_chars(up_to_slash(strip_scheme(t)));
        if hp.len() == 0 {
            None
        } else {
            let host = trim_chars(
                match first_idx(hp, ':') {
                    Some(i) => hp.take(i),
                    None => hp,
                },
            );
            let port: u16 = match first_idx(hp, ':') {
                Some(i) => {
                    let rest = hp.skip(i + 1);
                    let second = match first_idx(rest, ':') {
                        Some(j) => rest.take(j),
                        None => rest,
                    };
                    match parse_u16_spec(second) {
                        Some(p) => p,
                        None => 3001u16,
                    }
                },
                None => 3001u16,
            };
            if host.len() == 0 {
                None
            } else {
                Some((host, port))
            }
        }
    }
}

/// Parse the host and port out of a URL-shaped text.
pub fn parse_host_port_from_url(raw: &str) -> (r: Option<(String, u16)>)
    ensures
        match r {
            Some((host, port)) => parse_host_port_spec(raw@) matches Some((h, p)) && host@ == h
                && port == p,
            None => parse_host_port_spec(raw@) is None,
        },
{
    let trimmed = trim_str(raw);
    if trimmed.as_str().is_empty() {
        return None;
    }
    let t = trimmed.as_str();
    let tn = t.unicode_len();
    let without_scheme: String = if starts_with_str(t, "http://") {
        proof {
            reveal_strlit("http://");
        }
        t.substring_char(7, tn).to_owned()
    } else if starts_with_str(t, "https://") {
        proof {
            reveal_strlit("http://");
            reveal_strlit("https://");
        }
        t.substring_char(8, tn).to_owned()
    } else {
        proof {
            reveal_strlit("http://");
            reveal_strlit("https://");
        }
        t.to_owned()
    };
    proof {
        assert(without_scheme@ =~= strip_scheme(trimmed@));
    }
    let ws = without_scheme.as_str();
    let wn = ws.unicode_len();
    let head: String = match find_char(ws, '/') {
        Some(i) => ws.substring_char(0, i).to_owned(),
        None => ws.to_owned(),
    };
    proof {
        assert(head@ =~= up_to_slash(without_scheme@));
    }
    let host_port = trim_str(head.as_str());
    if host_port.as_str().is_empty() {
        return None;
    }
    let hp = host_port.as_str();
    let hn = hp.unicode_len();
    let (host_raw, port): (String, u16) = match find_char(hp, ':') {
        Some(i) => {
            let host_part = hp.substring_char(0, i).to_owned();
            let rest = hp.substring_char(i + 1, hn).to_owned();
            let rn = rest.as_str().unicode_len();
            let second: String = match find_char(rest.as_str(), ':') {
                Some(j) => rest.as_str().substring_char(0, j).to_owned(),
                None => rest,
            };
            let p = match parse_u16(second.as_str()) {
                Some(p) => p,
                None => 3001,
            };
            (host_part, p)
        },
        None => (host_port.clone(), 3001),
    };
    let host = trim_str(host_raw.as_str());
    if host.as_str().is_empty() {
        return None;
    }
    Some((host, port))
}

/// Whether a character may appear in a calculator expression: digits,
/// arithmetic operators, parentheses, separators, whitespace, letters and
/// underscores.
pub open spec fn allowed_expr_char(c: char) -> bool {
    ||| is_digit(c)
    ||| c == '+'
    ||| c == '-'
    ||| c == '*'
    ||| c == '/'
    ||| c == '%'
    ||| c == '^'
    ||| c == '('
    ||| c == ')'
    ||| c == '.'
    ||| c == ','
    ||| c == ' '
    ||| c == '\t'
    ||| c == '\n'
    ||| c == '\r'
    ||| c == '\u{b}'
    ||| c == '\u{c}'
    ||| (65 <= (c as u32) && (c as u32) <= 90)
    ||| (97 <= (c as u32) && (c as u32) <= 122)
    ||| c == '_'
}

/// Whether an expression holds only characters the calculator accepts.
pub fn is_safe_expression(expression: &str) -> (r: bool)
    ensures
        r <==> forall|i: int|
            0 <= i < expression@.len() ==> allowed_expr_char(#[trigger] expression@[i]),
{
    let n = expression.unicode_len();
    let mut i: usize = 0;
    while i < n
        invariant
            i <= n,
            n == expression@.len(),
            forall|j: int| 0 <= j < i ==> allowed_expr_char(#[trigger] expression@[j]),
        decreases n - i,
    {
        let c = expression.get_char(i);
        let code = c as u32;
        let ok = (48 <= code && code <= 57) || c == '+' || c == '-' || c == '*' || c == '/' || c
            == '%' || c == '^' || c == '(' || c == ')' || c == '.' || c == ',' || c == ' ' || c
            == '\t' || c == '\n' || c == '\r' || c == '\u{b}' || c == '\u{c}' || (65 <= code && code
            <= 90) || (97 <= code && code <= 122) || c == '_';
        if !ok {
            return false;
        }
        i += 1;
    }
    true
}

/// Why a calculator request is rejected.
pub enum CalculatorError {
    MissingExpression,
    InvalidCharacters,
    EvalError,
}

impl CalculatorError {
    /// The human-readable message of this error.
    pub fn message(&self) -> (r: &'static str)
        ensures
            match self {
                CalculatorError::MissingExpression => r@ == "Expression is required"@,
                CalculatorError::InvalidCharacters => r@
                    == "Expression contains unsupported characters"@,
                CalculatorError::EvalError => r@ == "Failed to evaluate expression"@,
            },
    {
        match self {
            CalculatorError::MissingExpression => "Expression is required",
            CalculatorError::InvalidCharacters => "Expression contains unsupported characters",
            CalculatorError::EvalError => "Failed to evaluate expression",
        }
    }
}

/// The calculator's input guard: an all-whitespace expression is missing,
/// one with a character outside the allowed class is rejected, anything
/// else may be handed to the evaluator.
pub fn calculator_check(expression: &str) -> (r: Result<(), CalculatorError>)
    ensures
        trim_chars(expression@).len() == 0 <==> r matches Err(
            CalculatorError::MissingExpression,
        ),
        r matches Err(CalculatorError::InvalidCharacters) <==> (trim_chars(expression@).len() > 0
            && !(forall|i: int|
            0 <= i < expression@.len() ==> allowed_expr_char(#[trigger] expression@[i]))),
        r is Ok <==> (trim_chars(expression@).len() > 0 && forall|i: int|
            0 <= i < expression@.len() ==> allowed_expr_char(#[trigger] expression@[i])),
{
    let t = trim_str(expression);
    if t.as_str().is_empty() {
        return Err(CalculatorError::MissingExpression);
    }
    if !is_safe_expression(expression) {
        return Err(CalculatorError::InvalidCharacters);
    }
    Ok(())
}

/// The explicitly configured base URL, where a non-blank one was supplied;
/// the caller falls back to its environment otherwise.
pub fn resolve_base_url(base_url: Option<String>) -> (r: Option<String>)
    ensures
        match base_url {
            Some(u) => if trim_chars(u@).len() > 0 {
                r matches Some(v) && v == u
            } else {
                r is None
            },
            None => r is None,
        },
{
    match base_url {
        Some(u) => {
            let t = trim_str(u.as_str());
            if !t.as_str().is_empty() {
                Some(u)
            } else {
                None
            }
        },
        None => None,
    }
}

} // verus!
