//! Bounded routing hints read from a natural-language goal: an explicit
//! service name, the first HTTP(S) URL, and whether a web-gateway check is
//! relevant. Nothing is invented: a hint is present only when the goal
//! states it.
use vstd::prelude::*;
use crate::text::{
    chars_of, contains_any, has_any_infix, has_prefix, is_white, is_white_char, lower_chars,
    lower_text, occurs_at, occurs_at_exec, starts_with_seq, string_from_chars, views,
};

verus! {

/// Hints handed to planning.
#[derive(Debug)]
pub struct PlanningHints {
    pub service: Option<String>,
    pub http_url: Option<String>,
    pub include_nginx_test: bool,
}

/// Words that make a web-gateway test relevant.
pub const NGINX_HINT_WORDS: [&'static str; 5] = ["nginx", "网站", "website", "gateway", "反向代理"];

/// First position at or after `from` where `needle` (non-empty) occurs, or
/// the length of `hay` when it does not occur there.
pub open spec fn find_from(hay: Seq<char>, needle: Seq<char>, from: int) -> int
    decreases hay.len() - from,
{
    if from < 0 || needle.len() == 0 || from + needle.len() > hay.len() {
        hay.len() as int
    } else if occurs_at(hay, needle, from) {
        from
    } else {
        find_from(hay, needle, from + 1)
    }
}

/// `needle` occurs at or after `from`.
pub open spec fn found_from(hay: Seq<char>, needle: Seq<char>, from: int) -> bool {
    find_from(hay, needle, from) + needle.len() <= hay.len()
}

/// The second piece of `hay.split(needle)`: the text between the first
/// occurrence of `needle` and the next one (or the end).
pub open spec fn second_piece(hay: Seq<char>, needle: Seq<char>) -> Option<Seq<char>> {
    if found_from(hay, needle, 0) {
        let start = find_from(hay, needle, 0) + needle.len();
        Some(hay.subrange(start, find_from(hay, needle, start)))
    } else {
        None
    }
}

/// First index at or after `k` holding whitespace, or the length.
pub open spec fn first_white_from(s: Seq<char>, k: int) -> int
    decreases s.len() - k,
{
    if k < 0 || k >= s.len() {
        s.len() as int
    } else if is_white(s[k]) {
        k
    } else {
        first_white_from(s, k + 1)
    }
}

/// First index at or after `k` holding a non-whitespace character, or the
/// length.
pub open spec fn first_nonwhite_from(s: Seq<char>, k: int) -> int
    decreases s.len() - k,
{
    if k < 0 || k >= s.len() {
        s.len() as int
    } else if !is_white(s[k]) {
        k
    } else {
        first_nonwhite_from(s, k + 1)
    }
}

/// The first whitespace-separated token (`split_whitespace().next()`).
pub open spec fn first_token(s: Seq<char>) -> Option<Seq<char>> {
    let a = first_nonwhite_from(s, 0);
    if a >= s.len() {
        None
    } else {
        Some(s.subrange(a, first_white_from(s, a)))
    }
}

/// A colon, ASCII or full-width.
pub open spec fn is_colon(c: char) -> bool {
    c == ':' || c == '：'
}

/// First index at or after `k` holding a colon, or the length.
pub open spec fn first_colon_from(s: Seq<char>, k: int) -> int
    decreases s.len() - k,
{
    if k < 0 || k >= s.len() {
        s.len() as int
    } else if is_colon(s[k]) {
        k
    } else {
        first_colon_from(s, k + 1)
    }
}

/// The second piece of `s.split([':', '：'])`.
pub open spec fn second_colon_piece(s: Seq<char>) -> Option<Seq<char>> {
    let c = first_colon_from(s, 0);
    if c >= s.len() {
        None
    } else {
        Some(s.subrange(c + 1, first_colon_from(s, c + 1)))
    }
}

/// A quote or comma wrapped around a URL.
pub open spec fn is_wrap(c: char) -> bool {
    c == '"' || c == '\'' || c == ','
}

pub open spec fn lead_wrap(s: Seq<char>) -> nat
    decreases s.len(),
{
    if s.len() > 0 && is_wrap(s[0]) { 1 + lead_wrap(s.drop_first()) } else { 0 }
}

pub open spec fn trail_wrap(s: Seq<char>) -> nat
    decreases s.len(),
{
    if s.len() > 0 && is_wrap(s.last()) { 1 + trail_wrap(s.drop_last()) } else { 0 }
}

/// The token without surrounding quotes and commas (`trim_matches`).
pub open spec fn strip_wrap(s: Seq<char>) -> Seq<char> {
    let t = s.skip(lead_wrap(s) as int);
    t.take(t.len() - trail_wrap(t))
}

/// A stripped token that is an HTTP(S) URL.
pub open spec fn is_url(t: Seq<char>) -> bool {
    has_prefix(t, "http://"@) || has_prefix(t, "https://"@)
}

/// The first URL among the whitespace-separated tokens from position `k` on.
pub open spec fn url_from(s: Seq<char>, k: int) -> Option<Seq<char>>
    decreases s.len() - k,
{
    let a = first_nonwhite_from(s, k);
    if k < 0 || a >= s.len() {
        None
    } else {
        proof {
            if k <= s.len() {
                lemma_first_nonwhite_bounds(s, k);
                lemma_first_white_bounds(s, a);
            }
        }
        let b = first_white_from(s, a);
        let tok = strip_wrap(s.subrange(a, b));
        if b <= a {
            None
        } else if is_url(tok) {
            Some(tok)
        } else {
            url_from(s, b)
        }
    }
}

/// The service named in the goal: the first token after the first
/// `service:` of the lower-cased goal; else after the first `systemd:`; else
/// the first token between the first colon and the next one after the first
/// `服务` of the goal.
pub open spec fn service_hint(text: Seq<char>) -> Option<Seq<char>> {
    let lower = lower_text(text);
    if found_from(lower, "service:"@, 0) {
        first_token(second_piece(lower, "service:"@)->0)
    } else if found_from(lower, "systemd:"@, 0) {
        first_token(second_piece(lower, "systemd:"@)->0)
    } else if found_from(text, "服务"@, 0) {
        match second_colon_piece(second_piece(text, "服务"@)->0) {
            Some(segment) => first_token(segment),
            None => None,
        }
    } else {
        None
    }
}

/// Lemmas on the scanning definitions.
pub proof fn lemma_first_white_bounds(s: Seq<char>, k: int)
    requires
        0 <= k <= s.len(),
    ensures
        k <= first_white_from(s, k) <= s.len(),
        forall|j: int| k <= j < first_white_from(s, k) ==> !is_white(#[trigger] s[j]),
    decreases s.len() - k,
{
    if k < s.len() && !is_white(s[k]) {
        lemma_first_white_bounds(s, k + 1);
    }
}

pub proof fn lemma_first_nonwhite_bounds(s: Seq<char>, k: int)
    requires
        0 <= k <= s.len(),
    ensures
        k <= first_nonwhite_from(s, k) <= s.len(),
    decreases s.len() - k,
{
    if k < s.len() && is_white(s[k]) {
        lemma_first_nonwhite_bounds(s, k + 1);
    }
}

pub proof fn lemma_find_bounds(hay: Seq<char>, needle: Seq<char>, from: int)
    requires
        0 <= from <= hay.len(),
        needle.len() > 0,
    ensures
        from <= find_from(hay, needle, from) <= hay.len(),
    decreases hay.len() - from,
{
    if from + needle.len() <= hay.len() && !occurs_at(hay, needle, from) {
        lemma_find_bounds(hay, needle, from + 1);
    }
}

pub proof fn lemma_colon_bounds(s: Seq<char>, k: int)
    requires
        0 <= k <= s.len(),
    ensures
        k <= first_colon_from(s, k) <= s.len(),
    decreases s.len() - k,
{
    if k < s.len() && !is_colon(s[k]) {
        lemma_colon_bounds(s, k + 1);
    }
}

/// `find_from` over characters.
fn find_from_exec(hay: &[char], needle: &[char], from: usize) -> (r: usize)
    requires
        needle@.len() > 0,
        from <= hay@.len(),
    ensures
        r as int == find_from(hay@, needle@, from as int),
{
    let mut i = from;
    loop
        invariant
            from <= i <= hay@.len(),
            needle@.len() > 0,
            find_from(hay@, needle@, i as int) == find_from(hay@, needle@, from as int),
        decreases hay@.len() - i,
    {
        if needle.len() > hay.len() - i {
            return hay.len();
        }
        if occurs_at_exec(hay, needle, i) {
            return i;
        }
        i = i + 1;
    }
}

pub fn first_white_index(s: &[char], k: usize) -> (r: usize)
    requires
        k <= s@.len(),
    ensures
        r as int == first_white_from(s@, k as int),
{
    let mut i = k;
    while i < s.len() && !is_white_char(s[i])
        invariant
            k <= i <= s@.len(),
            first_white_from(s@, i as int) == first_white_from(s@, k as int),
        decreases s@.len() - i,
    {
        i = i + 1;
    }
    i
}

pub fn first_nonwhite_index(s: &[char], k: usize) -> (r: usize)
    requires
        k <= s@.len(),
    ensures
        r as int == first_nonwhite_from(s@, k as int),
{
    let mut i = k;
    while i < s.len() && is_white_char(s[i])
        invariant
            k <= i <= s@.len(),
            first_nonwhite_from(s@, i as int) == first_nonwhite_from(s@, k as int),
        decreases s@.len() - i,
    {
        i = i + 1;
    }
    i
}

fn first_colon_exec(s: &[char], k: usize) -> (r: usize)
    requires
        k <= s@.len(),
    ensures
        r as int == first_colon_from(s@, k as int),
{
    let mut i = k;
    while i < s.len() && !(s[i] == ':' || s[i] == '：')
        invariant
            k <= i <= s@.len(),
            first_colon_from(s@, i as int) == first_colon_from(s@, k as int),
        decreases s@.len() - i,
    {
        i = i + 1;
    }
    i
}

/// The characters `s[a..b]`.
fn slice_chars(s: &[char], a: usize, b: usize) -> (r: Vec<char>)
    requires
        a <= b <= s@.len(),
    ensures
        r@ == s@.subrange(a as int, b as int),
{
    let mut out: Vec<char> = Vec::new();
    let mut i = a;
    while i < b
        invariant
            a <= i <= b <= s@.len(),
            out@ == s@.subrange(a as int, i as int),
        decreases b - i,
    {
        out.push(s[i]);
        proof {
            assert(s@.subrange(a as int, i + 1) =~= s@.subrange(a as int, i as int).push(s@[i as int]));
        }
        i = i + 1;
    }
    out
}

/// `first_token` over characters.
fn first_token_exec(s: &[char]) -> (r: Option<Vec<char>>)
    ensures
        match r {
            Some(v) => first_token(s@) == Some(v@),
            None => first_token(s@) is None,
        },
{
    let a = first_nonwhite_index(s, 0);
    if a >= s.len() {
        return None;
    }
    let b = first_white_index(s, a);
    proof {
        lemma_first_white_bounds(s@, a as int);
    }
    Some(slice_chars(s, a, b))
}

/// `second_piece` over characters.
fn second_piece_exec(hay: &[char], needle: &[char]) -> (r: Option<Vec<char>>)
    requires
        needle@.len() > 0,
    ensures
        match r {
            Some(v) => second_piece(hay@, needle@) == Some(v@),
            None => second_piece(hay@, needle@) is None,
        },
{
    let i = find_from_exec(hay, needle, 0);
    proof {
        lemma_find_bounds(hay@, needle@, 0);
    }
    if needle.len() > hay.len() - i {
        return None;
    }
    let start = i + needle.len();
    let end = find_from_exec(hay, needle, start);
    proof {
        lemma_find_bounds(hay@, needle@, start as int);
    }
    Some(slice_chars(hay, start, end))
}

/// `second_colon_piece` over characters.
fn second_colon_piece_exec(s: &[char]) -> (r: Option<Vec<char>>)
    ensures
        match r {
            Some(v) => second_colon_piece(s@) == Some(v@),
            None => second_colon_piece(s@) is None,
        },
{
    let c = first_colon_exec(s, 0);
    proof {
        lemma_colon_bounds(s@, 0);
    }
    if c >= s.len() {
        return None;
    }
    let e = first_colon_exec(s, c + 1);
    proof {
        lemma_colon_bounds(s@, c + 1);
    }
    Some(slice_chars(s, c + 1, e))
}

/// `strip_wrap` over characters.
fn strip_wrap_exec(s: &[char]) -> (r: Vec<char>)
    ensures
        r@ == strip_wrap(s@),
{
    let n = s.len();
    let mut a: usize = 0;
    assert(s@.skip(0) =~= s@);
    while a < n && (s[a] == '"' || s[a] == '\'' || s[a] == ',')
        invariant
            a <= n == s@.len(),
            lead_wrap(s@.skip(a as int)) + a == lead_wrap(s@),
        decreases n - a,
    {
        proof {
            assert(s@.skip(a as int).drop_first() =~= s@.skip(a + 1));
            assert(s@.skip(a as int)[0] == s@[a as int]);
        }
        a = a + 1;
    }
    proof {
        if a < n {
            assert(s@.skip(a as int)[0] == s@[a as int]);
        }
    }
    let t = slice_chars(s, a, n);
    assert(t@ =~= s@.skip(a as int));
    let m = t.len();
    let mut b: usize = m;
    assert(t@.take(m as int) =~= t@);
    while b > 0 && (t[b - 1] == '"' || t[b - 1] == '\'' || t[b - 1] == ',')
        invariant
            b <= m == t@.len(),
            trail_wrap(t@.take(b as int)) + (m - b) == trail_wrap(t@),
        decreases b,
    {
        proof {
            assert(t@.take(b as int).drop_last() =~= t@.take(b - 1));
            assert(t@.take(b as int).last() == t@[b - 1]);
        }
        b = b - 1;
    }
    proof {
        if b > 0 {
            assert(t@.take(b as int).last() == t@[b - 1]);
        }
        assert(t@.take(m as int) =~= t@);
    }
    slice_chars(t.as_slice(), 0, b)
}

/// `url_from` over characters.
fn url_exec(s: &[char]) -> (r: Option<Vec<char>>)
    ensures
        match r {
            Some(v) => url_from(s@, 0) == Some(v@),
            None => url_from(s@, 0) is None,
        },
{
    let http: Vec<char> = chars_of("http://");
    let https: Vec<char> = chars_of("https://");
    let mut k: usize = 0;
    loop
        invariant
            k <= s@.len(),
            url_from(s@, k as int) == url_from(s@, 0),
            http@ == "http://"@,
            https@ == "https://"@,
        decreases s@.len() - k,
    {
        let a = first_nonwhite_index(s, k);
        proof {
            lemma_first_nonwhite_bounds(s@, k as int);
        }
        if a >= s.len() {
            return None;
        }
        let b = first_white_index(s, a);
        proof {
            lemma_first_white_bounds(s@, a as int);
        }
        let raw = slice_chars(s, a, b);
        let tok = strip_wrap_exec(raw.as_slice());
        if b <= a {
            return None;
        }
        if starts_with_seq(tok.as_slice(), http.as_slice()) || starts_with_seq(tok.as_slice(), https.as_slice()) {
            return Some(tok);
        }
        k = b;
    }
}

/// Routing hints of a goal.
pub fn planning_hints_from_goal(text: &str) -> (r: PlanningHints)
    ensures
        match r.service {
            Some(s) => service_hint(text@) == Some(s@),
            None => service_hint(text@) is None,
        },
        match r.http_url {
            Some(u) => url_from(text@, 0) == Some(u@),
            None => url_from(text@, 0) is None,
        },
        r.include_nginx_test == has_any_infix(lower_text(text@), views(NGINX_HINT_WORDS@)),
{
    proof {
        reveal_strlit("service:");
        reveal_strlit("systemd:");
        reveal_strlit("服务");
    }
    let chars = chars_of(text);
    let lower = lower_chars(chars.as_slice());
    let http_url = match url_exec(chars.as_slice()) {
        Some(v) => Some(string_from_chars(v.as_slice())),
        None => None,
    };
    let service_marker = chars_of("service:");
    let systemd_marker = chars_of("systemd:");
    let cn_marker = chars_of("服务");
    let token: Option<Vec<char>> = match second_piece_exec(lower.as_slice(), service_marker.as_slice()) {
        Some(piece) => first_token_exec(piece.as_slice()),
        None => match second_piece_exec(lower.as_slice(), systemd_marker.as_slice()) {
            Some(piece) => first_token_exec(piece.as_slice()),
            None => match second_piece_exec(chars.as_slice(), cn_marker.as_slice()) {
                Some(piece) => match second_colon_piece_exec(piece.as_slice()) {
                    Some(segment) => first_token_exec(segment.as_slice()),
                    None => None,
                },
                None => None,
            },
        },
    };
    let service = match token {
        Some(v) => Some(string_from_chars(v.as_slice())),
        None => None,
    };
    let include_nginx_test = contains_any(lower.as_slice(), NGINX_HINT_WORDS.as_slice());
    PlanningHints { service, http_url, include_nginx_test }
}

} // verus!
