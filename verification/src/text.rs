//! Character-level text helpers shared by the classifiers: ASCII case
//! folding, Unicode whitespace trimming, infix/prefix search and pattern
//! removal, each stated over the `Seq<char>` view of the text.
use vstd::prelude::*;

verus! {

/// ASCII lower-casing of one character; every other character is kept.
pub open spec fn ascii_lower(c: char) -> char {
    if 'A' <= c && c <= 'Z' {
        ((c as u32) + 32) as char
    } else {
        c
    }
}

/// ASCII lower-casing of a whole text.
pub open spec fn lower_text(s: Seq<char>) -> Seq<char> {
    s.map_values(|c: char| ascii_lower(c))
}

/// Unicode `White_Space`, the property that `char::is_whitespace` tests.
pub open spec fn is_white(c: char) -> bool {
    ||| c == ' '
    ||| ('\u{9}' <= c && c <= '\u{d}')
    ||| c == '\u{85}'
    ||| c == '\u{a0}'
    ||| c == '\u{1680}'
    ||| ('\u{2000}' <= c && c <= '\u{200a}')
    ||| c == '\u{2028}'
    ||| c == '\u{2029}'
    ||| c == '\u{202f}'
    ||| c == '\u{205f}'
    ||| c == '\u{3000}'
}

/// Number of leading whitespace characters.
pub open spec fn lead_white(s: Seq<char>) -> nat
    decreases s.len(),
{
    if s.len() > 0 && is_white(s[0]) {
        1 + lead_white(s.drop_first())
    } else {
        0
    }
}

/// Number of trailing whitespace characters.
pub open spec fn trail_white(s: Seq<char>) -> nat
    decreases s.len(),
{
    if s.len() > 0 && is_white(s.last()) {
        1 + trail_white(s.drop_last())
    } else {
        0
    }
}

/// The text without leading whitespace (`str::trim_start`).
pub open spec fn trim_start(s: Seq<char>) -> Seq<char> {
    s.skip(lead_white(s) as int)
}

/// The text without leading and trailing whitespace (`str::trim`).
pub open spec fn trim(s: Seq<char>) -> Seq<char> {
    let t = trim_start(s);
    t.take(t.len() - trail_white(t))
}

/// `needle` occurs in `hay` starting at position `i`.
pub open spec fn occurs_at(hay: Seq<char>, needle: Seq<char>, i: int) -> bool {
    0 <= i && i + needle.len() <= hay.len() && hay.subrange(i, i + needle.len()) == needle
}

/// `needle` occurs somewhere in `hay` (`str::contains`).
pub open spec fn has_infix(hay: Seq<char>, needle: Seq<char>) -> bool {
    exists|i: int| occurs_at(hay, needle, i)
}

/// `hay` starts with `needle` (`str::starts_with`).
pub open spec fn has_prefix(hay: Seq<char>, needle: Seq<char>) -> bool {
    occurs_at(hay, needle, 0)
}

/// `hay` ends with `needle` (`str::ends_with`).
pub open spec fn has_suffix(hay: Seq<char>, needle: Seq<char>) -> bool {
    occurs_at(hay, needle, hay.len() - needle.len())
}

/// One of `needles` occurs in `hay`.
pub open spec fn has_any_infix(hay: Seq<char>, needles: Seq<Seq<char>>) -> bool {
    exists|k: int| 0 <= k < needles.len() && has_infix(hay, #[trigger] needles[k])
}

/// `hay` starts with one of `prefixes`.
pub open spec fn has_any_prefix(hay: Seq<char>, prefixes: Seq<Seq<char>>) -> bool {
    exists|k: int| 0 <= k < prefixes.len() && has_prefix(hay, #[trigger] prefixes[k])
}

/// Every non-overlapping occurrence of `pat`, scanning left to right,
/// removed (`str::replace(pat, "")`).
pub open spec fn remove_all(s: Seq<char>, pat: Seq<char>) -> Seq<char>
    decreases s.len(),
{
    if pat.len() == 0 || s.len() < pat.len() {
        s
    } else if s.take(pat.len() as int) == pat {
        remove_all(s.skip(pat.len() as int), pat)
    } else {
        seq![s[0]].add(remove_all(s.drop_first(), pat))
    }
}

/// The views of a list of string slices.
pub open spec fn views(strs: Seq<&str>) -> Seq<Seq<char>> {
    strs.map_values(|s: &str| s@)
}

/// The characters of a string slice.
pub fn chars_of(s: &str) -> (v: Vec<char>)
    ensures
        v@ == s@,
{
    let mut v: Vec<char> = Vec::new();
    for c in it: s.chars()
        invariant
            it.seq() == s@,
            v@ == s@.take(it.index() as int),
    {
        proof {
            assert(s@.take(it.index() as int + 1) == s@.take(it.index() as int).push(c));
        }
        v.push(c);
    }
    assert(v@ =~= s@);
    v
}

/// Builds an owned string holding exactly the given characters.
///
/// Calls `FromIterator<char>` for `String`; the contract claims that the
/// result holds the characters in order, which is what std documents.
#[verifier::external_body]
pub(crate) fn string_from_chars(chars: &[char]) -> (s: String)
    ensures
        s@ == chars@,
{
    chars.iter().collect::<String>()
}

pub fn ascii_lower_char(c: char) -> (r: char)
    ensures
        r == ascii_lower(c),
{
    if 'A' <= c && c <= 'Z' {
        let code: u32 = c as u32;
        let lowered: u8 = (code + 32) as u8;
        lowered as char
    } else {
        c
    }
}

/// ASCII lower-casing (`str::to_ascii_lowercase`) of a character slice.
pub fn lower_chars(s: &[char]) -> (r: Vec<char>)
    ensures
        r@ == lower_text(s@),
{
    let mut r: Vec<char> = Vec::new();
    let n = s.len();
    for i in 0..n
        invariant
            n == s@.len(),
            r@.len() == i,
            forall|j: int| 0 <= j < i ==> r@[j] == ascii_lower(s@[j]),
    {
        let c = ascii_lower_char(s[i]);
        r.push(c);
    }
    proof {
        assert(r@ =~= lower_text(s@));
    }
    r
}

pub fn is_white_char(c: char) -> (r: bool)
    ensures
        r == is_white(c),
{
    c == ' ' || ('\u{9}' <= c && c <= '\u{d}') || c == '\u{85}' || c == '\u{a0}'
        || c == '\u{1680}' || ('\u{2000}' <= c && c <= '\u{200a}') || c == '\u{2028}'
        || c == '\u{2029}' || c == '\u{202f}' || c == '\u{205f}' || c == '\u{3000}'
}

proof fn lemma_lead_white_bound(s: Seq<char>)
    ensures
        lead_white(s) <= s.len(),
        forall|j: int| 0 <= j < lead_white(s) ==> is_white(#[trigger] s[j]),
        lead_white(s) < s.len() ==> !is_white(s[lead_white(s) as int]),
    decreases s.len(),
{
    if s.len() > 0 && is_white(s[0]) {
        lemma_lead_white_bound(s.drop_first());
        assert forall|j: int| 0 <= j < lead_white(s) implies is_white(#[trigger] s[j]) by {
            if j > 0 {
                assert(s[j] == s.drop_first()[j - 1]);
            }
        }
    }
}

proof fn lemma_lead_white_skip(s: Seq<char>, i: int)
    requires
        0 <= i <= s.len(),
        forall|j: int| 0 <= j < i ==> is_white(#[trigger] s[j]),
    ensures
        lead_white(s) == i + lead_white(s.skip(i)),
    decreases i,
{
    if i > 0 {
        assert(is_white(s[0]));
        let t = s.drop_first();
        assert forall|j: int| 0 <= j < i - 1 implies is_white(#[trigger] t[j]) by {
            assert(t[j] == s[j + 1]);
        }
        lemma_lead_white_skip(t, i - 1);
        assert(t.skip(i - 1) =~= s.skip(i));
    } else {
        assert(s.skip(0) =~= s);
    }
}

proof fn lemma_trail_white_bound(s: Seq<char>)
    ensures
        trail_white(s) <= s.len(),
        forall|j: int| s.len() - trail_white(s) <= j < s.len() ==> is_white(#[trigger] s[j]),
        trail_white(s) < s.len() ==> !is_white(s[s.len() - trail_white(s) - 1]),
    decreases s.len(),
{
    if s.len() > 0 && is_white(s.last()) {
        lemma_trail_white_bound(s.drop_last());
        assert forall|j: int| s.len() - trail_white(s) <= j < s.len() implies is_white(
            #[trigger] s[j],
        ) by {
            if j < s.len() - 1 {
                assert(s[j] == s.drop_last()[j]);
            }
        }
        if trail_white(s) < s.len() {
            assert(s[s.len() - trail_white(s) - 1] == s.drop_last()[s.drop_last().len()
                - trail_white(s.drop_last()) - 1]);
        }
    }
}

proof fn lemma_trail_white_take(s: Seq<char>, e: int)
    requires
        0 <= e <= s.len(),
        forall|j: int| e <= j < s.len() ==> is_white(#[trigger] s[j]),
    ensures
        trail_white(s) == (s.len() - e) + trail_white(s.take(e)),
    decreases s.len() - e,
{
    if e < s.len() {
        assert(is_white(s.last()));
        let t = s.drop_last();
        assert forall|j: int| e <= j < t.len() implies is_white(#[trigger] t[j]) by {
            assert(t[j] == s[j]);
        }
        lemma_trail_white_take(t, e);
        assert(t.take(e) =~= s.take(e));
    } else {
        assert(s.take(e) =~= s);
    }
}

/// Bounds `[start, end)` of the trimmed text (`str::trim`).
pub fn trim_bounds(s: &[char]) -> (r: (usize, usize))
    ensures
        r.0 <= r.1 <= s@.len(),
        s@.subrange(r.0 as int, r.1 as int) == trim(s@),
        r.0 as int == lead_white(s@),
{
    let n = s.len();
    let mut start: usize = 0;
    while start < n && is_white_char(s[start])
        invariant
            start <= n,
            n == s@.len(),
            forall|j: int| 0 <= j < start ==> is_white(#[trigger] s@[j]),
        decreases n - start,
    {
        start = start + 1;
    }
    proof {
        lemma_lead_white_skip(s@, start as int);
        if start < n {
            assert(s@.skip(start as int)[0] == s@[start as int]);
        }
        assert(lead_white(s@.skip(start as int)) == 0);
    }
    let mut end: usize = n;
    while end > start && is_white_char(s[end - 1])
        invariant
            start <= end <= n,
            n == s@.len(),
            forall|j: int| end <= j < n ==> is_white(#[trigger] s@[j]),
        decreases end - start,
    {
        end = end - 1;
    }
    proof {
        let t = trim_start(s@);
        assert(t =~= s@.skip(start as int));
        let e = end - start;
        assert forall|j: int| e <= j < t.len() implies is_white(#[trigger] t[j]) by {
            assert(t[j] == s@[j + start]);
        }
        lemma_trail_white_take(t, e as int);
        if e > 0 {
            assert(t.take(e as int).last() == s@[end - 1]);
        }
        assert(trail_white(t.take(e as int)) == 0);
        assert(t.take(t.len() - trail_white(t)) =~= s@.subrange(start as int, end as int));
    }
    (start, end)
}

/// Whether `needle` occurs at position `i` of `hay`.
pub fn occurs_at_exec(hay: &[char], needle: &[char], i: usize) -> (r: bool)
    ensures
        r == occurs_at(hay@, needle@, i as int),
{
    let m = needle.len();
    if i > hay.len() || m > hay.len() - i {
        return false;
    }
    let mut k: usize = 0;
    while k < m
        invariant
            k <= m,
            m == needle@.len(),
            i + m <= hay.len(),
            forall|j: int| 0 <= j < k ==> hay@[i + j] == needle@[j],
        decreases m - k,
    {
        if hay[i + k] != needle[k] {
            proof {
                assert(hay@.subrange(i as int, i + m)[k as int] != needle@[k as int]);
            }
            return false;
        }
        k = k + 1;
    }
    proof {
        assert(hay@.subrange(i as int, i + m) =~= needle@);
    }
    true
}

/// `str::contains` over characters.
pub fn contains_seq(hay: &[char], needle: &[char]) -> (r: bool)
    ensures
        r == has_infix(hay@, needle@),
{
    let n = hay.len();
    let m = needle.len();
    if m > n {
        proof {
            assert forall|i: int| !occurs_at(hay@, needle@, i) by {}
        }
        return false;
    }
    let last = n - m;
    let mut i: usize = 0;
    loop
        invariant
            i <= last,
            last == n - m,
            n == hay@.len(),
            m == needle@.len(),
            forall|j: int| 0 <= j < i ==> !occurs_at(hay@, needle@, j),
        ensures
            forall|j: int| 0 <= j <= last ==> !occurs_at(hay@, needle@, j),
        decreases last - i,
    {
        if occurs_at_exec(hay, needle, i) {
            return true;
        }
        if i == last {
            break;
        }
        i = i + 1;
    }
    proof {
        assert forall|j: int| !occurs_at(hay@, needle@, j) by {
            if 0 <= j <= last {
            }
        }
    }
    false
}

/// `str::starts_with` over characters.
pub fn starts_with_seq(hay: &[char], needle: &[char]) -> (r: bool)
    ensures
        r == has_prefix(hay@, needle@),
{
    occurs_at_exec(hay, needle, 0)
}

/// `str::ends_with` over characters.
pub fn ends_with_seq(hay: &[char], needle: &[char]) -> (r: bool)
    ensures
        r == has_suffix(hay@, needle@),
{
    if needle.len() > hay.len() {
        return false;
    }
    occurs_at_exec(hay, needle, hay.len() - needle.len())
}

/// Whether any of the given literals occurs in `value`.
pub fn contains_any(value: &[char], needles: &[&str]) -> (r: bool)
    ensures
        r == has_any_infix(value@, views(needles@)),
{
    let n = needles.len();
    for k in 0..n
        invariant
            n == needles@.len(),
            forall|j: int| 0 <= j < k ==> !has_infix(value@, #[trigger] views(needles@)[j]),
    {
        let needle = chars_of(needles[k]);
        if contains_seq(value, needle.as_slice()) {
            proof {
                assert(views(needles@)[k as int] == needle@);
            }
            return true;
        }
        proof {
            assert(views(needles@)[k as int] == needle@);
        }
    }
    false
}

/// Whether `value` starts with any of the given literals.
pub fn starts_with_any(value: &[char], prefixes: &[&str]) -> (r: bool)
    ensures
        r == has_any_prefix(value@, views(prefixes@)),
{
    let n = prefixes.len();
    for k in 0..n
        invariant
            n == prefixes@.len(),
            forall|j: int| 0 <= j < k ==> !has_prefix(value@, #[trigger] views(prefixes@)[j]),
    {
        let prefix = chars_of(prefixes[k]);
        if starts_with_seq(value, prefix.as_slice()) {
            proof {
                assert(views(prefixes@)[k as int] == prefix@);
            }
            return true;
        }
        proof {
            assert(views(prefixes@)[k as int] == prefix@);
        }
    }
    false
}

proof fn lemma_remove_all_step(s: Seq<char>, pat: Seq<char>, i: int)
    requires
        pat.len() > 0,
        0 <= i,
        i + pat.len() <= s.len(),
    ensures
        s.skip(i).take(pat.len() as int) == pat ==> remove_all(s.skip(i), pat) == remove_all(
            s.skip(i + pat.len()),
            pat,
        ),
        s.skip(i).take(pat.len() as int) != pat ==> remove_all(s.skip(i), pat) == seq![s[i]].add(
            remove_all(s.skip(i + 1), pat),
        ),
{
    assert(s.skip(i).skip(pat.len() as int) =~= s.skip(i + pat.len()));
    assert(s.skip(i).drop_first() =~= s.skip(i + 1));
}

/// `str::replace(pat, "")` over characters.
pub fn remove_all_exec(s: &[char], pat: &[char]) -> (r: Vec<char>)
    requires
        pat@.len() > 0,
    ensures
        r@ == remove_all(s@, pat@),
{
    let n = s.len();
    let m = pat.len();
    let mut out: Vec<char> = Vec::new();
    let mut i: usize = 0;
    proof {
        assert(s@.skip(0) =~= s@);
    }
    while i < n
        invariant
            i <= n,
            n == s@.len(),
            m == pat@.len(),
            m > 0,
            out@ + remove_all(s@.skip(i as int), pat@) == remove_all(s@, pat@),
        decreases n - i,
    {
        if m <= n - i && occurs_at_exec(s, pat, i) {
            proof {
                lemma_remove_all_step(s@, pat@, i as int);
                assert(s@.skip(i as int).take(m as int) =~= s@.subrange(i as int, i + m));
            }
            i = i + m;
        } else {
            proof {
                let rest = s@.skip(i as int);
                if m <= n - i {
                    lemma_remove_all_step(s@, pat@, i as int);
                    assert(s@.skip(i as int).take(m as int) =~= s@.subrange(i as int, i + m));
                } else {
                    assert(rest.drop_first() =~= s@.skip(i + 1));
                    assert(rest[0] == s@[i as int]);
                }
                assert(out@.push(s@[i as int]) + remove_all(s@.skip(i + 1), pat@) =~= out@ + (
                seq![s@[i as int]].add(remove_all(s@.skip(i + 1), pat@))));
            }
            out.push(s[i]);
            i = i + 1;
        }
    }
    proof {
        assert(s@.skip(n as int).len() == 0);
        assert(out@ + remove_all(s@.skip(n as int), pat@) =~= out@);
    }
    out
}

} // verus!

verus! {

/// Character-wise equality of two slices.
pub fn same_chars(a: &[char], b: &[char]) -> (r: bool)
    ensures
        r == (a@ == b@),
{
    if a.len() != b.len() {
        return false;
    }
    let n = a.len();
    for i in 0..n
        invariant
            n == a@.len(),
            n == b@.len(),
            forall|j: int| 0 <= j < i ==> a@[j] == b@[j],
    {
        if a[i] != b[i] {
            return false;
        }
    }
    assert(a@ =~= b@);
    true
}

/// String equality (`==` on `str`).
pub fn text_eq(a: &str, b: &str) -> (r: bool)
    ensures
        r == (a@ == b@),
{
    let x = chars_of(a);
    let y = chars_of(b);
    same_chars(x.as_slice(), y.as_slice())
}

/// The first `max` characters of a text (`chars().take(max)`).
pub fn take_chars(s: &str, max: usize) -> (r: String)
    ensures
        r@ == s@.take(if s@.len() <= max { s@.len() as int } else { max as int }),
{
    let chars = chars_of(s);
    let n = if chars.len() <= max { chars.len() } else { max };
    let mut out: Vec<char> = Vec::new();
    for i in 0..n
        invariant
            n <= chars@.len(),
            chars@ == s@,
            out@ == s@.take(i as int),
    {
        out.push(chars[i]);
        proof {
            assert(s@.take(i + 1) =~= s@.take(i as int).push(s@[i as int]));
        }
    }
    string_from_chars(out.as_slice())
}

/// The characters of `str::trim(s)`.
pub fn trimmed_chars(s: &str) -> (r: Vec<char>)
    ensures
        r@ == trim(s@),
{
    let chars = chars_of(s);
    let (start, end) = trim_bounds(chars.as_slice());
    let mut out: Vec<char> = Vec::new();
    let mut i: usize = start;
    while i < end
        invariant
            start <= i <= end <= chars@.len(),
            out@ == chars@.subrange(start as int, i as int),
        decreases end - i,
    {
        out.push(chars[i]);
        proof {
            assert(chars@.subrange(start as int, i + 1) =~= chars@.subrange(start as int, i as int).push(chars@[i as int]));
        }
        i = i + 1;
    }
    out
}


/// `a` sorts before `b` when compared from position `i` on, in the order of
/// `str`: at the first differing position the smaller character decides,
/// and a text that runs out first sorts first.
pub open spec fn text_lt_from(a: Seq<char>, b: Seq<char>, i: nat) -> bool
    decreases a.len() - i,
{
    if i >= a.len() {
        i < b.len()
    } else if i >= b.len() {
        false
    } else if a[i as int] != b[i as int] {
        a[i as int] < b[i as int]
    } else {
        text_lt_from(a, b, i + 1)
    }
}

/// `a` sorts strictly before `b` in the order of `str`.
pub open spec fn text_lt(a: Seq<char>, b: Seq<char>) -> bool {
    text_lt_from(a, b, 0)
}

/// `a < b` on texts.
pub fn text_before(a: &str, b: &str) -> (r: bool)
    ensures
        r == text_lt(a@, b@),
{
    let x = chars_of(a);
    let y = chars_of(b);
    let mut i: usize = 0;
    while i < x.len() && i < y.len()
        invariant
            i <= x@.len(),
            i <= y@.len(),
            x@ == a@,
            y@ == b@,
            text_lt(a@, b@) == text_lt_from(a@, b@, i as nat),
        decreases x@.len() - i,
    {
        if x[i] != y[i] {
            return x[i] < y[i];
        }
        i = i + 1;
    }
    i < y.len()
}


/// No text sorts before itself.
pub proof fn lemma_text_lt_irreflexive(a: Seq<char>, i: nat)
    ensures
        !text_lt_from(a, a, i),
    decreases a.len() - i,
{
    if i < a.len() {
        lemma_text_lt_irreflexive(a, i + 1);
    }
}

/// Of two texts that differ from position `i` on, exactly one sorts first.
pub proof fn lemma_text_lt_total(a: Seq<char>, b: Seq<char>, i: nat)
    requires
        i <= a.len(),
        i <= b.len(),
    ensures
        !(text_lt_from(a, b, i) && text_lt_from(b, a, i)),
        a.skip(i as int) != b.skip(i as int) ==> text_lt_from(a, b, i) || text_lt_from(b, a, i),
    decreases a.len() - i,
{
    if i < a.len() && i < b.len() {
        if a[i as int] == b[i as int] {
            lemma_text_lt_total(a, b, i + 1);
            if a.skip(i as int) != b.skip(i as int) {
                if a.skip(i + 1 as int) == b.skip(i + 1 as int) {
                    assert(a.skip(i as int) =~= seq![a[i as int]] + a.skip(i + 1 as int));
                    assert(b.skip(i as int) =~= seq![b[i as int]] + b.skip(i + 1 as int));
                }
            }
        }
    } else if i == a.len() && i == b.len() {
        assert(a.skip(i as int) =~= b.skip(i as int));
    }
}

/// The order of texts is transitive.
pub proof fn lemma_text_lt_transitive(a: Seq<char>, b: Seq<char>, c: Seq<char>, i: nat)
    requires
        text_lt_from(a, b, i),
        text_lt_from(b, c, i),
    ensures
        text_lt_from(a, c, i),
    decreases a.len() - i,
{
    if i < a.len() && i < b.len() && i < c.len() && a[i as int] == b[i as int] && b[i as int] == c[i as int] {
        lemma_text_lt_transitive(a, b, c, i + 1);
    }
}

/// The UTF-8 length of a text, as `str::len` gives it.
pub open spec fn byte_len(s: Seq<char>) -> usize {
    vstd::utf8::encode_utf8(s).len() as usize
}

} // verus!
