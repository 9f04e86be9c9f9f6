//! Tool artifacts: large tool outputs are kept out of model context, which
//! receives a summary and a reference instead. Bounded search, read and tail
//! retrieve slices of an artifact without injecting it whole.
use vstd::prelude::*;
use std::collections::HashMap;
use vstd::utf8::{encode_utf8, is_char_boundary, valid_utf8};
use crate::ids::new_id;
use crate::text::{
    chars_of, contains_seq, has_infix, lower_chars, lower_text, string_from_chars, trim,
    trimmed_chars,
};

verus! {

broadcast use vstd::std_specs::hash::group_hash_axioms;

/// Outputs larger than this many bytes are stored as artifacts.
pub const ARTIFACT_INLINE_THRESHOLD_BYTES: usize = 4096;
/// Most bytes returned by one read or tail.
pub const ARTIFACT_READ_MAX_BYTES: usize = 4096;
/// Most hits returned by one search.
pub const ARTIFACT_SEARCH_MAX_HITS: usize = 20;
/// Most characters of a line shown in a search hit.
pub const ARTIFACT_HIT_LINE_CHARS: usize = 400;

/// A stored tool output.
#[derive(Debug)]
pub struct ToolArtifact {
    pub id: u128,
    pub run_id: u128,
    pub tool_call_id: Option<u128>,
    pub tool_name: String,
    /// Redacted, bounded summary for model context.
    pub summary: String,
    /// Full redacted content, never injected whole into model context.
    pub content: String,
    pub byte_len: usize,
    pub created_at_epoch_ms: u64,
}

impl Clone for ToolArtifact {
    fn clone(&self) -> (r: ToolArtifact)
        ensures
            r == *self,
    {
        ToolArtifact {
            id: self.id,
            run_id: self.run_id,
            tool_call_id: self.tool_call_id,
            tool_name: self.tool_name.clone(),
            summary: self.summary.clone(),
            content: self.content.clone(),
            byte_len: self.byte_len,
            created_at_epoch_ms: self.created_at_epoch_ms,
        }
    }
}

/// What model context receives in place of an artifact.
#[derive(Debug)]
pub struct ArtifactReference {
    pub artifact_id: u128,
    pub tool_name: String,
    pub summary: String,
    pub byte_len: usize,
}

/// One matching line of an artifact.
#[derive(Debug)]
pub struct ArtifactSearchHit {
    pub line_number: usize,
    pub line: String,
}

#[derive(Clone, Copy, Debug, PartialEq, Eq, Structural)]
pub enum ArtifactStoreError {
    NotFound,
    PersistenceFailed,
}

impl ArtifactStoreError {
    pub fn code(&self) -> (r: &'static str)
        ensures
            r@ == (if *self is NotFound { "ARTIFACT_NOT_FOUND"@ } else { "ARTIFACT_PERSISTENCE_FAILED"@ }),
    {
        proof {
            reveal_strlit("ARTIFACT_NOT_FOUND");
            reveal_strlit("ARTIFACT_PERSISTENCE_FAILED");
        }
        match self {
            ArtifactStoreError::NotFound => "ARTIFACT_NOT_FOUND",
            ArtifactStoreError::PersistenceFailed => "ARTIFACT_PERSISTENCE_FAILED",
        }
    }
}

/// In-memory artifact store, keyed by artifact id; the store remembers the
/// order in which artifact ids were first stored.
pub struct InMemoryArtifactStore {
    artifacts: HashMap<u128, ToolArtifact>,
    order: Vec<u128>,
}

impl View for InMemoryArtifactStore {
    type V = Map<u128, ToolArtifact>;

    closed spec fn view(&self) -> Map<u128, ToolArtifact> {
        self.artifacts@
    }
}

/// The artifacts of `run_id`, in the order of `order`.
pub open spec fn run_artifacts(m: Map<u128, ToolArtifact>, order: Seq<u128>, run_id: u128) -> Seq<ToolArtifact>
    decreases order.len(),
{
    if order.len() == 0 {
        Seq::empty()
    } else if m[order.last()].run_id == run_id {
        run_artifacts(m, order.drop_last(), run_id).push(m[order.last()])
    } else {
        run_artifacts(m, order.drop_last(), run_id)
    }
}

/// `x` inserted into a list ordered by creation time, after every artifact
/// created at the same time or earlier.
pub open spec fn insert_by_time(sorted: Seq<ToolArtifact>, x: ToolArtifact) -> Seq<ToolArtifact>
    decreases sorted.len(),
{
    if sorted.len() == 0 {
        seq![x]
    } else if x.created_at_epoch_ms < sorted.last().created_at_epoch_ms {
        insert_by_time(sorted.drop_last(), x).push(sorted.last())
    } else {
        sorted.push(x)
    }
}

/// A stable sort by creation time: artifacts created at the same time keep
/// their order.
pub open spec fn sort_by_time(s: Seq<ToolArtifact>) -> Seq<ToolArtifact>
    decreases s.len(),
{
    if s.len() == 0 {
        Seq::empty()
    } else {
        insert_by_time(sort_by_time(s.drop_last()), s.last())
    }
}

/// Creation times never decrease along the list.
pub open spec fn time_ordered(s: Seq<ToolArtifact>) -> bool {
    forall|i: int, j: int| 0 <= i <= j < s.len() ==> (#[trigger] s[i]).created_at_epoch_ms <= (#[trigger] s[j]).created_at_epoch_ms
}

impl InMemoryArtifactStore {
    /// The order lists exactly the stored ids, each once, and each artifact
    /// is stored under its own id.
    pub closed spec fn wf(&self) -> bool {
        &&& self.order@.no_duplicates()
        &&& forall|i: int| 0 <= i < self.order@.len() ==> self.artifacts@.contains_key(#[trigger] self.order@[i])
        &&& forall|k: u128| #[trigger] self.artifacts@.contains_key(k) ==> self.order@.contains(k)
    }

    /// The ids in the order they were first stored.
    pub closed spec fn order(&self) -> Seq<u128> {
        self.order@
    }

    pub fn new() -> (r: InMemoryArtifactStore)
        ensures
            r@ == Map::<u128, ToolArtifact>::empty(),
            r.order() == Seq::<u128>::empty(),
            r.wf(),
    {
        InMemoryArtifactStore { artifacts: HashMap::new(), order: Vec::new() }
    }

    /// Stores an artifact under its id, replacing any earlier one; a new id
    /// goes to the end of the order.
    pub fn put(&mut self, artifact: ToolArtifact) -> (r: Result<(), ArtifactStoreError>)
        requires
            old(self).wf(),
        ensures
            final(self).wf(),
            r == Ok::<(), ArtifactStoreError>(()),
            final(self)@ == old(self)@.insert(artifact.id, artifact),
            final(self).order() == if old(self)@.contains_key(artifact.id) {
                old(self).order()
            } else {
                old(self).order().push(artifact.id)
            },
    {
        let id = artifact.id;
        if !self.artifacts.contains_key(&id) {
            proof {
                if self.order@.contains(id) {
                    let i = choose|i: int| 0 <= i < self.order@.len() && self.order@[i] == id;
                    assert(self.artifacts@.contains_key(self.order@[i]));
                }
            }
            self.order.push(id);
        }
        self.artifacts.insert(id, artifact);
        proof {
            assert forall|i: int| 0 <= i < self.order@.len() implies self.artifacts@.contains_key(#[trigger] self.order@[i]) by {
                if i < old(self).order@.len() {
                    assert(old(self).artifacts@.contains_key(old(self).order@[i]));
                }
            }
            assert forall|k: u128| #[trigger] self.artifacts@.contains_key(k) implies self.order@.contains(k) by {
                if k == id {
                    if !old(self)@.contains_key(id) {
                        assert(self.order@[self.order@.len() - 1] == id);
                    } else {
                        assert(old(self).order@.contains(id));
                        let i = choose|i: int| 0 <= i < old(self).order@.len() && old(self).order@[i] == id;
                        assert(self.order@[i] == id);
                    }
                } else {
                    assert(old(self).order@.contains(k));
                    let i = choose|i: int| 0 <= i < old(self).order@.len() && old(self).order@[i] == k;
                    assert(self.order@[i] == k);
                }
            }
        }
        Ok(())
    }

    /// A copy of the artifact with this id, if any.
    pub fn get(&self, artifact_id: u128) -> (r: Result<Option<ToolArtifact>, ArtifactStoreError>)
        ensures
            r == Ok::<Option<ToolArtifact>, ArtifactStoreError>(
                if self@.contains_key(artifact_id) { Some(self@[artifact_id]) } else { None },
            ),
    {
        match self.artifacts.get(&artifact_id) {
            Some(a) => Ok(Some(a.clone())),
            None => Ok(None),
        }
    }

    /// The artifacts of a run, oldest first; artifacts created at the same
    /// time come in the order they were stored.
    pub fn list_for_run(&self, run_id: u128) -> (r: Result<Vec<ToolArtifact>, ArtifactStoreError>)
        requires
            self.wf(),
        ensures
            r is Ok,
            r->Ok_0@ == sort_by_time(run_artifacts(self@, self.order(), run_id)),
    {
        let mut items: Vec<ToolArtifact> = Vec::new();
        let n = self.order.len();
        for i in 0..n
            invariant
                n == self.order@.len(),
                self.wf(),
                items@ == run_artifacts(self@, self.order@.take(i as int), run_id),
        {
            let id = self.order[i];
            proof {
                assert(self.order@.take(i + 1).drop_last() =~= self.order@.take(i as int));
                assert(self.artifacts@.contains_key(self.order@[i as int]));
            }
            match self.artifacts.get(&id) {
                Some(a) => {
                    if a.run_id == run_id {
                        items.push(a.clone());
                    }
                },
                None => {},
            }
        }
        proof {
            assert(self.order@.take(n as int) =~= self.order@);
        }
        let mut sorted: Vec<ToolArtifact> = Vec::new();
        let m = items.len();
        for i in 0..m
            invariant
                m == items@.len(),
                sorted@ == sort_by_time(items@.take(i as int)),
        {
            proof {
                assert(items@.take(i + 1).drop_last() =~= items@.take(i as int));
            }
            let x = items[i].clone();
            insert_sorted(&mut sorted, x);
        }
        proof {
            assert(items@.take(m as int) =~= items@);
        }
        Ok(sorted)
    }
}

/// Inserts `x` after every artifact created at its time or earlier.
fn insert_sorted(sorted: &mut Vec<ToolArtifact>, x: ToolArtifact)
    ensures
        final(sorted)@ == insert_by_time(old(sorted)@, x),
{
    let ghost s = sorted@;
    let mut j: usize = sorted.len();
    proof {
        assert(s.take(j as int) =~= s);
        assert(s.skip(j as int) =~= Seq::<ToolArtifact>::empty());
        assert(insert_by_time(s, x) =~= insert_by_time(s.take(j as int), x) + s.skip(j as int));
    }
    while j > 0 && x.created_at_epoch_ms < sorted[j - 1].created_at_epoch_ms
        invariant
            j <= s.len(),
            sorted@ == s,
            insert_by_time(s, x) == insert_by_time(s.take(j as int), x) + s.skip(j as int),
        decreases j,
    {
        proof {
            let t = s.take(j as int);
            assert(t.drop_last() =~= s.take(j - 1));
            assert(t.last() == s[j - 1]);
            assert(insert_by_time(t, x) == insert_by_time(s.take(j - 1), x).push(s[j - 1]));
            assert(insert_by_time(s.take(j - 1), x).push(s[j - 1]) + s.skip(j as int) =~= insert_by_time(s.take(j - 1), x)
                + s.skip(j - 1));
        }
        j = j - 1;
    }
    proof {
        let t = s.take(j as int);
        if j > 0 {
            assert(t.last() == s[j - 1]);
        }
        assert(insert_by_time(t, x) =~= t.push(x));
        assert(t.push(x) + s.skip(j as int) =~= s.insert(j as int, x));
    }
    sorted.insert(j, x);
}

/// Listing a run's artifacts gives them oldest first.
pub proof fn lemma_sorted_by_time(s: Seq<ToolArtifact>)
    ensures
        time_ordered(sort_by_time(s)),
        sort_by_time(s).len() == s.len(),
    decreases s.len(),
{
    if s.len() > 0 {
        lemma_sorted_by_time(s.drop_last());
        lemma_insert_keeps_order(sort_by_time(s.drop_last()), s.last());
    }
}

proof fn lemma_insert_keeps_order(sorted: Seq<ToolArtifact>, x: ToolArtifact)
    requires
        time_ordered(sorted),
    ensures
        time_ordered(insert_by_time(sorted, x)),
        insert_by_time(sorted, x).len() == sorted.len() + 1,
        insert_by_time(sorted, x).last().created_at_epoch_ms == if sorted.len() > 0 && x.created_at_epoch_ms
            < sorted.last().created_at_epoch_ms {
            sorted.last().created_at_epoch_ms
        } else {
            x.created_at_epoch_ms
        },
        forall|i: int| 0 <= i < insert_by_time(sorted, x).len() ==> (#[trigger] insert_by_time(sorted, x)[i]).created_at_epoch_ms
            <= if sorted.len() > 0 && x.created_at_epoch_ms < sorted.last().created_at_epoch_ms {
            sorted.last().created_at_epoch_ms
        } else {
            x.created_at_epoch_ms
        },
    decreases sorted.len(),
{
    if sorted.len() > 0 && x.created_at_epoch_ms < sorted.last().created_at_epoch_ms {
        let p = sorted.drop_last();
        assert(time_ordered(p)) by {
            assert forall|i: int, j: int| 0 <= i <= j < p.len() implies (#[trigger] p[i]).created_at_epoch_ms <= (#[trigger] p[j]).created_at_epoch_ms by {
                assert(p[i] == sorted[i]);
                assert(p[j] == sorted[j]);
            }
        }
        lemma_insert_keeps_order(p, x);
        let q = insert_by_time(p, x);
        let r = q.push(sorted.last());
        assert forall|i: int| 0 <= i < q.len() implies (#[trigger] q[i]).created_at_epoch_ms <= sorted.last().created_at_epoch_ms by {
            if p.len() > 0 && x.created_at_epoch_ms < p.last().created_at_epoch_ms {
                assert(p.last() == sorted[sorted.len() - 2]);
            }
        }
        assert forall|i: int, j: int| 0 <= i <= j < r.len() implies (#[trigger] r[i]).created_at_epoch_ms <= (#[trigger] r[j]).created_at_epoch_ms by {
            if j == r.len() - 1 {
                if i < r.len() - 1 {
                    assert(r[i] == q[i]);
                }
            } else {
                assert(r[i] == q[i]);
                assert(r[j] == q[j]);
            }
        }
    } else {
        let r = sorted.push(x);
        assert forall|i: int, j: int| 0 <= i <= j < r.len() implies (#[trigger] r[i]).created_at_epoch_ms <= (#[trigger] r[j]).created_at_epoch_ms by {
            if j == r.len() - 1 {
                if i < r.len() - 1 {
                    assert(r[i] == sorted[i]);
                    assert(sorted[i].created_at_epoch_ms <= sorted[sorted.len() - 1].created_at_epoch_ms);
                }
            } else {
                assert(r[i] == sorted[i]);
                assert(r[j] == sorted[j]);
            }
        }
        assert forall|i: int| 0 <= i < r.len() implies (#[trigger] r[i]).created_at_epoch_ms <= x.created_at_epoch_ms by {
            if i < r.len() - 1 {
                assert(r[i] == sorted[i]);
                assert(sorted[i].created_at_epoch_ms <= sorted[sorted.len() - 1].created_at_epoch_ms);
            }
        }
    }
}

/// Whether an output is too large to keep inline.
pub fn should_store_as_artifact(content: &str) -> (r: bool)
    ensures
        r == (encode_utf8(content@).len() > ARTIFACT_INLINE_THRESHOLD_BYTES),
{
    content.as_bytes().len() > ARTIFACT_INLINE_THRESHOLD_BYTES
}

/// The most characters of an artifact's summary kept for model context.
pub const ARTIFACT_SUMMARY_CHARS: usize = 300;

/// Stores a large tool output of a run as a fresh artifact, under a random
/// id, and returns it. Content and summary come redacted; the summary kept
/// for model context is cut to `ARTIFACT_SUMMARY_CHARS` characters and an ellipsis.
pub fn store_large_output(
    store: &mut InMemoryArtifactStore,
    run_id: u128,
    tool_call_id: u128,
    tool_name: &str,
    summary: &str,
    content: &str,
    created_at_epoch_ms: u64,
) -> (r: Result<ToolArtifact, ArtifactStoreError>)
    requires
        old(store).wf(),
    ensures
        final(store).wf(),
        r matches Ok(a) && {
            &&& a.run_id == run_id
            &&& a.tool_call_id == Some(tool_call_id)
            &&& a.tool_name@ == tool_name@
            &&& a.summary@ == truncated(summary@, ARTIFACT_SUMMARY_CHARS as int)
            &&& a.content@ == content@
            &&& a.byte_len == encode_utf8(content@).len()
            &&& a.created_at_epoch_ms == created_at_epoch_ms
            &&& final(store)@ == old(store)@.insert(a.id, a)
        },
{
    let artifact = ToolArtifact {
        id: new_id(),
        run_id,
        tool_call_id: Some(tool_call_id),
        tool_name: tool_name.to_owned(),
        summary: truncate_chars(summary, ARTIFACT_SUMMARY_CHARS),
        content: content.to_owned(),
        byte_len: content.as_bytes().len(),
        created_at_epoch_ms,
    };
    let stored = artifact.clone();
    match store.put(stored) {
        Ok(()) => Ok(artifact),
        Err(e) => Err(e),
    }
}

/// The reference that stands for an artifact in model context.
pub fn artifact_reference(artifact: &ToolArtifact) -> (r: ArtifactReference)
    ensures
        r.artifact_id == artifact.id,
        r.tool_name == artifact.tool_name,
        r.summary == artifact.summary,
        r.byte_len == artifact.byte_len,
{
    ArtifactReference {
        artifact_id: artifact.id,
        tool_name: artifact.tool_name.clone(),
        summary: artifact.summary.clone(),
        byte_len: artifact.byte_len,
    }
}

/// At most `max` characters of `s`, followed by an ellipsis when cut.
pub open spec fn truncated(s: Seq<char>, max: int) -> Seq<char> {
    if s.len() <= max { s } else { s.take(max) + seq!['…'] }
}

/// `truncated` over a character slice.
fn truncate_char_slice(s: &[char], max: usize) -> (r: Vec<char>)
    ensures
        r@ == truncated(s@, max as int),
{
    let n = if s.len() <= max { s.len() } else { max };
    let mut out: Vec<char> = Vec::new();
    let mut i: usize = 0;
    while i < n
        invariant
            i <= n <= s@.len(),
            out@ == s@.take(i as int),
        decreases n - i,
    {
        out.push(s[i]);
        proof {
            assert(s@.take(i + 1) =~= s@.take(i as int).push(s@[i as int]));
        }
        i = i + 1;
    }
    if s.len() > max {
        out.push('…');
    } else {
        assert(s@.take(n as int) =~= s@);
    }
    out
}

/// Text cut to at most `max_chars` characters, marked with an ellipsis when
/// cut.
pub fn truncate_chars(input: &str, max_chars: usize) -> (r: String)
    ensures
        r@ == truncated(input@, max_chars as int),
{
    let chars = chars_of(input);
    let out = truncate_char_slice(chars.as_slice(), max_chars);
    string_from_chars(out.as_slice())
}

// ---------------------------------------------------------------------------
// Lines
// ---------------------------------------------------------------------------

/// A line terminated by `\n` loses one trailing `\r`.
pub open spec fn strip_cr(line: Seq<char>) -> Seq<char> {
    if line.len() > 0 && line.last() == '\r' { line.drop_last() } else { line }
}

/// The completed lines of `s` and the unterminated rest.
pub open spec fn lines_scan(s: Seq<char>) -> (Seq<Seq<char>>, Seq<char>)
    decreases s.len(),
{
    if s.len() == 0 {
        (Seq::empty(), Seq::empty())
    } else {
        let (done, cur) = lines_scan(s.drop_last());
        if s.last() == '\n' {
            (done.push(strip_cr(cur)), Seq::empty())
        } else {
            (done, cur.push(s.last()))
        }
    }
}

/// The lines of a text (`str::lines`): split at `\n`, a `\r` before it
/// dropped, and no empty last line after a final line ending.
pub open spec fn lines_of(s: Seq<char>) -> Seq<Seq<char>> {
    let (done, cur) = lines_scan(s);
    if cur.len() > 0 { done.push(cur) } else { done }
}

/// The views of a list of character vectors.
pub open spec fn char_views(v: Seq<Vec<char>>) -> Seq<Seq<char>> {
    v.map_values(|x: Vec<char>| x@)
}

/// The lines of a character slice.
fn split_lines(s: &[char]) -> (r: Vec<Vec<char>>)
    ensures
        char_views(r@) == lines_of(s@),
{
    let mut done: Vec<Vec<char>> = Vec::new();
    let mut cur: Vec<char> = Vec::new();
    let mut i: usize = 0;
    while i < s.len()
        invariant
            i <= s@.len(),
            (char_views(done@), cur@) == lines_scan(s@.take(i as int)),
        decreases s@.len() - i,
    {
        proof {
            assert(s@.take(i + 1).drop_last() =~= s@.take(i as int));
        }
        if s[i] == '\n' {
            let mut line = cur;
            if line.len() > 0 && line[line.len() - 1] == '\r' {
                line.pop();
            }
            proof {
                assert(char_views(done@.push(line)) =~= char_views(done@).push(line@));
            }
            done.push(line);
            cur = Vec::new();
        } else {
            cur.push(s[i]);
        }
        i = i + 1;
    }
    assert(s@.take(s@.len() as int) =~= s@);
    if cur.len() > 0 {
        proof {
            assert(char_views(done@.push(cur)) =~= char_views(done@).push(cur@));
        }
        done.push(cur);
    }
    done
}

// ---------------------------------------------------------------------------
// Search
// ---------------------------------------------------------------------------

/// The hits among the first `n` lines: one-based line number and the line
/// cut for display, for each line whose lower-cased text contains `query`.
pub open spec fn hits_upto(lines: Seq<Seq<char>>, query: Seq<char>, n: int) -> Seq<(int, Seq<char>)>
    decreases n,
{
    if n <= 0 {
        Seq::empty()
    } else {
        let prev = hits_upto(lines, query, n - 1);
        if has_infix(lower_text(lines[n - 1]), query) {
            prev.push((n, truncated(lines[n - 1], ARTIFACT_HIT_LINE_CHARS as int)))
        } else {
            prev
        }
    }
}

/// The hits a search returns: the first `ARTIFACT_SEARCH_MAX_HITS` matching
/// lines of the artifact for the trimmed, lower-cased query; none for a
/// blank query.
pub open spec fn search_result(content: Seq<char>, query: Seq<char>) -> Seq<(int, Seq<char>)> {
    let q = trim(query);
    if q.len() == 0 {
        Seq::empty()
    } else {
        let lines = lines_of(content);
        let all = hits_upto(lines, lower_text(q), lines.len() as int);
        if all.len() <= ARTIFACT_SEARCH_MAX_HITS { all } else { all.take(ARTIFACT_SEARCH_MAX_HITS as int) }
    }
}

/// The hits of fewer lines are a prefix of the hits of more lines.
proof fn lemma_hits_prefix(lines: Seq<Seq<char>>, query: Seq<char>, n: int, m: int)
    requires
        0 <= n <= m,
    ensures
        hits_upto(lines, query, n).len() <= hits_upto(lines, query, m).len(),
        hits_upto(lines, query, m).take(hits_upto(lines, query, n).len() as int) == hits_upto(lines, query, n),
    decreases m - n,
{
    if n < m {
        lemma_hits_prefix(lines, query, n, m - 1);
        let a = hits_upto(lines, query, n);
        let b = hits_upto(lines, query, m - 1);
        let c = hits_upto(lines, query, m);
        if has_infix(lower_text(lines[m - 1]), query) {
            assert(c.take(a.len() as int) =~= b.take(a.len() as int));
        }
    } else {
        assert(hits_upto(lines, query, m).take(hits_upto(lines, query, m).len() as int) =~= hits_upto(lines, query, m));
    }
}

/// `out` holds exactly the hits `expected`.
pub open spec fn hits_match(out: Seq<ArtifactSearchHit>, expected: Seq<(int, Seq<char>)>) -> bool {
    &&& out.len() == expected.len()
    &&& forall|t: int| 0 <= t < out.len() ==> (#[trigger] out[t]).line_number == expected[t].0 && out[t].line@ == expected[t].1
}

/// Case-insensitive line search over an artifact, with bounded hits.
pub fn artifact_search(store: &InMemoryArtifactStore, artifact_id: u128, query: &str) -> (r: Result<Vec<ArtifactSearchHit>, ArtifactStoreError>)
    ensures
        !store@.contains_key(artifact_id) ==> r == Err::<Vec<ArtifactSearchHit>, ArtifactStoreError>(ArtifactStoreError::NotFound),
        store@.contains_key(artifact_id) ==> match r {
            Ok(hits) => hits_match(hits@, search_result(store@[artifact_id].content@, query@)),
            Err(_) => false,
        },
{
    let artifact = match store.artifacts.get(&artifact_id) {
        Some(a) => a,
        None => return Err(ArtifactStoreError::NotFound),
    };
    let q = trimmed_chars(query);
    if q.len() == 0 {
        let none: Vec<ArtifactSearchHit> = Vec::new();
        return Ok(none);
    }
    let lower_query = lower_chars(q.as_slice());
    let content = chars_of(artifact.content.as_str());
    let lines = split_lines(content.as_slice());
    let ghost lv = char_views(lines@);
    let ghost lq = lower_query@;
    let mut hits: Vec<ArtifactSearchHit> = Vec::new();
    let mut i: usize = 0;
    while i < lines.len()
        invariant_except_break
            i <= lines@.len(),
            lv == char_views(lines@),
            lq == lower_query@,
            hits_match(hits@, hits_upto(lv, lq, i as int)),
            hits@.len() < ARTIFACT_SEARCH_MAX_HITS,
        ensures
            lv == char_views(lines@),
            hits_match(hits@, if hits_upto(lv, lq, lv.len() as int).len() <= ARTIFACT_SEARCH_MAX_HITS {
                hits_upto(lv, lq, lv.len() as int)
            } else {
                hits_upto(lv, lq, lv.len() as int).take(ARTIFACT_SEARCH_MAX_HITS as int)
            }),
        decreases lines@.len() - i,
    {
        let line_lower = lower_chars(lines[i].as_slice());
        assert(lv[i as int] == lines@[i as int]@);
        if contains_seq(line_lower.as_slice(), lower_query.as_slice()) {
            let shown = truncate_char_slice(lines[i].as_slice(), ARTIFACT_HIT_LINE_CHARS);
            let hit = ArtifactSearchHit { line_number: i + 1, line: string_from_chars(shown.as_slice()) };
            let ghost before = hits@;
            hits.push(hit);
            proof {
                let expected = hits_upto(lv, lq, i + 1);
                assert(expected == hits_upto(lv, lq, i as int).push(
                    ((i + 1) as int, truncated(lv[i as int], ARTIFACT_HIT_LINE_CHARS as int)),
                ));
                assert forall|t: int| 0 <= t < hits@.len() implies (#[trigger] hits@[t]).line_number == expected[t].0
                    && hits@[t].line@ == expected[t].1 by {
                    if t < before.len() {
                        assert(hits@[t] == before[t]);
                    }
                }
            }
            if hits.len() >= ARTIFACT_SEARCH_MAX_HITS {
                proof {
                    lemma_hits_prefix(lv, lq, i + 1, lv.len() as int);
                    let full = hits_upto(lv, lq, lv.len() as int);
                    if full.len() <= ARTIFACT_SEARCH_MAX_HITS {
                        assert(full.take(ARTIFACT_SEARCH_MAX_HITS as int) =~= full);
                    }
                }
                break;
            }
        } else {
            assert(hits_upto(lv, lq, i + 1) == hits_upto(lv, lq, i as int));
        }
        i = i + 1;
    }
    Ok(hits)
}

// ---------------------------------------------------------------------------
// Byte windows
// ---------------------------------------------------------------------------

/// The requested window size, clamped to `1..=ARTIFACT_READ_MAX_BYTES`.
pub open spec fn clamp_window(max_bytes: usize) -> int {
    if max_bytes > ARTIFACT_READ_MAX_BYTES {
        ARTIFACT_READ_MAX_BYTES as int
    } else if max_bytes < 1 {
        1
    } else {
        max_bytes as int
    }
}

/// From `e`, step back to a character boundary, not below `lo`.
pub open spec fn back_to_boundary(b: Seq<u8>, e: int, lo: int) -> int
    decreases e - lo,
{
    if e <= lo || is_char_boundary(b, e) { e } else { back_to_boundary(b, e - 1, lo) }
}

/// From `s`, step forward to a character boundary, not above `hi`.
pub open spec fn forward_to_boundary(b: Seq<u8>, s: int, hi: int) -> int
    decreases hi - s,
{
    if s >= hi || is_char_boundary(b, s) { s } else { forward_to_boundary(b, s + 1, hi) }
}

/// End of a read window starting at `offset`.
pub open spec fn read_end(b: Seq<u8>, offset: int, max_bytes: usize) -> int {
    let e0 = if offset + clamp_window(max_bytes) < b.len() { offset + clamp_window(max_bytes) } else { b.len() as int };
    back_to_boundary(b, e0, offset)
}

/// Start of a read window starting at `offset`.
pub open spec fn read_start(b: Seq<u8>, offset: int, max_bytes: usize) -> int {
    forward_to_boundary(b, offset, read_end(b, offset, max_bytes))
}

/// A read whose window shrinks to nothing inside a character would cut
/// that character; such a read is not served.
pub open spec fn read_splits_char(b: Seq<u8>, offset: int, max_bytes: usize) -> bool {
    offset < b.len() && !is_char_boundary(b, read_start(b, offset, max_bytes))
}

proof fn lemma_back_bounds(b: Seq<u8>, e: int, lo: int)
    requires
        lo <= e,
    ensures
        lo <= back_to_boundary(b, e, lo) <= e,
        back_to_boundary(b, e, lo) > lo ==> is_char_boundary(b, back_to_boundary(b, e, lo)),
    decreases e - lo,
{
    if e > lo && !is_char_boundary(b, e) {
        lemma_back_bounds(b, e - 1, lo);
    }
}

proof fn lemma_forward_bounds(b: Seq<u8>, s: int, hi: int)
    requires
        s <= hi,
    ensures
        s <= forward_to_boundary(b, s, hi) <= hi,
        forward_to_boundary(b, s, hi) < hi ==> is_char_boundary(b, forward_to_boundary(b, s, hi)),
    decreases hi - s,
{
    if s < hi && !is_char_boundary(b, s) {
        lemma_forward_bounds(b, s + 1, hi);
    }
}

/// A boundary of a text is a boundary of any suffix that starts at a
/// boundary.
proof fn lemma_suffix_boundary(b: Seq<u8>, start: int, i: int)
    requires
        valid_utf8(b),
        0 <= start <= i <= b.len(),
        is_char_boundary(b, start),
        is_char_boundary(b, i),
    ensures
        valid_utf8(b.subrange(start, b.len() as int)),
        is_char_boundary(b.subrange(start, b.len() as int), i - start),
{
    let t = b.subrange(start, b.len() as int);
    vstd::utf8::valid_utf8_split(b, start);
    if i == start {
    } else if i == b.len() {
        vstd::utf8::is_char_boundary_start_end_of_seq(t);
    } else {
        vstd::utf8::is_char_boundary_iff_not_is_continuation_byte(b, i);
        vstd::utf8::is_char_boundary_iff_not_is_continuation_byte(t, i - start);
    }
}

/// `s[a..e]` of a text whose bytes are `b`, both ends being boundaries.
fn byte_window(s: &str, a: usize, e: usize) -> (r: String)
    requires
        a <= e <= encode_utf8(s@).len(),
        is_char_boundary(encode_utf8(s@), a as int),
        is_char_boundary(encode_utf8(s@), e as int),
    ensures
        encode_utf8(r@) == encode_utf8(s@).subrange(a as int, e as int),
{
    let ghost b = encode_utf8(s@);
    proof {
        vstd::utf8::encode_utf8_valid_utf8(s@);
        lemma_suffix_boundary(b, a as int, e as int);
    }
    let (_, rest) = s.split_at(a);
    assert(encode_utf8(rest@) =~= b.subrange(a as int, b.len() as int));
    let (mid, _) = rest.split_at(e - a);
    assert(encode_utf8(mid@) =~= b.subrange(a as int, e as int));
    mid.to_owned()
}

/// Reads a byte window of an artifact starting at `offset`: at most the
/// clamped window size, shrunk to whole characters; empty past the end.
pub fn artifact_read(store: &InMemoryArtifactStore, artifact_id: u128, offset: usize, max_bytes: usize) -> (r: Result<String, ArtifactStoreError>)
    requires
        store@.contains_key(artifact_id) ==> !read_splits_char(
            encode_utf8(store@[artifact_id].content@),
            offset as int,
            max_bytes,
        ),
    ensures
        !store@.contains_key(artifact_id) ==> r == Err::<String, ArtifactStoreError>(ArtifactStoreError::NotFound),
        store@.contains_key(artifact_id) ==> match r {
            Ok(text) => {
                let b = encode_utf8(store@[artifact_id].content@);
                if offset >= b.len() {
                    text@.len() == 0
                } else {
                    encode_utf8(text@) == b.subrange(
                        read_start(b, offset as int, max_bytes),
                        read_end(b, offset as int, max_bytes),
                    )
                }
            },
            Err(_) => false,
        },
{
    let artifact = match store.artifacts.get(&artifact_id) {
        Some(a) => a,
        None => return Err(ArtifactStoreError::NotFound),
    };
    let content = artifact.content.as_str();
    let ghost b = encode_utf8(content@);
    let len = content.as_bytes().len();
    let m: usize = if max_bytes > ARTIFACT_READ_MAX_BYTES {
        ARTIFACT_READ_MAX_BYTES
    } else if max_bytes < 1 {
        1
    } else {
        max_bytes
    };
    if offset >= len {
        return Ok(String::new());
    }
    let e0: usize = if m < len - offset { offset + m } else { len };
    let mut end = e0;
    proof {
        lemma_back_bounds(b, e0 as int, offset as int);
    }
    while end > offset && !content.is_char_boundary(end)
        invariant
            offset <= end <= e0 <= len,
            len == b.len(),
            b == encode_utf8(content@),
            back_to_boundary(b, end as int, offset as int) == back_to_boundary(b, e0 as int, offset as int),
        decreases end - offset,
    {
        end = end - 1;
    }
    assert(end as int == read_end(b, offset as int, max_bytes));
    let mut start = offset;
    proof {
        lemma_forward_bounds(b, offset as int, end as int);
    }
    while start < end && !content.is_char_boundary(start)
        invariant
            offset <= start <= end <= len,
            len == b.len(),
            b == encode_utf8(content@),
            forward_to_boundary(b, start as int, end as int) == forward_to_boundary(b, offset as int, end as int),
        decreases end - start,
    {
        start = start + 1;
    }
    assert(start as int == read_start(b, offset as int, max_bytes));
    proof {
        lemma_back_bounds(b, e0 as int, offset as int);
        if start == end {
            assert(is_char_boundary(b, start as int));
        }
    }
    Ok(byte_window(content, start, end))
}

/// Start of the tail window of a text of bytes `b`.
pub open spec fn tail_start(b: Seq<u8>, max_bytes: usize) -> int {
    forward_to_boundary(b, b.len() - clamp_window(max_bytes), b.len() as int)
}

/// The last bytes of an artifact: at most the clamped window size, shrunk
/// to whole characters; the whole content when it is small.
pub fn artifact_tail(store: &InMemoryArtifactStore, artifact_id: u128, max_bytes: usize) -> (r: Result<String, ArtifactStoreError>)
    ensures
        !store@.contains_key(artifact_id) ==> r == Err::<String, ArtifactStoreError>(ArtifactStoreError::NotFound),
        store@.contains_key(artifact_id) ==> match r {
            Ok(text) => {
                let b = encode_utf8(store@[artifact_id].content@);
                if b.len() <= clamp_window(max_bytes) {
                    text@ == store@[artifact_id].content@
                } else {
                    encode_utf8(text@) == b.subrange(tail_start(b, max_bytes), b.len() as int)
                }
            },
            Err(_) => false,
        },
{
    let artifact = match store.artifacts.get(&artifact_id) {
        Some(a) => a,
        None => return Err(ArtifactStoreError::NotFound),
    };
    let content = artifact.content.as_str();
    let ghost b = encode_utf8(content@);
    let len = content.as_bytes().len();
    let m: usize = if max_bytes > ARTIFACT_READ_MAX_BYTES {
        ARTIFACT_READ_MAX_BYTES
    } else if max_bytes < 1 {
        1
    } else {
        max_bytes
    };
    if len <= m {
        return Ok(artifact.content.clone());
    }
    let mut start = len - m;
    while start < len && !content.is_char_boundary(start)
        invariant
            len - m <= start <= len,
            len == b.len(),
            b == encode_utf8(content@),
            forward_to_boundary(b, start as int, len as int) == forward_to_boundary(b, len - m, len as int),
        decreases len - start,
    {
        start = start + 1;
    }
    proof {
        vstd::utf8::encode_utf8_valid_utf8(content@);
        vstd::utf8::is_char_boundary_start_end_of_seq(b);
    }
    Ok(byte_window(content, start, len))
}

} // verus!
