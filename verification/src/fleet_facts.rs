//! Comparison of target-bound investigation facts across a fleet: which
//! fact keys are compared, and whether the targets agree on a value.
use vstd::prelude::*;
use crate::decision::copy_opt_text;
use crate::facts::{text_views, FactProvenance, WorkingFact, WorkingFactSet};
use crate::fleet_target::{opt_text, target_views, FleetTargetBinding, TargetView};
use crate::text::{
    byte_len, lemma_text_lt_irreflexive, lemma_text_lt_total, lemma_text_lt_transitive, chars_of, ends_with_seq, has_prefix, has_suffix, starts_with_seq, take_chars, text_before, text_eq, text_lt};

verus! {

pub const MAX_FLEET_FACTS: usize = 512;
pub const MAX_FLEET_FACTS_PER_TARGET: usize = 96;
pub const MAX_FLEET_FACT_KEY_BYTES: usize = 192;
pub const MAX_FLEET_FACT_VALUE_CHARS: usize = 512;
pub const FLEET_CHILD_TOOL_CALL_BUDGET: u32 = 12;

#[derive(Clone, Copy, Debug, PartialEq, Eq, Structural)]
pub enum FleetFactError {
    /// The fact's target is outside the exact target binding.
    TargetMismatch,
    /// The fact is not backed by typed tool evidence.
    EvidenceRequired,
    /// The fact exceeds the bounded aggregation limits.
    LimitExceeded,
}

#[derive(Clone, Copy, Debug, PartialEq, Eq, Structural)]
pub enum FleetComparisonStatus {
    Uniform,
    Divergent,
    Missing,
}

#[derive(Clone, Copy, Debug, PartialEq, Eq, Structural)]
pub enum FleetComparisonKind {
    Role,
    Version,
    Service,
    ConfigurationDigest,
}

/// One target's value for a compared key.
#[derive(Debug)]
pub struct FleetComparisonValue {
    pub target_id: u128,
    pub role: Option<String>,
    pub value: Option<String>,
    pub evidence_id: Option<u128>,
}

/// Which comparison a fact key belongs to, if any.
pub open spec fn comparison_kind_spec(key: Seq<char>) -> Option<FleetComparisonKind> {
    if key == "os"@ || key == "kernel"@ || has_suffix(key, ".version"@) {
        Some(FleetComparisonKind::Version)
    } else if has_prefix(key, "service."@) && has_suffix(key, ".status"@) {
        Some(FleetComparisonKind::Service)
    } else if has_suffix(key, ".config_digest"@) {
        Some(FleetComparisonKind::ConfigurationDigest)
    } else {
        None
    }
}

pub fn comparison_kind(key: &str) -> (r: Option<FleetComparisonKind>)
    ensures
        r == comparison_kind_spec(key@),
{
    let k = chars_of(key);
    let version = chars_of(".version");
    let service = chars_of("service.");
    let status = chars_of(".status");
    let digest = chars_of(".config_digest");
    if text_eq(key, "os") || text_eq(key, "kernel") || ends_with_seq(k.as_slice(), version.as_slice()) {
        Some(FleetComparisonKind::Version)
    } else if starts_with_seq(k.as_slice(), service.as_slice()) && ends_with_seq(k.as_slice(), status.as_slice()) {
        Some(FleetComparisonKind::Service)
    } else if ends_with_seq(k.as_slice(), digest.as_slice()) {
        Some(FleetComparisonKind::ConfigurationDigest)
    } else {
        None
    }
}

/// The mathematical content of one target's compared value.
pub struct ComparisonValueRecord {
    pub target_id: u128,
    pub role: Option<Seq<char>>,
    pub value: Option<Seq<char>>,
    pub evidence_id: Option<u128>,
}

impl View for FleetComparisonValue {
    type V = ComparisonValueRecord;

    open spec fn view(&self) -> ComparisonValueRecord {
        ComparisonValueRecord {
            target_id: self.target_id,
            role: opt_text(self.role),
            value: opt_text(self.value),
            evidence_id: self.evidence_id,
        }
    }
}

pub open spec fn value_records(s: Seq<FleetComparisonValue>) -> Seq<ComparisonValueRecord> {
    s.map_values(|v: FleetComparisonValue| v@)
}

/// A target without a value makes the comparison missing; otherwise the
/// targets are uniform when every value equals the first one.
pub open spec fn comparison_status_spec(values: Seq<ComparisonValueRecord>) -> FleetComparisonStatus {
    if exists|i: int| 0 <= i < values.len() && (#[trigger] values[i]).value is None {
        FleetComparisonStatus::Missing
    } else if forall|i: int| 0 <= i < values.len() ==> (#[trigger] values[i]).value->0 == values[0].value->0 {
        FleetComparisonStatus::Uniform
    } else {
        FleetComparisonStatus::Divergent
    }
}

pub fn comparison_status(targets: &[FleetComparisonValue]) -> (r: FleetComparisonStatus)
    ensures
        r == comparison_status_spec(value_records(targets@)),
{
    let ghost vr = value_records(targets@);
    let mut i: usize = 0;
    while i < targets.len()
        invariant
            i <= targets@.len(),
            vr == value_records(targets@),
            forall|j: int| 0 <= j < i ==> (#[trigger] vr[j]).value is Some,
        decreases targets@.len() - i,
    {
        if targets[i].value.is_none() {
            assert(vr[i as int].value is None);
            return FleetComparisonStatus::Missing;
        }
        assert(vr[i as int].value is Some);
        i = i + 1;
    }
    if targets.len() == 0 {
        return FleetComparisonStatus::Uniform;
    }
    let first: &String = match &targets[0].value {
        Some(v) => v,
        None => return FleetComparisonStatus::Missing,
    };
    assert(vr[0].value->0 == first@);
    let mut k: usize = 1;
    while k < targets.len()
        invariant
            1 <= k <= targets@.len(),
            vr == value_records(targets@),
            vr[0].value->0 == first@,
            forall|j: int| 0 <= j < vr.len() ==> (#[trigger] vr[j]).value is Some,
            forall|j: int| 0 <= j < k ==> (#[trigger] vr[j]).value->0 == first@,
        decreases targets@.len() - k,
    {
        match &targets[k].value {
            Some(v) => {
                assert(vr[k as int].value->0 == v@);
                if !text_eq(v.as_str(), first.as_str()) {
                    return FleetComparisonStatus::Divergent;
                }
            },
            None => return FleetComparisonStatus::Missing,
        }
        k = k + 1;
    }
    FleetComparisonStatus::Uniform
}

/// One fact of a fleet investigation, bound to exactly one target.
#[derive(Debug)]
pub struct FleetFactView {
    pub target_id: u128,
    pub role: Option<String>,
    pub key: String,
    pub value: String,
    pub evidence_id: u128,
    pub observed_at_epoch_ms: u64,
    pub expires_at_epoch_ms: u64,
}

/// The mathematical content of a fleet fact.
pub struct FactRecord {
    pub target_id: u128,
    pub role: Option<Seq<char>>,
    pub key: Seq<char>,
    pub value: Seq<char>,
    pub evidence_id: u128,
    pub observed_at_epoch_ms: u64,
    pub expires_at_epoch_ms: u64,
}

impl View for FleetFactView {
    type V = FactRecord;

    open spec fn view(&self) -> FactRecord {
        FactRecord {
            target_id: self.target_id,
            role: opt_text(self.role),
            key: self.key@,
            value: self.value@,
            evidence_id: self.evidence_id,
            observed_at_epoch_ms: self.observed_at_epoch_ms,
            expires_at_epoch_ms: self.expires_at_epoch_ms,
        }
    }
}

pub open spec fn fact_records(s: Seq<FleetFactView>) -> Seq<FactRecord> {
    s.map_values(|f: FleetFactView| f@)
}

impl Clone for FleetFactView {
    fn clone(&self) -> (r: FleetFactView)
        ensures
            r@ == self@,
    {
        FleetFactView {
            target_id: self.target_id,
            role: copy_opt_text(&self.role),
            key: self.key.clone(),
            value: self.value.clone(),
            evidence_id: self.evidence_id,
            observed_at_epoch_ms: self.observed_at_epoch_ms,
            expires_at_epoch_ms: self.expires_at_epoch_ms,
        }
    }
}

/// A copy of a list of facts with the same content.
fn clone_facts(v: &Vec<FleetFactView>) -> (r: Vec<FleetFactView>)
    ensures
        fact_records(r@) == fact_records(v@),
{
    let mut out: Vec<FleetFactView> = Vec::new();
    let n = v.len();
    for i in 0..n
        invariant
            n == v@.len(),
            fact_records(out@) == fact_records(v@).take(i as int),
    {
        let c = v[i].clone();
        let ghost before = out@;
        out.push(c);
        proof {
            assert(fact_records(before) =~= fact_records(v@).take(i as int));
            assert(fact_records(out@) =~= fact_records(before).push(c@));
            assert(fact_records(out@) =~= fact_records(v@).take(i + 1));
        }
    }
    proof {
        assert(fact_records(v@).take(n as int) =~= fact_records(v@));
    }
    out
}

/// `u64::saturating_add`.
pub open spec fn sat_add(a: u64, b: u64) -> u64 {
    if a + b > u64::MAX { u64::MAX } else { (a + b) as u64 }
}

/// The tool that produced a fact is named (`unwrap_or_default().is_empty()`
/// is false).
pub open spec fn names_tool(tool: Option<String>) -> bool {
    match tool {
        Some(t) => t@.len() > 0,
        None => false,
    }
}

/// The record a working fact contributes for target `expected`, bound with
/// `role`, whose value has already been redacted to `redacted`; or why it is
/// refused: a fact of another target, one not backed by a named tool call, or
/// a key that is empty or too long.
pub open spec fn screened_record(
    role: Option<Seq<char>>,
    expected: u128,
    fact: WorkingFact,
    redacted: Seq<char>,
) -> Result<FactRecord, FleetFactError> {
    if fact.target_id != Some(expected) {
        Err(FleetFactError::TargetMismatch)
    } else if !(fact.provenance is ToolObservation) || !names_tool(fact.source_tool) || fact.tool_call_id is None {
        Err(FleetFactError::EvidenceRequired)
    } else if fact.key@.len() == 0 || byte_len(fact.key@) > MAX_FLEET_FACT_KEY_BYTES {
        Err(FleetFactError::LimitExceeded)
    } else {
        Ok(FactRecord {
            target_id: expected,
            role,
            key: fact.key@,
            value: redacted.take(
                if redacted.len() <= MAX_FLEET_FACT_VALUE_CHARS { redacted.len() as int } else { MAX_FLEET_FACT_VALUE_CHARS as int },
            ),
            evidence_id: fact.tool_call_id->0,
            observed_at_epoch_ms: fact.observed_at_epoch_ms,
            expires_at_epoch_ms: sat_add(fact.observed_at_epoch_ms, fact.ttl_ms),
        })
    }
}

/// The records screened from the first `n` facts, in order: a stale fact
/// is skipped, and the first refused fresh fact refuses the whole batch.
pub open spec fn screened(
    role: Option<Seq<char>>,
    expected: u128,
    facts: Seq<WorkingFact>,
    fresh: Seq<bool>,
    redacted: Seq<Seq<char>>,
    n: int,
) -> Result<Seq<FactRecord>, FleetFactError>
    decreases n,
{
    if n <= 0 {
        Ok(Seq::empty())
    } else {
        match screened(role, expected, facts, fresh, redacted, n - 1) {
            Err(e) => Err(e),
            Ok(rs) => if !fresh[n - 1] {
                Ok(rs)
            } else {
                match screened_record(role, expected, facts[n - 1], redacted[n - 1]) {
                    Err(e) => Err(e),
                    Ok(x) => Ok(rs.push(x)),
                }
            },
        }
    }
}

/// Once a batch is refused, longer prefixes are refused for the same reason.
proof fn lemma_screened_refusal_sticks(
    role: Option<Seq<char>>,
    expected: u128,
    facts: Seq<WorkingFact>,
    fresh: Seq<bool>,
    redacted: Seq<Seq<char>>,
    n: int,
    m: int,
)
    requires
        0 <= n <= m,
        screened(role, expected, facts, fresh, redacted, n) is Err,
    ensures
        screened(role, expected, facts, fresh, redacted, m) == screened(role, expected, facts, fresh, redacted, n),
    decreases m - n,
{
    if m > n {
        lemma_screened_refusal_sticks(role, expected, facts, fresh, redacted, n, m - 1);
    }
}

/// Two records hold the same slot: same target and key.
pub open spec fn same_fact_slot(a: FactRecord, b: FactRecord) -> bool {
    a.target_id == b.target_id && a.key == b.key
}

/// `a` sorts before `b`: by target, then by key.
pub open spec fn sorts_before(a: FactRecord, b: FactRecord) -> bool {
    a.target_id < b.target_id || (a.target_id == b.target_id && text_lt(a.key, b.key))
}

/// `x` placed into a list kept in `(target, key)` order: it replaces the
/// record of its slot, or goes before the first record that sorts after it.
pub open spec fn place(records: Seq<FactRecord>, x: FactRecord) -> Seq<FactRecord>
    decreases records.len(),
{
    if records.len() == 0 {
        seq![x]
    } else if same_fact_slot(records[0], x) {
        records.update(0, x)
    } else if sorts_before(x, records[0]) {
        seq![x] + records
    } else {
        seq![records[0]] + place(records.drop_first(), x)
    }
}

/// Every record of `xs` placed in turn.
pub open spec fn place_all(records: Seq<FactRecord>, xs: Seq<FactRecord>) -> Seq<FactRecord>
    decreases xs.len(),
{
    if xs.len() == 0 {
        records
    } else {
        place(place_all(records, xs.drop_last()), xs.last())
    }
}

/// How many records are bound to `target`.
pub open spec fn count_target(records: Seq<FactRecord>, target: u128) -> nat
    decreases records.len(),
{
    if records.len() == 0 {
        0
    } else {
        count_target(records.drop_last(), target) + if records.last().target_id == target { 1nat } else { 0nat }
    }
}

/// Places `x` into a list kept in `(target, key)` order.
fn place_fact(facts: &mut Vec<FleetFactView>, x: FleetFactView)
    ensures
        fact_records(final(facts)@) == place(fact_records(old(facts)@), x@),
{
    let ghost rs = fact_records(facts@);
    proof {
        assert(rs.skip(0) =~= rs);
        assert(rs.take(0) + place(rs, x@) =~= place(rs, x@));
    }
    let mut i: usize = 0;
    while i < facts.len()
        invariant
            i <= facts@.len(),
            facts@ == old(facts)@,
            rs == fact_records(old(facts)@),
            place(rs, x@) == rs.take(i as int) + place(rs.skip(i as int), x@),
        decreases facts@.len() - i,
    {
        let same = facts[i].target_id == x.target_id && facts[i].key == x.key;
        if same {
            proof {
                assert(rs.skip(i as int)[0] == rs[i as int]);
                assert(rs.take(i as int) + rs.skip(i as int).update(0, x@) =~= rs.update(i as int, x@));
            }
            facts.set(i, x);
            proof {
                assert(fact_records(facts@) =~= rs.update(i as int, x@));
            }
            return;
        }
        let before = x.target_id < facts[i].target_id || (x.target_id == facts[i].target_id && text_before(
            x.key.as_str(),
            facts[i].key.as_str(),
        ));
        if before {
            proof {
                assert(rs.skip(i as int)[0] == rs[i as int]);
                assert(rs.take(i as int) + (seq![x@] + rs.skip(i as int)) =~= rs.insert(i as int, x@));
            }
            facts.insert(i, x);
            proof {
                assert(fact_records(facts@) =~= rs.insert(i as int, x@));
            }
            return;
        }
        proof {
            assert(rs.skip(i as int)[0] == rs[i as int]);
            assert(rs.skip(i as int).drop_first() =~= rs.skip(i + 1));
            assert(rs.take(i as int) + (seq![rs[i as int]] + place(rs.skip(i + 1), x@)) =~= rs.take(i + 1) + place(
                rs.skip(i + 1),
                x@,
            ));
        }
        i = i + 1;
    }
    proof {
        assert(rs.skip(i as int).len() == 0);
        assert(rs.take(i as int) =~= rs);
    }
    facts.push(x);
    proof {
        assert(fact_records(facts@) =~= rs.push(x@));
    }
}


/// The record of a fact, or why it is refused.
fn validated_view(
    role: &Option<String>,
    expected: u128,
    fact: &WorkingFact,
    redacted: &String,
) -> (r: Result<FleetFactView, FleetFactError>)
    ensures
        match screened_record(opt_text(*role), expected, *fact, redacted@) {
            Ok(x) => r is Ok && r->Ok_0@ == x,
            Err(e) => r == Err::<FleetFactView, FleetFactError>(e),
        },
{
    match fact.target_id {
        Some(t) => {
            if t != expected {
                return Err(FleetFactError::TargetMismatch);
            }
        },
        None => return Err(FleetFactError::TargetMismatch),
    }
    let named = match &fact.source_tool {
        Some(t) => !t.as_str().is_empty(),
        None => false,
    };
    if fact.provenance != FactProvenance::ToolObservation || !named {
        return Err(FleetFactError::EvidenceRequired);
    }
    let evidence_id = match fact.tool_call_id {
        Some(id) => id,
        None => return Err(FleetFactError::EvidenceRequired),
    };
    let key_bytes = fact.key.as_str().len();
    if fact.key.as_str().is_empty() || key_bytes > MAX_FLEET_FACT_KEY_BYTES {
        return Err(FleetFactError::LimitExceeded);
    }
    let value = take_chars(redacted.as_str(), MAX_FLEET_FACT_VALUE_CHARS);
    let expires = fact.observed_at_epoch_ms.saturating_add(fact.ttl_ms);
    Ok(FleetFactView {
        target_id: expected,
        role: copy_opt_text(role),
        key: fact.key.clone(),
        value,
        evidence_id,
        observed_at_epoch_ms: fact.observed_at_epoch_ms,
        expires_at_epoch_ms: expires,
    })
}


/// The first position at or after `k` whose binding has `profile_id`, or
/// the length.
pub open spec fn binding_index(targets: Seq<TargetView>, profile_id: u128, k: int) -> int
    decreases targets.len() - k,
{
    if k < 0 || k >= targets.len() {
        targets.len() as int
    } else if targets[k].profile_id == profile_id {
        k
    } else {
        binding_index(targets, profile_id, k + 1)
    }
}

/// The content of a fleet fact set: its exact target binding and its facts
/// in `(target, key)` order.
pub struct FleetFactsModel {
    pub targets: Seq<TargetView>,
    pub facts: Seq<FactRecord>,
}

/// What merging a batch of facts for `expected` gives: the result and the
/// facts afterwards. A target outside the binding, a refused fresh fact, or
/// a batch that would exceed the fleet or per-target limit changes nothing;
/// otherwise the screened records are placed and their number of distinct
/// keys is returned.
pub open spec fn merge_outcome(
    model: FleetFactsModel,
    expected: u128,
    facts: Seq<WorkingFact>,
    fresh: Seq<bool>,
    redacted: Seq<Seq<char>>,
) -> (Result<nat, FleetFactError>, Seq<FactRecord>) {
    let k = binding_index(model.targets, expected, 0);
    if k >= model.targets.len() {
        (Err(FleetFactError::TargetMismatch), model.facts)
    } else {
        match screened(model.targets[k].role, expected, facts, fresh, redacted, facts.len() as int) {
            Err(e) => (Err(e), model.facts),
            Ok(rs) => {
                let placed = place_all(model.facts, rs);
                if placed.len() > MAX_FLEET_FACTS || count_target(placed, expected) > MAX_FLEET_FACTS_PER_TARGET {
                    (Err(FleetFactError::LimitExceeded), model.facts)
                } else {
                    (Ok(place_all(Seq::empty(), rs).len()), placed)
                }
            },
        }
    }
}

/// The facts gathered from the targets of one fleet run.
#[derive(Debug)]
pub struct FleetFactSet {
    targets: Vec<FleetTargetBinding>,
    facts: Vec<FleetFactView>,
}

impl FleetFactSet {
    /// The content of the set.
    pub closed spec fn model(&self) -> FleetFactsModel {
        FleetFactsModel { targets: target_views(self.targets@), facts: fact_records(self.facts@) }
    }
}

/// The number of records bound to `target`.
fn count_for_target(facts: &Vec<FleetFactView>, target: u128) -> (r: usize)
    ensures
        r == count_target(fact_records(facts@), target),
{
    let ghost rs = fact_records(facts@);
    let mut n: usize = 0;
    let mut i: usize = 0;
    while i < facts.len()
        invariant
            i <= facts@.len(),
            rs == fact_records(facts@),
            n == count_target(rs.take(i as int), target),
            n <= i,
        decreases facts@.len() - i,
    {
        proof {
            assert(rs.take(i + 1).drop_last() =~= rs.take(i as int));
        }
        if facts[i].target_id == target {
            n = n + 1;
        }
        i = i + 1;
    }
    proof {
        assert(rs.take(i as int) =~= rs);
    }
    n
}

impl FleetFactSet {
    /// An empty fact set over an exact target binding.
    pub fn new(targets: Vec<FleetTargetBinding>) -> (r: FleetFactSet)
        ensures
            r.model().targets == target_views(targets@),
            r.model().facts == Seq::<FactRecord>::empty(),
    {
        let r = FleetFactSet { targets, facts: Vec::new() };
        proof {
            assert(fact_records(r.facts@) =~= Seq::<FactRecord>::empty());
        }
        r
    }

    /// Merges the facts a target's investigation produced. `fresh[i]` says
    /// whether `source[i]` is still fresh and `redacted[i]` is its value with
    /// secrets redacted; stale facts are skipped. Every fresh fact must be a
    /// tool-backed fact of `expected_target_id`, a target of the binding;
    /// later facts of a slot win. The merge is all or nothing, and is refused
    /// when the fleet or the target would hold too many facts. Returns how
    /// many distinct facts were accepted.
    pub fn merge(
        &mut self,
        expected_target_id: u128,
        source: &WorkingFactSet,
        fresh: &[bool],
        redacted: &[String],
    ) -> (r: Result<usize, FleetFactError>)
        requires
            fresh@.len() == source@.len(),
            redacted@.len() == source@.len(),
        ensures
            final(self).model().targets == old(self).model().targets,
            final(self).model().facts == merge_outcome(old(self).model(), expected_target_id, source@, fresh@, text_views(redacted@)).1,
            r matches Ok(n) ==> merge_outcome(old(self).model(), expected_target_id, source@, fresh@, text_views(redacted@)).0
                == Ok::<nat, FleetFactError>(n as nat),
            r matches Err(e) ==> merge_outcome(old(self).model(), expected_target_id, source@, fresh@, text_views(redacted@)).0
                == Err::<nat, FleetFactError>(e),
    {
        let ghost tv = target_views(self.targets@);
        let mut k: usize = 0;
        while k < self.targets.len() && self.targets[k].profile_id != expected_target_id
            invariant
                k <= self.targets@.len(),
                tv == target_views(self.targets@),
                binding_index(tv, expected_target_id, k as int) == binding_index(tv, expected_target_id, 0),
            decreases self.targets@.len() - k,
        {
            k = k + 1;
        }
        if k >= self.targets.len() {
            return Err(FleetFactError::TargetMismatch);
        }
        let role = copy_opt_text(&self.targets[k].role);
        assert(opt_text(role) == tv[k as int].role);
        assert(binding_index(tv, expected_target_id, k as int) == k as int);
        let facts = source.all();
        let ghost rv = text_views(redacted@);
        let ghost base = fact_records(self.facts@);
        let mut candidate = clone_facts(&self.facts);
        let mut staged: Vec<FleetFactView> = Vec::new();
        let ghost mut rs: Seq<FactRecord> = Seq::empty();
        proof {
            assert(fact_records(staged@) =~= Seq::<FactRecord>::empty());
        }
        let mut i: usize = 0;
        while i < facts.len()
            invariant
                i <= facts@.len(),
                facts@ == source@,
                fresh@.len() == facts@.len(),
                redacted@.len() == facts@.len(),
                rv == text_views(redacted@),
                base == fact_records(self.facts@),
                self.model() == old(self).model(),
                tv == old(self).model().targets,
                k < tv.len(),
                binding_index(tv, expected_target_id, 0) == k as int,
                opt_text(role) == tv[k as int].role,
                screened(opt_text(role), expected_target_id, facts@, fresh@, rv, i as int)
                    == Ok::<Seq<FactRecord>, FleetFactError>(rs),
                fact_records(candidate@) == place_all(base, rs),
                fact_records(staged@) == place_all(Seq::empty(), rs),
            decreases facts@.len() - i,
        {
            if fresh[i] {
                assert(rv[i as int] == redacted@[i as int]@);
                match validated_view(&role, expected_target_id, &facts[i], &redacted[i]) {
                    Err(e) => {
                        proof {
                            assert(screened(opt_text(role), expected_target_id, facts@, fresh@, rv, i + 1)
                                == Err::<Seq<FactRecord>, FleetFactError>(e));
                            lemma_screened_refusal_sticks(
                                opt_text(role), expected_target_id, facts@, fresh@, rv, i + 1, facts@.len() as int);
                        }
                        return Err(e);
                    },
                    Ok(v) => {
                        let ghost x = v@;
                        let w = v.clone();
                        place_fact(&mut candidate, v);
                        place_fact(&mut staged, w);
                        proof {
                            let rs2 = rs.push(x);
                            assert(rs2.drop_last() =~= rs);
                            rs = rs2;
                        }
                    },
                }
            }
            i = i + 1;
        }
        let n = count_for_target(&candidate, expected_target_id);
        if candidate.len() > MAX_FLEET_FACTS || n > MAX_FLEET_FACTS_PER_TARGET {
            return Err(FleetFactError::LimitExceeded);
        }
        let accepted = staged.len();
        self.facts = candidate;
        Ok(accepted)
    }
}


/// A comparison of one key across the fleet's targets.
#[derive(Debug)]
pub struct FleetFactComparison {
    pub kind: FleetComparisonKind,
    pub key: String,
    pub status: FleetComparisonStatus,
    pub targets: Vec<FleetComparisonValue>,
}

/// The mathematical content of a comparison.
pub struct ComparisonRecord {
    pub kind: FleetComparisonKind,
    pub key: Seq<char>,
    pub status: FleetComparisonStatus,
    pub targets: Seq<ComparisonValueRecord>,
}

impl View for FleetFactComparison {
    type V = ComparisonRecord;

    open spec fn view(&self) -> ComparisonRecord {
        ComparisonRecord { kind: self.kind, key: self.key@, status: self.status, targets: value_records(self.targets@) }
    }
}

pub open spec fn comparison_records(s: Seq<FleetFactComparison>) -> Seq<ComparisonRecord> {
    s.map_values(|c: FleetFactComparison| c@)
}

/// What a fleet investigation shows: its unexpired facts and the
/// comparisons across targets.
#[derive(Debug)]
pub struct FleetInvestigationView {
    pub facts: Vec<FleetFactView>,
    pub comparisons: Vec<FleetFactComparison>,
}

/// The records still unexpired at `now`, in order.
pub open spec fn live_facts(facts: Seq<FactRecord>, now: u64) -> Seq<FactRecord>
    decreases facts.len(),
{
    if facts.len() == 0 {
        Seq::empty()
    } else if facts.last().expires_at_epoch_ms > now {
        live_facts(facts.drop_last(), now).push(facts.last())
    } else {
        live_facts(facts.drop_last(), now)
    }
}

/// `k` added to a list of keys kept in `str` order without repeats.
pub open spec fn insert_key(keys: Seq<Seq<char>>, k: Seq<char>) -> Seq<Seq<char>>
    decreases keys.len(),
{
    if keys.len() == 0 {
        seq![k]
    } else if keys[0] == k {
        keys
    } else if text_lt(k, keys[0]) {
        seq![k] + keys
    } else {
        seq![keys[0]] + insert_key(keys.drop_first(), k)
    }
}

/// Every key of `insert_key(keys, k)` is `k` or a key of `keys`.
proof fn lemma_insert_key_members(keys: Seq<Seq<char>>, k: Seq<char>)
    ensures
        forall|j: int| 0 <= j < insert_key(keys, k).len() ==> #[trigger] insert_key(keys, k)[j] == k || keys.contains(
            insert_key(keys, k)[j],
        ),
    decreases keys.len(),
{
    if keys.len() > 0 && keys[0] != k && !text_lt(k, keys[0]) {
        lemma_insert_key_members(keys.drop_first(), k);
        let rest = insert_key(keys.drop_first(), k);
        assert forall|j: int| 0 <= j < insert_key(keys, k).len() implies #[trigger] insert_key(keys, k)[j] == k
            || keys.contains(insert_key(keys, k)[j]) by {
            if j == 0 {
                assert(keys.contains(keys[0]));
            } else {
                let x = rest[j - 1];
                assert(insert_key(keys, k)[j] == x);
                if x != k {
                    let m = choose|m: int| 0 <= m < keys.drop_first().len() && keys.drop_first()[m] == x;
                    assert(keys[m + 1] == x);
                }
            }
        }
    } else if keys.len() > 0 && keys[0] != k {
        assert forall|j: int| 0 <= j < insert_key(keys, k).len() implies #[trigger] insert_key(keys, k)[j] == k
            || keys.contains(insert_key(keys, k)[j]) by {
            if j > 0 {
                assert(insert_key(keys, k)[j] == keys[j - 1]);
            }
        }
    } else if keys.len() > 0 {
        assert forall|j: int| 0 <= j < insert_key(keys, k).len() implies #[trigger] insert_key(keys, k)[j] == k
            || keys.contains(insert_key(keys, k)[j]) by {
            assert(insert_key(keys, k)[j] == keys[j]);
        }
    }
}

/// The keys of `facts` that are compared across targets, in `str` order and
/// without repeats.
pub open spec fn compared_keys(facts: Seq<FactRecord>) -> Seq<Seq<char>>
    decreases facts.len(),
{
    if facts.len() == 0 {
        Seq::empty()
    } else if comparison_kind_spec(facts.last().key) is Some {
        insert_key(compared_keys(facts.drop_last()), facts.last().key)
    } else {
        compared_keys(facts.drop_last())
    }
}

/// The first position at or after `k` of a fact of `target` with `key`, or
/// the length.
pub open spec fn fact_index(facts: Seq<FactRecord>, target: u128, key: Seq<char>, k: int) -> int
    decreases facts.len() - k,
{
    if k < 0 || k >= facts.len() {
        facts.len() as int
    } else if facts[k].target_id == target && facts[k].key == key {
        k
    } else {
        fact_index(facts, target, key, k + 1)
    }
}

/// A target's value for `key`: the first fact of that target with that key.
pub open spec fn compared_value(facts: Seq<FactRecord>, binding: TargetView, key: Seq<char>) -> ComparisonValueRecord {
    let j = fact_index(facts, binding.profile_id, key, 0);
    ComparisonValueRecord {
        target_id: binding.profile_id,
        role: binding.role,
        value: if j < facts.len() { Some(facts[j].value) } else { None },
        evidence_id: if j < facts.len() { Some(facts[j].evidence_id) } else { None },
    }
}

/// The comparison of `key` across the targets, in binding order.
pub open spec fn key_comparison(targets: Seq<TargetView>, facts: Seq<FactRecord>, key: Seq<char>) -> ComparisonRecord {
    let values = targets.map_values(|b: TargetView| compared_value(facts, b, key));
    ComparisonRecord {
        kind: comparison_kind_spec(key)->0,
        key,
        status: comparison_status_spec(values),
        targets: values,
    }
}

/// The comparison of the targets' roles.
pub open spec fn role_comparison_spec(targets: Seq<TargetView>) -> ComparisonRecord {
    let values = targets.map_values(
        |b: TargetView| ComparisonValueRecord { target_id: b.profile_id, role: b.role, value: b.role, evidence_id: None },
    );
    ComparisonRecord { kind: FleetComparisonKind::Role, key: "fleet.role"@, status: comparison_status_spec(values), targets: values }
}

/// The investigation at `now`: the unexpired facts, and the role comparison
/// followed by one comparison per compared key.
pub open spec fn investigation(model: FleetFactsModel, now: u64) -> (Seq<FactRecord>, Seq<ComparisonRecord>) {
    let facts = live_facts(model.facts, now);
    (
        facts,
        seq![role_comparison_spec(model.targets)] + compared_keys(facts).map_values(
            |k: Seq<char>| key_comparison(model.targets, facts, k),
        ),
    )
}

/// Adds `k` to a list of keys kept in `str` order without repeats.
fn insert_key_exec(keys: &mut Vec<String>, k: String)
    ensures
        text_views(final(keys)@) == insert_key(text_views(old(keys)@), k@),
{
    let ghost ks = text_views(keys@);
    proof {
        assert(ks.skip(0) =~= ks);
        assert(ks.take(0) + insert_key(ks, k@) =~= insert_key(ks, k@));
    }
    let mut i: usize = 0;
    while i < keys.len()
        invariant
            i <= keys@.len(),
            keys@ == old(keys)@,
            ks == text_views(old(keys)@),
            insert_key(ks, k@) == ks.take(i as int) + insert_key(ks.skip(i as int), k@),
        decreases keys@.len() - i,
    {
        if keys[i] == k {
            proof {
                assert(ks.skip(i as int)[0] == ks[i as int]);
                assert(ks.take(i as int) + ks.skip(i as int) =~= ks);
            }
            return;
        }
        if text_before(k.as_str(), keys[i].as_str()) {
            proof {
                assert(ks.skip(i as int)[0] == ks[i as int]);
                assert(ks.take(i as int) + (seq![k@] + ks.skip(i as int)) =~= ks.insert(i as int, k@));
            }
            keys.insert(i, k);
            proof {
                assert(text_views(keys@) =~= ks.insert(i as int, k@));
            }
            return;
        }
        proof {
            assert(ks.skip(i as int)[0] == ks[i as int]);
            assert(ks.skip(i as int).drop_first() =~= ks.skip(i + 1));
            assert(ks.take(i as int) + (seq![ks[i as int]] + insert_key(ks.skip(i + 1), k@)) =~= ks.take(i + 1)
                + insert_key(ks.skip(i + 1), k@));
        }
        i = i + 1;
    }
    proof {
        assert(ks.take(i as int) =~= ks);
    }
    keys.push(k);
    proof {
        assert(text_views(keys@) =~= ks.push(k@));
    }
}


/// The position of the first fact of `target` with `key`, or the length.
fn find_fact(facts: &Vec<FleetFactView>, target: u128, key: &String) -> (r: usize)
    ensures
        r as int == fact_index(fact_records(facts@), target, key@, 0),
{
    let ghost rs = fact_records(facts@);
    let mut j: usize = 0;
    while j < facts.len()
        invariant
            j <= facts@.len(),
            rs == fact_records(facts@),
            fact_index(rs, target, key@, j as int) == fact_index(rs, target, key@, 0),
        decreases facts@.len() - j,
    {
        if facts[j].target_id == target && facts[j].key == *key {
            return j;
        }
        j = j + 1;
    }
    j
}

/// The comparison of the targets' roles.
fn role_comparison(targets: &Vec<FleetTargetBinding>) -> (r: FleetFactComparison)
    ensures
        r@ == role_comparison_spec(target_views(targets@)),
{
    let ghost tv = target_views(targets@);
    let ghost want = tv.map_values(
        |b: TargetView| ComparisonValueRecord { target_id: b.profile_id, role: b.role, value: b.role, evidence_id: None },
    );
    let mut values: Vec<FleetComparisonValue> = Vec::new();
    let n = targets.len();
    for i in 0..n
        invariant
            n == targets@.len(),
            tv == target_views(targets@),
            want == tv.map_values(
                |b: TargetView| ComparisonValueRecord { target_id: b.profile_id, role: b.role, value: b.role, evidence_id: None },
            ),
            value_records(values@) == want.take(i as int),
    {
        let t = &targets[i];
        let v = FleetComparisonValue {
            target_id: t.profile_id,
            role: copy_opt_text(&t.role),
            value: copy_opt_text(&t.role),
            evidence_id: None,
        };
        let ghost before = values@;
        values.push(v);
        proof {
            assert(value_records(values@) =~= value_records(before).push(v@));
            assert(want.take(i + 1) =~= want.take(i as int).push(want[i as int]));
        }
    }
    proof {
        assert(want.take(n as int) =~= want);
    }
    let status = comparison_status(values.as_slice());
    FleetFactComparison { kind: FleetComparisonKind::Role, key: "fleet.role".to_string(), status, targets: values }
}

/// The comparison of `key` across the targets.
fn key_comparison_exec(
    targets: &Vec<FleetTargetBinding>,
    facts: &Vec<FleetFactView>,
    key: &String,
    kind: FleetComparisonKind,
) -> (r: FleetFactComparison)
    requires
        comparison_kind_spec(key@) == Some(kind),
    ensures
        r@ == key_comparison(target_views(targets@), fact_records(facts@), key@),
{
    let ghost tv = target_views(targets@);
    let ghost rs = fact_records(facts@);
    let ghost want = tv.map_values(|b: TargetView| compared_value(rs, b, key@));
    let mut values: Vec<FleetComparisonValue> = Vec::new();
    let n = targets.len();
    for i in 0..n
        invariant
            n == targets@.len(),
            tv == target_views(targets@),
            rs == fact_records(facts@),
            want == tv.map_values(|b: TargetView| compared_value(rs, b, key@)),
            value_records(values@) == want.take(i as int),
    {
        let t = &targets[i];
        let j = find_fact(facts, t.profile_id, key);
        let v = if j < facts.len() {
            FleetComparisonValue {
                target_id: t.profile_id,
                role: copy_opt_text(&t.role),
                value: Some(facts[j].value.clone()),
                evidence_id: Some(facts[j].evidence_id),
            }
        } else {
            FleetComparisonValue { target_id: t.profile_id, role: copy_opt_text(&t.role), value: None, evidence_id: None }
        };
        proof {
            assert(tv[i as int] == targets@[i as int]@);
            assert(v@ == want[i as int]);
        }
        let ghost before = values@;
        values.push(v);
        proof {
            assert(value_records(values@) =~= value_records(before).push(v@));
            assert(want.take(i + 1) =~= want.take(i as int).push(want[i as int]));
        }
    }
    proof {
        assert(want.take(n as int) =~= want);
    }
    let status = comparison_status(values.as_slice());
    FleetFactComparison { kind, key: key.clone(), status, targets: values }
}

impl FleetFactSet {
    /// The investigation at `now_epoch_ms`: the unexpired facts in
    /// `(target, key)` order, the comparison of the targets' roles, and one
    /// comparison per compared key of those facts, in key order.
    pub fn view(&self, now_epoch_ms: u64) -> (r: FleetInvestigationView)
        ensures
            fact_records(r.facts@) == investigation(self.model(), now_epoch_ms).0,
            comparison_records(r.comparisons@) == investigation(self.model(), now_epoch_ms).1,
    {
        let ghost all = fact_records(self.facts@);
        let mut facts: Vec<FleetFactView> = Vec::new();
        let n = self.facts.len();
        for i in 0..n
            invariant
                n == self.facts@.len(),
                all == fact_records(self.facts@),
                fact_records(facts@) == live_facts(all.take(i as int), now_epoch_ms),
        {
            proof {
                assert(all.take(i + 1).drop_last() =~= all.take(i as int));
            }
            if self.facts[i].expires_at_epoch_ms > now_epoch_ms {
                let c = self.facts[i].clone();
                let ghost before = facts@;
                facts.push(c);
                proof {
                    assert(fact_records(facts@) =~= fact_records(before).push(c@));
                }
            }
        }
        proof {
            assert(all.take(n as int) =~= all);
        }
        let ghost live = fact_records(facts@);
        let mut keys: Vec<String> = Vec::new();
        let m = facts.len();
        for i in 0..m
            invariant
                m == facts@.len(),
                live == fact_records(facts@),
                text_views(keys@) == compared_keys(live.take(i as int)),
                forall|j: int| 0 <= j < keys@.len() ==> comparison_kind_spec(#[trigger] text_views(keys@)[j]) is Some,
        {
            proof {
                assert(live.take(i + 1).drop_last() =~= live.take(i as int));
            }
            match comparison_kind(facts[i].key.as_str()) {
                Some(_) => {
                    let ghost old_keys = text_views(keys@);
                    insert_key_exec(&mut keys, facts[i].key.clone());
                    proof {
                        lemma_insert_key_members(old_keys, live[i as int].key);
                        assert forall|j: int| 0 <= j < keys@.len() implies comparison_kind_spec(
                            #[trigger] text_views(keys@)[j],
                        ) is Some by {
                            let x = text_views(keys@)[j];
                            if x != live[i as int].key {
                                let q = choose|q: int| 0 <= q < old_keys.len() && old_keys[q] == x;
                                assert(comparison_kind_spec(old_keys[q]) is Some);
                            }
                        }
                    }
                },
                None => {},
            }
        }
        proof {
            assert(live.take(m as int) =~= live);
        }
        let ghost tv = target_views(self.targets@);
        let ghost ks = text_views(keys@);
        let ghost want = ks.map_values(|k: Seq<char>| key_comparison(tv, live, k));
        let mut comparisons: Vec<FleetFactComparison> = Vec::new();
        let role = role_comparison(&self.targets);
        comparisons.push(role);
        let kn = keys.len();
        for i in 0..kn
            invariant
                kn == keys@.len(),
                ks == text_views(keys@),
                live == fact_records(facts@),
                tv == target_views(self.targets@),
                want == ks.map_values(|k: Seq<char>| key_comparison(tv, live, k)),
                forall|j: int| 0 <= j < keys@.len() ==> comparison_kind_spec(#[trigger] ks[j]) is Some,
                comparison_records(comparisons@) == seq![role_comparison_spec(tv)] + want.take(i as int),
        {
            assert(comparison_kind_spec(ks[i as int]) is Some);
            assert(ks[i as int] == keys@[i as int]@);
            let kind = match comparison_kind(keys[i].as_str()) {
                Some(kind) => kind,
                None => FleetComparisonKind::Version,
            };
            let c = key_comparison_exec(&self.targets, &facts, &keys[i], kind);
            let ghost before = comparisons@;
            comparisons.push(c);
            proof {
                assert(comparison_records(comparisons@) =~= comparison_records(before).push(c@));
                assert(want.take(i + 1) =~= want.take(i as int).push(want[i as int]));
                assert(seq![role_comparison_spec(tv)] + want.take(i + 1) =~= (seq![role_comparison_spec(tv)]
                    + want.take(i as int)).push(want[i as int]));
            }
        }
        proof {
            assert(want.take(kn as int) =~= want);
        }
        FleetInvestigationView { facts, comparisons }
    }
}


/// Every record of `place(records, x)` is `x` or a record of `records`.
proof fn lemma_place_members(records: Seq<FactRecord>, x: FactRecord)
    ensures
        forall|j: int| 0 <= j < place(records, x).len() ==> #[trigger] place(records, x)[j] == x || records.contains(
            place(records, x)[j],
        ),
    decreases records.len(),
{
    if records.len() == 0 {
    } else if same_fact_slot(records[0], x) {
        assert forall|j: int| 0 <= j < place(records, x).len() implies #[trigger] place(records, x)[j] == x
            || records.contains(place(records, x)[j]) by {
            if j > 0 {
                assert(place(records, x)[j] == records[j]);
            }
        }
    } else if sorts_before(x, records[0]) {
        assert forall|j: int| 0 <= j < place(records, x).len() implies #[trigger] place(records, x)[j] == x
            || records.contains(place(records, x)[j]) by {
            if j > 0 {
                assert(place(records, x)[j] == records[j - 1]);
            }
        }
    } else {
        lemma_place_members(records.drop_first(), x);
        let rest = place(records.drop_first(), x);
        assert forall|j: int| 0 <= j < place(records, x).len() implies #[trigger] place(records, x)[j] == x
            || records.contains(place(records, x)[j]) by {
            if j == 0 {
                assert(records.contains(records[0]));
            } else {
                let y = rest[j - 1];
                assert(place(records, x)[j] == y);
                if y != x {
                    let m = choose|m: int| 0 <= m < records.drop_first().len() && records.drop_first()[m] == y;
                    assert(records[m + 1] == y);
                }
            }
        }
    }
}

/// The targets a list of records is bound to all lie in `targets`.
pub open spec fn bound_to(records: Seq<FactRecord>, targets: Seq<TargetView>) -> bool {
    forall|j: int| 0 <= j < records.len() ==> binding_index(targets, (#[trigger] records[j]).target_id, 0) < targets.len()
}

proof fn lemma_place_all_bound(base: Seq<FactRecord>, xs: Seq<FactRecord>, targets: Seq<TargetView>)
    requires
        bound_to(base, targets),
        bound_to(xs, targets),
    ensures
        bound_to(place_all(base, xs), targets),
    decreases xs.len(),
{
    if xs.len() > 0 {
        let prev = place_all(base, xs.drop_last());
        assert(bound_to(xs.drop_last(), targets)) by {
            assert forall|j: int| 0 <= j < xs.drop_last().len() implies binding_index(
                targets,
                (#[trigger] xs.drop_last()[j]).target_id,
                0,
            ) < targets.len() by {
                assert(xs.drop_last()[j] == xs[j]);
            }
        }
        lemma_place_all_bound(base, xs.drop_last(), targets);
        lemma_place_members(prev, xs.last());
        assert forall|j: int| 0 <= j < place(prev, xs.last()).len() implies binding_index(
            targets,
            (#[trigger] place(prev, xs.last())[j]).target_id,
            0,
        ) < targets.len() by {
            let y = place(prev, xs.last())[j];
            if y != xs.last() {
                let m = choose|m: int| 0 <= m < prev.len() && prev[m] == y;
                assert(binding_index(targets, prev[m].target_id, 0) < targets.len());
            }
        }
    }
}

proof fn lemma_screened_target(
    role: Option<Seq<char>>,
    expected: u128,
    facts: Seq<WorkingFact>,
    fresh: Seq<bool>,
    redacted: Seq<Seq<char>>,
    n: int,
)
    ensures
        screened(role, expected, facts, fresh, redacted, n) matches Ok(rs) ==> forall|j: int|
            0 <= j < rs.len() ==> (#[trigger] rs[j]).target_id == expected,
    decreases n,
{
    if n > 0 {
        lemma_screened_target(role, expected, facts, fresh, redacted, n - 1);
    }
}

/// Merging keeps a fact set target-bound: when every fact of the set is
/// bound to a target of its binding, so is every fact after the merge.
pub proof fn lemma_merge_keeps_facts_target_bound(
    model: FleetFactsModel,
    expected: u128,
    facts: Seq<WorkingFact>,
    fresh: Seq<bool>,
    redacted: Seq<Seq<char>>,
)
    requires
        bound_to(model.facts, model.targets),
    ensures
        bound_to(merge_outcome(model, expected, facts, fresh, redacted).1, model.targets),
{
    let k = binding_index(model.targets, expected, 0);
    if k < model.targets.len() {
        lemma_screened_target(model.targets[k].role, expected, facts, fresh, redacted, facts.len() as int);
        if let Ok(rs) = screened(model.targets[k].role, expected, facts, fresh, redacted, facts.len() as int) {
            assert(bound_to(rs, model.targets)) by {
                assert forall|j: int| 0 <= j < rs.len() implies binding_index(
                    model.targets,
                    (#[trigger] rs[j]).target_id,
                    0,
                ) < model.targets.len() by {
                    assert(rs[j].target_id == expected);
                }
            }
            lemma_place_all_bound(model.facts, rs, model.targets);
        }
    }
}

/// Merging keeps a fact set within the fleet-wide limit: a set within it
/// stays within it, whatever is merged.
pub proof fn lemma_merge_stays_bounded(
    model: FleetFactsModel,
    expected: u128,
    facts: Seq<WorkingFact>,
    fresh: Seq<bool>,
    redacted: Seq<Seq<char>>,
)
    requires
        model.facts.len() <= MAX_FLEET_FACTS,
    ensures
        merge_outcome(model, expected, facts, fresh, redacted).1.len() <= MAX_FLEET_FACTS,
        merge_outcome(model, expected, facts, fresh, redacted).0 is Ok ==> count_target(
            merge_outcome(model, expected, facts, fresh, redacted).1,
            expected,
        ) <= MAX_FLEET_FACTS_PER_TARGET,
{
}

/// A refused merge changes nothing.
pub proof fn lemma_refused_merge_changes_nothing(
    model: FleetFactsModel,
    expected: u128,
    facts: Seq<WorkingFact>,
    fresh: Seq<bool>,
    redacted: Seq<Seq<char>>,
)
    requires
        merge_outcome(model, expected, facts, fresh, redacted).0 is Err,
    ensures
        merge_outcome(model, expected, facts, fresh, redacted).1 == model.facts,
{
}

/// An investigation never shows an expired fact, and shows every fact that
/// is not expired.
pub proof fn lemma_view_shows_exactly_the_live_facts(records: Seq<FactRecord>, now: u64)
    ensures
        forall|j: int| 0 <= j < live_facts(records, now).len() ==> (#[trigger] live_facts(records, now)[j]).expires_at_epoch_ms > now,
        forall|j: int| 0 <= j < records.len() && (#[trigger] records[j]).expires_at_epoch_ms > now ==> live_facts(records, now).contains(records[j]),
    decreases records.len(),
{
    if records.len() > 0 {
        let prev = records.drop_last();
        lemma_view_shows_exactly_the_live_facts(prev, now);
        assert forall|j: int| 0 <= j < records.len() && (#[trigger] records[j]).expires_at_epoch_ms > now implies live_facts(
            records,
            now,
        ).contains(records[j]) by {
            if j < records.len() - 1 {
                assert(prev[j] == records[j]);
                let m = choose|m: int| 0 <= m < live_facts(prev, now).len() && live_facts(prev, now)[m] == prev[j];
                assert(live_facts(records, now)[m] == records[j]);
            } else {
                assert(live_facts(records, now).last() == records[j]);
            }
        }
    }
}


/// Records in strictly increasing `(target, key)` order: in particular no
/// two records share a slot.
pub open spec fn strictly_ordered(records: Seq<FactRecord>) -> bool {
    forall|i: int, j: int| 0 <= i < j < records.len() ==> sorts_before(#[trigger] records[i], #[trigger] records[j])
}

proof fn lemma_sorts_before_transitive(a: FactRecord, b: FactRecord, c: FactRecord)
    requires
        sorts_before(a, b),
        sorts_before(b, c),
    ensures
        sorts_before(a, c),
{
    if a.target_id == b.target_id && b.target_id == c.target_id {
        lemma_text_lt_transitive(a.key, b.key, c.key, 0);
    }
}

proof fn lemma_sorts_before_total(a: FactRecord, b: FactRecord)
    ensures
        !(sorts_before(a, b) && sorts_before(b, a)),
        !same_fact_slot(a, b) ==> sorts_before(a, b) || sorts_before(b, a),
        same_fact_slot(a, b) ==> !sorts_before(a, b),
{
    lemma_text_lt_total(a.key, b.key, 0);
    assert(a.key.skip(0) =~= a.key);
    assert(b.key.skip(0) =~= b.key);
    if same_fact_slot(a, b) {
        lemma_text_lt_irreflexive(a.key, 0);
    }
}

proof fn lemma_place_keeps_order(records: Seq<FactRecord>, x: FactRecord)
    requires
        strictly_ordered(records),
    ensures
        strictly_ordered(place(records, x)),
    decreases records.len(),
{
    let p = place(records, x);
    if records.len() == 0 {
    } else if same_fact_slot(records[0], x) {
        assert forall|i: int, j: int| 0 <= i < j < p.len() implies sorts_before(#[trigger] p[i], #[trigger] p[j]) by {
            assert(sorts_before(records[i], records[j]));
        }
    } else if sorts_before(x, records[0]) {
        assert forall|i: int, j: int| 0 <= i < j < p.len() implies sorts_before(#[trigger] p[i], #[trigger] p[j]) by {
            if i == 0 {
                if j > 1 {
                    assert(sorts_before(records[0], records[j - 1]));
                    lemma_sorts_before_transitive(x, records[0], records[j - 1]);
                }
            } else {
                assert(sorts_before(records[i - 1], records[j - 1]));
            }
        }
    } else {
        lemma_sorts_before_total(records[0], x);
        let tail = records.drop_first();
        assert(strictly_ordered(tail)) by {
            assert forall|i: int, j: int| 0 <= i < j < tail.len() implies sorts_before(#[trigger] tail[i], #[trigger] tail[j]) by {
                assert(sorts_before(records[i + 1], records[j + 1]));
            }
        }
        lemma_place_keeps_order(tail, x);
        lemma_place_members(tail, x);
        let rest = place(tail, x);
        assert forall|i: int, j: int| 0 <= i < j < p.len() implies sorts_before(#[trigger] p[i], #[trigger] p[j]) by {
            if i == 0 {
                let y = rest[j - 1];
                assert(p[j] == y);
                if y != x {
                    let m = choose|m: int| 0 <= m < tail.len() && tail[m] == y;
                    assert(sorts_before(records[0], records[m + 1]));
                }
            } else {
                assert(p[i] == rest[i - 1]);
                assert(p[j] == rest[j - 1]);
            }
        }
    }
}

proof fn lemma_place_all_keeps_order(records: Seq<FactRecord>, xs: Seq<FactRecord>)
    requires
        strictly_ordered(records),
    ensures
        strictly_ordered(place_all(records, xs)),
    decreases xs.len(),
{
    if xs.len() > 0 {
        lemma_place_all_keeps_order(records, xs.drop_last());
        lemma_place_keeps_order(place_all(records, xs.drop_last()), xs.last());
    }
}

/// A fleet fact set keeps its facts in `(target, key)` order with at most
/// one fact per target and key: merging into such a set, whatever is merged
/// and whether it is accepted, gives such a set again.
pub proof fn lemma_merge_keeps_one_fact_per_slot(
    model: FleetFactsModel,
    expected: u128,
    facts: Seq<WorkingFact>,
    fresh: Seq<bool>,
    redacted: Seq<Seq<char>>,
)
    requires
        strictly_ordered(model.facts),
    ensures
        strictly_ordered(merge_outcome(model, expected, facts, fresh, redacted).1),
        forall|i: int, j: int| 0 <= i < j < merge_outcome(model, expected, facts, fresh, redacted).1.len()
            ==> !same_fact_slot(
                #[trigger] merge_outcome(model, expected, facts, fresh, redacted).1[i],
                #[trigger] merge_outcome(model, expected, facts, fresh, redacted).1[j],
            ),
{
    let k = binding_index(model.targets, expected, 0);
    if k < model.targets.len() {
        if let Ok(rs) = screened(model.targets[k].role, expected, facts, fresh, redacted, facts.len() as int) {
            lemma_place_all_keeps_order(model.facts, rs);
        }
    }
    let out = merge_outcome(model, expected, facts, fresh, redacted).1;
    assert forall|i: int, j: int| 0 <= i < j < out.len() implies !same_fact_slot(#[trigger] out[i], #[trigger] out[j]) by {
        lemma_sorts_before_total(out[i], out[j]);
    }
}

} // verus!
