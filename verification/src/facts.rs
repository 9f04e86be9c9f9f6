//! Working facts of a run: compact, evidence-backed facts kept by
//! `(target, key)`. A write to a target drops that target's facts; facts
//! never satisfy a verification or change-set precondition by themselves.
use vstd::prelude::*;
use crate::encoding::{decimal, decimal_text};
use crate::fleet_digest::push_str;
use crate::ids::new_id;
use crate::text::{string_from_chars, text_eq};

verus! {

/// Default lifetime of a tool-derived fact (thirty seconds).
pub const DEFAULT_FACT_TTL_MS: u64 = 30_000;

/// How a fact was obtained.
#[derive(Clone, Copy, Debug, PartialEq, Eq, Structural)]
pub enum FactProvenance {
    ToolObservation,
    UserInput,
    Runtime,
}

/// One compact working fact.
#[derive(Debug)]
pub struct WorkingFact {
    pub id: u128,
    pub key: String,
    pub value: String,
    pub source_event_seq: Option<u64>,
    pub source_tool: Option<String>,
    pub tool_call_id: Option<u128>,
    pub target_id: Option<u128>,
    pub observed_at_epoch_ms: u64,
    pub ttl_ms: u64,
    pub provenance: FactProvenance,
}

impl Clone for WorkingFact {
    fn clone(&self) -> (r: WorkingFact)
        ensures
            r == *self,
    {
        let source_tool = match &self.source_tool {
            Some(s) => Some(s.clone()),
            None => None,
        };
        WorkingFact {
            id: self.id,
            key: self.key.clone(),
            value: self.value.clone(),
            source_event_seq: self.source_event_seq,
            source_tool,
            tool_call_id: self.tool_call_id,
            target_id: self.target_id,
            observed_at_epoch_ms: self.observed_at_epoch_ms,
            ttl_ms: self.ttl_ms,
            provenance: self.provenance,
        }
    }
}

/// Two facts describe the same thing: same key on the same target.
pub open spec fn same_slot(a: WorkingFact, b: WorkingFact) -> bool {
    a.key@ == b.key@ && a.target_id == b.target_id
}

/// First index at or after `k` whose fact has the slot of `x`, or the
/// length.
pub open spec fn slot_index(facts: Seq<WorkingFact>, x: WorkingFact, k: int) -> int
    decreases facts.len() - k,
{
    if k < 0 || k >= facts.len() {
        facts.len() as int
    } else if same_slot(facts[k], x) {
        k
    } else {
        slot_index(facts, x, k + 1)
    }
}

/// One upsert: a new slot is appended and reported; a known slot is
/// replaced and reported when its value or observation time changed, and
/// left alone otherwise.
pub open spec fn upsert_one(facts: Seq<WorkingFact>, changed: Seq<Seq<char>>, x: WorkingFact) -> (Seq<WorkingFact>, Seq<Seq<char>>) {
    let j = slot_index(facts, x, 0);
    if j >= facts.len() {
        (facts.push(x), changed.push(x.key@))
    } else if facts[j].value@ != x.value@ || facts[j].observed_at_epoch_ms != x.observed_at_epoch_ms {
        (facts.update(j, x), changed.push(x.key@))
    } else {
        (facts, changed)
    }
}

/// Upserts of `incoming`, in order.
pub open spec fn upsert_all(facts: Seq<WorkingFact>, incoming: Seq<WorkingFact>) -> (Seq<WorkingFact>, Seq<Seq<char>>)
    decreases incoming.len(),
{
    if incoming.len() == 0 {
        (facts, Seq::empty())
    } else {
        let (f, c) = upsert_all(facts, incoming.drop_last());
        upsert_one(f, c, incoming.last())
    }
}

/// The facts not bound to `target`, in order.
pub open spec fn without_target(facts: Seq<WorkingFact>, target: u128) -> Seq<WorkingFact>
    decreases facts.len(),
{
    if facts.len() == 0 {
        Seq::empty()
    } else if facts.last().target_id == Some(target) {
        without_target(facts.drop_last(), target)
    } else {
        without_target(facts.drop_last(), target).push(facts.last())
    }
}

/// The facts without those of any of the targets, dropped target by target.
pub open spec fn without_targets(facts: Seq<WorkingFact>, targets: Seq<u128>) -> Seq<WorkingFact>
    decreases targets.len(),
{
    if targets.len() == 0 {
        facts
    } else {
        without_target(without_targets(facts, targets.drop_last()), targets.last())
    }
}

pub open spec fn text_views(v: Seq<String>) -> Seq<Seq<char>> {
    v.map_values(|s: String| s@)
}

/// Upsert-by-slot set of working facts for one run.
#[derive(Debug)]
pub struct WorkingFactSet {
    facts: Vec<WorkingFact>,
}

impl View for WorkingFactSet {
    type V = Seq<WorkingFact>;

    closed spec fn view(&self) -> Seq<WorkingFact> {
        self.facts@
    }
}

impl WorkingFactSet {
    pub fn new() -> (r: WorkingFactSet)
        ensures
            r@ == Seq::<WorkingFact>::empty(),
    {
        WorkingFactSet { facts: Vec::new() }
    }

    pub fn len(&self) -> (r: usize)
        ensures
            r == self@.len(),
    {
        self.facts.len()
    }

    pub fn is_empty(&self) -> (r: bool)
        ensures
            r == (self@.len() == 0),
    {
        self.facts.len() == 0
    }

    pub fn all(&self) -> (r: &[WorkingFact])
        ensures
            r@ == self@,
    {
        self.facts.as_slice()
    }

    /// Inserts or replaces by `(target, key)`, in order, and returns the
    /// keys that changed.
    pub fn upsert_many(&mut self, incoming: Vec<WorkingFact>) -> (r: Vec<String>)
        ensures
            final(self)@ == upsert_all(old(self)@, incoming@).0,
            text_views(r@) == upsert_all(old(self)@, incoming@).1,
    {
        let mut changed: Vec<String> = Vec::new();
        let mut i: usize = 0;
        while i < incoming.len()
            invariant
                i <= incoming@.len(),
                (self@, text_views(changed@)) == upsert_all(old(self)@, incoming@.take(i as int)),
            decreases incoming@.len() - i,
        {
            proof {
                assert(incoming@.take(i + 1).drop_last() =~= incoming@.take(i as int));
            }
            let fact = incoming[i].clone();
            let mut j: usize = 0;
            while j < self.facts.len() && !(self.facts[j].key == fact.key && self.facts[j].target_id == fact.target_id)
                invariant
                    j <= self.facts@.len(),
                    slot_index(self.facts@, fact, j as int) == slot_index(self.facts@, fact, 0),
                decreases self.facts@.len() - j,
            {
                j = j + 1;
            }
            let ghost before = changed@;
            if j < self.facts.len() {
                if self.facts[j].value != fact.value || self.facts[j].observed_at_epoch_ms != fact.observed_at_epoch_ms {
                    changed.push(fact.key.clone());
                    self.facts.set(j, fact);
                }
            } else {
                changed.push(fact.key.clone());
                self.facts.push(fact);
            }
            proof {
                assert(text_views(changed@) =~= text_views(before) || text_views(changed@) =~= text_views(before).push(
                    incoming@[i as int].key@,
                ));
            }
            i = i + 1;
        }
        assert(incoming@.take(incoming@.len() as int) =~= incoming@);
        changed
    }

    /// Drops the facts of a target (after a write to it) and returns how
    /// many were dropped.
    pub fn invalidate_target(&mut self, target_id: u128) -> (r: usize)
        ensures
            final(self)@ == without_target(old(self)@, target_id),
            r == old(self)@.len() - final(self)@.len(),
    {
        let mut kept: Vec<WorkingFact> = Vec::new();
        let mut i: usize = 0;
        while i < self.facts.len()
            invariant
                i <= self.facts@.len(),
                kept@ == without_target(self.facts@.take(i as int), target_id),
                kept@.len() <= i,
            decreases self.facts@.len() - i,
        {
            proof {
                assert(self.facts@.take(i + 1).drop_last() =~= self.facts@.take(i as int));
            }
            if self.facts[i].target_id != Some(target_id) {
                kept.push(self.facts[i].clone());
            }
            i = i + 1;
        }
        assert(self.facts@.take(self.facts@.len() as int) =~= self.facts@);
        let before = self.facts.len();
        let after = kept.len();
        self.facts = kept;
        before - after
    }
}

/// After dropping a target's facts none of them is left, and every other
/// fact is kept.
pub proof fn lemma_invalidation_drops_exactly_the_target(facts: Seq<WorkingFact>, target: u128)
    ensures
        forall|i: int| 0 <= i < without_target(facts, target).len() ==> (#[trigger] without_target(facts, target)[i]).target_id
            != Some(target),
        forall|i: int| 0 <= i < facts.len() && facts[i].target_id != Some(target) ==> without_target(facts, target).contains(
            #[trigger] facts[i],
        ),
    decreases facts.len(),
{
    if facts.len() > 0 {
        lemma_invalidation_drops_exactly_the_target(facts.drop_last(), target);
        let rest = without_target(facts.drop_last(), target);
        assert forall|i: int| 0 <= i < facts.len() && facts[i].target_id != Some(target) implies without_target(
            facts,
            target,
        ).contains(#[trigger] facts[i]) by {
            if i < facts.len() - 1 {
                assert(facts.drop_last()[i] == facts[i]);
                assert(rest.contains(facts[i]));
                if facts.last().target_id != Some(target) {
                    let k = choose|k: int| 0 <= k < rest.len() && rest[k] == facts[i];
                    assert(rest.push(facts.last())[k] == facts[i]);
                }
            } else {
                assert(without_target(facts, target).last() == facts[i]);
            }
        }
    }
}


/// No two facts hold the same slot.
pub open spec fn unique_slots(facts: Seq<WorkingFact>) -> bool {
    forall|i: int, j: int| 0 <= i < j < facts.len() ==> !same_slot(#[trigger] facts[i], #[trigger] facts[j])
}

proof fn lemma_slot_index(facts: Seq<WorkingFact>, x: WorkingFact, k: int)
    requires
        0 <= k,
    ensures
        k <= slot_index(facts, x, k) <= facts.len() || k > facts.len(),
        slot_index(facts, x, k) < facts.len() ==> same_slot(facts[slot_index(facts, x, k)], x),
        slot_index(facts, x, k) >= facts.len() ==> forall|i: int| k <= i < facts.len() ==> !same_slot(#[trigger] facts[i], x),
    decreases facts.len() - k,
{
    if k < facts.len() && !same_slot(facts[k], x) {
        lemma_slot_index(facts, x, k + 1);
    }
}

/// Upserting keeps at most one fact per slot: a set without repeated slots
/// has none after any upsert.
pub proof fn lemma_upsert_keeps_slots_unique(facts: Seq<WorkingFact>, incoming: Seq<WorkingFact>)
    requires
        unique_slots(facts),
    ensures
        unique_slots(upsert_all(facts, incoming).0),
    decreases incoming.len(),
{
    if incoming.len() > 0 {
        lemma_upsert_keeps_slots_unique(facts, incoming.drop_last());
        let (f, c) = upsert_all(facts, incoming.drop_last());
        let x = incoming.last();
        lemma_slot_index(f, x, 0);
        let j = slot_index(f, x, 0);
        let out = upsert_one(f, c, x).0;
        assert forall|a: int, b: int| 0 <= a < b < out.len() implies !same_slot(#[trigger] out[a], #[trigger] out[b]) by {
            if j >= f.len() {
                if b == f.len() {
                    assert(out[a] == f[a]);
                    assert(!same_slot(f[a], x));
                } else {
                    assert(out[a] == f[a] && out[b] == f[b]);
                }
            } else if f[j].value@ != x.value@ || f[j].observed_at_epoch_ms != x.observed_at_epoch_ms {
                if a == j {
                    assert(!same_slot(f[j], f[b]));
                } else if b == j {
                    assert(!same_slot(f[a], f[j]));
                } else {
                    assert(out[a] == f[a] && out[b] == f[b]);
                }
            }
        }
    }
}


/// Disk usage of one mount, with the usage already written as text
/// (`91%`).
#[derive(Debug)]
pub struct DiskUsageFact {
    pub mount: String,
    pub usage: String,
}

/// What fact extraction reads of a tool's structured data, by kind of
/// result. Texts come redacted; the disk usage and the service status come
/// written out (`91%`, `active`).
#[derive(Debug)]
pub enum ToolFactData {
    SystemInfo { operating_system: String, hostname: String, kernel_release: String },
    SystemDisk { disks: Vec<DiskUsageFact> },
    ServiceStatus { service: String, status: String },
    ServiceLogs { service: String, entry_count: usize },
    NetworkPortCheck { host: String, port: u16, reachable: bool },
    HttpResponse { status_code: u16 },
    NginxTest { valid: bool, config_file: Option<String> },
    /// A diagnostic of some category, with the fields facts are taken from.
    Diagnostic { category: String, container: Option<String>, running: Option<bool>, path: Option<String> },
    /// The result of a write; writes never seed facts.
    Write,
}

/// A finished tool call as fact extraction sees it.
#[derive(Debug)]
pub struct ToolResultFacts {
    pub tool_name: String,
    pub success: bool,
    pub data: Option<ToolFactData>,
}

/// `true` or `false`.
pub open spec fn bool_text(b: bool) -> Seq<char> {
    if b { "true"@ } else { "false"@ }
}

/// The key and value of every fact a kind of result offers, in order,
/// before facts with an empty value are dropped.
pub open spec fn fact_pairs(data: ToolFactData) -> Seq<(Seq<char>, Seq<char>)> {
    match data {
        ToolFactData::SystemInfo { operating_system, hostname, kernel_release } => seq![
            ("os"@, operating_system@),
            ("hostname"@, hostname@),
            ("kernel"@, kernel_release@),
        ],
        ToolFactData::SystemDisk { disks } => Seq::new(
            disks@.len(),
            |i: int| ("disk.usage."@ + disks@[i].mount@, disks@[i].usage@),
        ),
        ToolFactData::ServiceStatus { service, status } => seq![("service."@ + service@ + ".status"@, status@)],
        ToolFactData::ServiceLogs { service, entry_count } => seq![
            ("service."@ + service@ + ".logs_available"@, bool_text(entry_count > 0)),
            ("service."@ + service@ + ".log_lines"@, decimal(entry_count as nat)),
        ],
        ToolFactData::NetworkPortCheck { host, port, reachable } => seq![
            ("port."@ + host@ + "."@ + decimal(port as nat), if reachable { "open"@ } else { "closed"@ }),
        ],
        ToolFactData::HttpResponse { status_code } => seq![("http.status"@, decimal(status_code as nat))],
        ToolFactData::NginxTest { valid, config_file } => seq![("nginx.config_valid"@, bool_text(valid))] + match config_file {
            Some(p) => seq![("nginx.config_file"@, p@)],
            None => Seq::empty(),
        },
        ToolFactData::Diagnostic { category, container, running, path } => if category@ == "docker-inspect"@ {
            match container {
                Some(c) => seq![("docker."@ + c@ + ".running"@, bool_text(running == Some(true)))],
                None => Seq::empty(),
            }
        } else if category@ == "file"@ {
            match path {
                Some(p) => seq![("file.exists."@ + p@, "true"@)],
                None => Seq::empty(),
            }
        } else {
            Seq::empty()
        },
        ToolFactData::Write => Seq::empty(),
    }
}

/// The pairs with a non-empty value, in order.
pub open spec fn kept_pairs(pairs: Seq<(Seq<char>, Seq<char>)>) -> Seq<(Seq<char>, Seq<char>)>
    decreases pairs.len(),
{
    if pairs.len() == 0 {
        Seq::empty()
    } else {
        let rest = kept_pairs(pairs.drop_last());
        if pairs.last().1.len() > 0 { rest.push(pairs.last()) } else { rest }
    }
}

/// The key and value of each fact.
pub open spec fn fact_entries(facts: Seq<WorkingFact>) -> Seq<(Seq<char>, Seq<char>)> {
    facts.map_values(|f: WorkingFact| (f.key@, f.value@))
}

/// The key and value of each pair.
pub open spec fn pair_views(pairs: Seq<(String, String)>) -> Seq<(Seq<char>, Seq<char>)> {
    pairs.map_values(|p: (String, String)| (p.0@, p.1@))
}

fn text_of(parts: &Vec<char>) -> (r: String)
    ensures
        r@ == parts@,
{
    string_from_chars(parts.as_slice())
}

fn joined(a: &str, b: &str, c: &str) -> (r: String)
    ensures
        r@ == a@ + b@ + c@,
{
    let mut t: Vec<char> = Vec::new();
    push_str(&mut t, a);
    push_str(&mut t, b);
    push_str(&mut t, c);
    text_of(&t)
}

fn prefixed(a: &str, b: &str) -> (r: String)
    ensures
        r@ == a@ + b@,
{
    let mut t: Vec<char> = Vec::new();
    push_str(&mut t, a);
    push_str(&mut t, b);
    text_of(&t)
}

fn number_text(n: u64) -> (r: String)
    ensures
        r@ == decimal(n as nat),
{
    let digits = decimal_text(n);
    text_of(&digits)
}

fn flag_text(b: bool) -> (r: String)
    ensures
        r@ == bool_text(b),
{
    if b { "true".to_owned() } else { "false".to_owned() }
}

/// The key and value of every fact a kind of result offers.
fn offered_facts(data: &ToolFactData) -> (r: Vec<(String, String)>)
    ensures
        pair_views(r@) == fact_pairs(*data),
{
    let mut out: Vec<(String, String)> = Vec::new();
    match data {
        ToolFactData::SystemInfo { operating_system, hostname, kernel_release } => {
            out.push(("os".to_owned(), operating_system.clone()));
            out.push(("hostname".to_owned(), hostname.clone()));
            out.push(("kernel".to_owned(), kernel_release.clone()));
        },
        ToolFactData::SystemDisk { disks } => {
            let mut i: usize = 0;
            while i < disks.len()
                invariant
                    i <= disks@.len(),
                    out@.len() == i,
                    pair_views(out@) == Seq::new(
                        i as nat,
                        |k: int| ("disk.usage."@ + disks@[k].mount@, disks@[k].usage@),
                    ),
                decreases disks@.len() - i,
            {
                let key = prefixed("disk.usage.", disks[i].mount.as_str());
                let usage = disks[i].usage.clone();
                assert(usage@ == disks@[i as int].usage@);
                let ghost before = out@;
                out.push((key, usage));
                proof {
                    assert forall|k: int| 0 <= k < i + 1 implies #[trigger] pair_views(out@)[k]
                        == ("disk.usage."@ + disks@[k].mount@, disks@[k].usage@) by {
                        if k < i {
                            assert(out@[k] == before[k]);
                            assert(pair_views(before)[k] == ("disk.usage."@ + disks@[k].mount@, disks@[k].usage@));
                        }
                    }
                    assert(pair_views(out@) =~= Seq::new(
                        (i + 1) as nat,
                        |k: int| ("disk.usage."@ + disks@[k].mount@, disks@[k].usage@),
                    ));
                }
                i = i + 1;
            }
        },
        ToolFactData::ServiceStatus { service, status } => {
            out.push((joined("service.", service.as_str(), ".status"), status.clone()));
        },
        ToolFactData::ServiceLogs { service, entry_count } => {
            out.push((joined("service.", service.as_str(), ".logs_available"), flag_text(*entry_count > 0)));
            out.push((joined("service.", service.as_str(), ".log_lines"), number_text(*entry_count as u64)));
        },
        ToolFactData::NetworkPortCheck { host, port, reachable } => {
            let number = number_text(*port as u64);
            let mut key: Vec<char> = Vec::new();
            push_str(&mut key, "port.");
            push_str(&mut key, host.as_str());
            push_str(&mut key, ".");
            push_str(&mut key, number.as_str());
            let state = if *reachable { "open".to_owned() } else { "closed".to_owned() };
            out.push((text_of(&key), state));
        },
        ToolFactData::HttpResponse { status_code } => {
            out.push(("http.status".to_owned(), number_text(*status_code as u64)));
        },
        ToolFactData::NginxTest { valid, config_file } => {
            out.push(("nginx.config_valid".to_owned(), flag_text(*valid)));
            match config_file {
                Some(p) => out.push(("nginx.config_file".to_owned(), p.clone())),
                None => {},
            }
        },
        ToolFactData::Diagnostic { category, container, running, path } => {
            if text_eq(category.as_str(), "docker-inspect") {
                match container {
                    Some(c) => {
                        let up = match running {
                            Some(b) => *b,
                            None => false,
                        };
                        out.push((joined("docker.", c.as_str(), ".running"), flag_text(up)));
                    },
                    None => {},
                }
            } else if text_eq(category.as_str(), "file") {
                match path {
                    Some(p) => out.push((prefixed("file.exists.", p.as_str()), "true".to_owned())),
                    None => {},
                }
            }
        },
        ToolFactData::Write => {},
    }
    proof {
        assert(pair_views(out@) =~= fact_pairs(*data));
    }
    out
}

/// Extracts the compact facts a successful tool result offers: one per
/// offered key with a non-empty value, in order, each bound to the call,
/// the target, the time and the event it came from, with the default time
/// to live and tool-observation provenance. A failed result, one without
/// data, or a write yields none.
pub fn extract_facts(
    result: &ToolResultFacts,
    tool_call_id: u128,
    target_id: Option<u128>,
    observed_at_epoch_ms: u64,
    source_event_seq: Option<u64>,
) -> (r: Vec<WorkingFact>)
    ensures
        fact_entries(r@) == (match result.data {
            Some(data) if result.success => kept_pairs(fact_pairs(data)),
            _ => Seq::empty(),
        }),
        forall|i: int| 0 <= i < r@.len() ==> {
            let f = #[trigger] r@[i];
            &&& f.tool_call_id == Some(tool_call_id)
            &&& f.target_id == target_id
            &&& f.observed_at_epoch_ms == observed_at_epoch_ms
            &&& f.source_event_seq == source_event_seq
            &&& f.source_tool is Some && f.source_tool->0@ == result.tool_name@
            &&& f.ttl_ms == DEFAULT_FACT_TTL_MS
            &&& f.provenance == FactProvenance::ToolObservation
        },
{
    let mut facts: Vec<WorkingFact> = Vec::new();
    if !result.success {
        return facts;
    }
    let data = match &result.data {
        Some(d) => d,
        None => return facts,
    };
    let pairs = offered_facts(data);
    let ghost offered = fact_pairs(*data);
    let mut i: usize = 0;
    while i < pairs.len()
        invariant
            i <= pairs@.len(),
            pair_views(pairs@) == offered,
            fact_entries(facts@) == kept_pairs(offered.take(i as int)),
            forall|k: int| 0 <= k < facts@.len() ==> {
                let f = #[trigger] facts@[k];
                &&& f.tool_call_id == Some(tool_call_id)
                &&& f.target_id == target_id
                &&& f.observed_at_epoch_ms == observed_at_epoch_ms
                &&& f.source_event_seq == source_event_seq
                &&& f.source_tool is Some && f.source_tool->0@ == result.tool_name@
                &&& f.ttl_ms == DEFAULT_FACT_TTL_MS
                &&& f.provenance == FactProvenance::ToolObservation
            },
        decreases pairs@.len() - i,
    {
        proof {
            assert(offered.take(i + 1).drop_last() =~= offered.take(i as int));
            assert(offered.take(i + 1).last() == offered[i as int]);
            assert(offered[i as int] == (pairs@[i as int].0@, pairs@[i as int].1@));
        }
        let ghost before = facts@;
        if !pairs[i].1.as_str().is_empty() {
            facts.push(WorkingFact {
                id: new_id(),
                key: pairs[i].0.clone(),
                value: pairs[i].1.clone(),
                source_event_seq,
                source_tool: Some(result.tool_name.clone()),
                tool_call_id: Some(tool_call_id),
                target_id,
                observed_at_epoch_ms,
                ttl_ms: DEFAULT_FACT_TTL_MS,
                provenance: FactProvenance::ToolObservation,
            });
            proof {
                assert(fact_entries(facts@) =~= fact_entries(before).push(offered[i as int]));
            }
        }
        i = i + 1;
    }
    proof {
        assert(offered.take(pairs@.len() as int) =~= offered);
    }
    facts
}


/// One upsert leaves the incoming fact's slot (its key on its target)
/// holding the incoming value and observation time, leaves every other slot
/// alone, and reports the key exactly when no stored fact of that slot
/// already had that value and time.
pub proof fn lemma_upsert_one_refreshes_its_slot(facts: Seq<WorkingFact>, changed: Seq<Seq<char>>, x: WorkingFact)
    requires
        unique_slots(facts),
    ensures
        exists|j: int| 0 <= j < upsert_one(facts, changed, x).0.len() && {
            let f = #[trigger] upsert_one(facts, changed, x).0[j];
            &&& f.key@ == x.key@
            &&& f.target_id == x.target_id
            &&& f.value@ == x.value@
            &&& f.observed_at_epoch_ms == x.observed_at_epoch_ms
        },
        forall|i: int| 0 <= i < facts.len() && !(facts[i].key@ == x.key@ && facts[i].target_id == x.target_id)
            ==> #[trigger] upsert_one(facts, changed, x).0[i] == facts[i],
        upsert_one(facts, changed, x).1 == (if exists|i: int| 0 <= i < facts.len() && {
            let f = #[trigger] facts[i];
            &&& f.key@ == x.key@
            &&& f.target_id == x.target_id
            &&& f.value@ == x.value@
            &&& f.observed_at_epoch_ms == x.observed_at_epoch_ms
        } {
            changed
        } else {
            changed.push(x.key@)
        }),
{
    lemma_slot_index(facts, x, 0);
    let j = slot_index(facts, x, 0);
    let out = upsert_one(facts, changed, x).0;
    if j >= facts.len() {
        assert(out[facts.len() as int] == x);
        assert forall|i: int| 0 <= i < facts.len() implies !({
            let f = #[trigger] facts[i];
            &&& f.key@ == x.key@
            &&& f.target_id == x.target_id
            &&& f.value@ == x.value@
            &&& f.observed_at_epoch_ms == x.observed_at_epoch_ms
        }) by {
            assert(!same_slot(facts[i], x));
        }
    } else if facts[j].value@ != x.value@ || facts[j].observed_at_epoch_ms != x.observed_at_epoch_ms {
        assert(out[j] == x);
        assert forall|i: int| 0 <= i < facts.len() implies !({
            let f = #[trigger] facts[i];
            &&& f.key@ == x.key@
            &&& f.target_id == x.target_id
            &&& f.value@ == x.value@
            &&& f.observed_at_epoch_ms == x.observed_at_epoch_ms
        }) by {
            if i != j && facts[i].key@ == x.key@ && facts[i].target_id == x.target_id {
                assert(same_slot(facts[i], facts[j]));
                if i < j {
                    assert(!same_slot(facts[i], facts[j]));
                } else {
                    assert(!same_slot(facts[j], facts[i]));
                }
            }
        }
    } else {
        assert(out[j] == facts[j]);
        assert(facts[j].key@ == x.key@ && facts[j].target_id == x.target_id);
    }
}

/// Upserting a batch leaves every incoming fact that no later incoming fact
/// replaces in its slot, with its value and observation time: the last fact
/// of a slot wins.
pub proof fn lemma_upsert_last_incoming_wins(facts: Seq<WorkingFact>, incoming: Seq<WorkingFact>, i: int)
    requires
        unique_slots(facts),
        0 <= i < incoming.len(),
        forall|k: int| i < k < incoming.len() ==> !(#[trigger] incoming[k].key@ == incoming[i].key@
            && incoming[k].target_id == incoming[i].target_id),
    ensures
        exists|j: int| 0 <= j < upsert_all(facts, incoming).0.len() && {
            let f = #[trigger] upsert_all(facts, incoming).0[j];
            &&& f.key@ == incoming[i].key@
            &&& f.target_id == incoming[i].target_id
            &&& f.value@ == incoming[i].value@
            &&& f.observed_at_epoch_ms == incoming[i].observed_at_epoch_ms
        },
    decreases incoming.len(),
{
    let rest = incoming.drop_last();
    let x = incoming.last();
    lemma_upsert_keeps_slots_unique(facts, rest);
    let (f, c) = upsert_all(facts, rest);
    lemma_upsert_one_refreshes_its_slot(f, c, x);
    lemma_slot_index(f, x, 0);
    assert(upsert_all(facts, incoming) == upsert_one(f, c, x));
    if i < incoming.len() - 1 {
        assert forall|k: int| i < k < rest.len() implies !(#[trigger] rest[k].key@ == rest[i].key@
            && rest[k].target_id == rest[i].target_id) by {
            assert(rest[k] == incoming[k]);
        }
        lemma_upsert_last_incoming_wins(facts, rest, i);
        let j = choose|j: int| 0 <= j < f.len() && {
            let g = #[trigger] f[j];
            &&& g.key@ == rest[i].key@
            &&& g.target_id == rest[i].target_id
            &&& g.value@ == rest[i].value@
            &&& g.observed_at_epoch_ms == rest[i].observed_at_epoch_ms
        };
        assert(!(x.key@ == incoming[i].key@ && x.target_id == incoming[i].target_id));
        assert(upsert_one(f, c, x).0[j] == f[j]);
        assert(upsert_one(f, c, x).0.len() >= f.len());
        assert(upsert_all(facts, incoming).0[j] == f[j]);
    } else {
        assert(incoming[i] == x);
    }
}

} // verus!
