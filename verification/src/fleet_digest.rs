//! The canonical JSON text of a fleet graph and its SHA-256 digest. The text
//! is byte for byte what `serde_json` writes for the graph's wire form, so a
//! digest sealed elsewhere can be recomputed here.
use vstd::prelude::*;
use crate::encoding::{
    decimal, decimal_text, json_string, push_json_string, uuid_text,
};
use crate::fleet_run::{
    FleetExecutionStrategyV2, FleetFailurePolicyV2, FleetStage, FleetStageStateV2, StageView,
    stage_views,
};
use crate::fleet_target::{FleetTargetBinding, TargetView, target_views};

verus! {

pub open spec fn json_bool(b: bool) -> Seq<char> {
    if b {
        "true"@
    } else {
        "false"@
    }
}

pub open spec fn policy_name(p: FleetFailurePolicyV2) -> Seq<char> {
    match p {
        FleetFailurePolicyV2::Stop => "stop"@,
        FleetFailurePolicyV2::PauseForReview => "pause_for_review"@,
        FleetFailurePolicyV2::Continue => "continue"@,
        FleetFailurePolicyV2::Rollback => "rollback"@,
    }
}

pub open spec fn strategy_name(s: FleetExecutionStrategyV2) -> Seq<char> {
    match s {
        FleetExecutionStrategyV2::Sequential => "sequential"@,
        FleetExecutionStrategyV2::Canary => "canary"@,
        FleetExecutionStrategyV2::RollingBatch => "rolling_batch"@,
        FleetExecutionStrategyV2::Parallel => "parallel"@,
    }
}

pub open spec fn stage_state_name(s: FleetStageStateV2) -> Seq<char> {
    match s {
        FleetStageStateV2::Pending => "pending"@,
        FleetStageStateV2::Ready => "ready"@,
        FleetStageStateV2::Running => "running"@,
        FleetStageStateV2::AwaitingApproval => "awaiting_approval"@,
        FleetStageStateV2::Verifying => "verifying"@,
        FleetStageStateV2::Succeeded => "succeeded"@,
        FleetStageStateV2::Failed => "failed"@,
        FleetStageStateV2::Blocked => "blocked"@,
        FleetStageStateV2::Cancelled => "cancelled"@,
        FleetStageStateV2::RollbackPending => "rollback_pending"@,
        FleetStageStateV2::RolledBack => "rolled_back"@,
        FleetStageStateV2::RollbackFailed => "rollback_failed"@,
    }
}

/// Items separated by commas.
pub open spec fn comma_join(items: Seq<Seq<char>>) -> Seq<char>
    decreases items.len(),
{
    if items.len() == 0 {
        Seq::empty()
    } else if items.len() == 1 {
        items[0]
    } else {
        comma_join(items.drop_last()) + seq![','] + items.last()
    }
}

/// A JSON array of already encoded items.
pub open spec fn json_list(items: Seq<Seq<char>>) -> Seq<char> {
    seq!['['] + comma_join(items) + seq![']']
}

pub open spec fn json_id(id: u128) -> Seq<char> {
    json_string(uuid_text(id))
}

pub open spec fn json_ids(ids: Seq<u128>) -> Seq<char> {
    json_list(ids.map_values(|id: u128| json_id(id)))
}

pub open spec fn json_opt_string(o: Option<Seq<char>>) -> Seq<char> {
    match o {
        Some(s) => json_string(s),
        None => "null"@,
    }
}

/// `{"profileId":..,"sessionId":..,"role":..,"ordinal":..}`
pub open spec fn target_json(t: TargetView) -> Seq<char> {
    "{\"profileId\":"@ + json_id(t.profile_id) + ",\"sessionId\":"@ + json_id(t.session_id)
        + ",\"role\":"@ + json_opt_string(t.role) + ",\"ordinal\":"@ + decimal(t.ordinal) + "}"@
}

/// `{"id":..,"summary":..,"targetIds":..,"dependsOn":..,"executionStrategy":..,
/// "concurrencyLimit":..,"state":..}`
pub open spec fn stage_json(s: StageView) -> Seq<char> {
    "{\"id\":"@ + json_id(s.id) + ",\"summary\":"@ + json_string(s.summary) + ",\"targetIds\":"@
        + json_ids(s.target_ids) + ",\"dependsOn\":"@ + json_ids(s.depends_on)
        + ",\"executionStrategy\":\""@ + strategy_name(s.execution_strategy)
        + "\",\"concurrencyLimit\":"@ + decimal(s.concurrency_limit) + ",\"state\":\""@
        + stage_state_name(s.state) + "\"}"@
}

/// The wire form of a fleet graph: production flag, failure policy, targets
/// and stages.
pub open spec fn graph_json(
    production: bool,
    policy: FleetFailurePolicyV2,
    targets: Seq<TargetView>,
    stages: Seq<StageView>,
) -> Seq<char> {
    "{\"production\":"@ + json_bool(production) + ",\"failurePolicy\":\""@ + policy_name(policy)
        + "\",\"targets\":"@ + json_list(targets.map_values(|t: TargetView| target_json(t)))
        + ",\"stages\":"@ + json_list(stages.map_values(|s: StageView| stage_json(s))) + "}"@
}

/// Appends the characters of a literal.
pub fn push_str(out: &mut Vec<char>, s: &str)
    ensures
        final(out)@ == old(out)@ + s@,
{
    let chars = crate::text::chars_of(s);
    let n = chars.len();
    let ghost start = out@;
    for i in 0..n
        invariant
            n == chars@.len(),
            chars@ == s@,
            out@ == start + s@.take(i as int),
    {
        out.push(chars[i]);
        proof {
            assert(s@.take(i + 1) =~= s@.take(i as int).push(s@[i as int]));
        }
    }
    proof {
        assert(s@.take(n as int) =~= s@);
    }
}

fn push_chars(out: &mut Vec<char>, chars: &Vec<char>)
    ensures
        final(out)@ == old(out)@ + chars@,
{
    let n = chars.len();
    let ghost start = out@;
    for i in 0..n
        invariant
            n == chars@.len(),
            out@ == start + chars@.take(i as int),
    {
        out.push(chars[i]);
        proof {
            assert(chars@.take(i + 1) =~= chars@.take(i as int).push(chars@[i as int]));
        }
    }
    proof {
        assert(chars@.take(n as int) =~= chars@);
    }
}

proof fn lemma_join_step(items: Seq<Seq<char>>, i: int)
    requires
        0 <= i < items.len(),
    ensures
        comma_join(items.take(i + 1)) == comma_join(items.take(i)) + (if i == 0 {
            Seq::<char>::empty()
        } else {
            seq![',']
        }) + items[i],
{
    let t = items.take(i + 1);
    assert(t.drop_last() =~= items.take(i));
    if i == 0 {
        assert(comma_join(t) == t[0]);
        assert(Seq::<char>::empty() + Seq::<char>::empty() + items[0] =~= items[0]);
    }
}

fn push_json_id(out: &mut Vec<char>, id: u128)
    ensures
        final(out)@ == old(out)@ + json_id(id),
{
    let text = crate::encoding::id_text(id);
    push_json_string(out, text.as_str());
}

fn push_json_ids(out: &mut Vec<char>, ids: &Vec<u128>)
    ensures
        final(out)@ == old(out)@ + json_ids(ids@),
{
    let ghost items = ids@.map_values(|id: u128| json_id(id));
    let ghost start = out@;
    out.push('[');
    let n = ids.len();
    for i in 0..n
        invariant
            n == ids@.len(),
            items == ids@.map_values(|id: u128| json_id(id)),
            out@ == start + seq!['['] + comma_join(items.take(i as int)),
    {
        proof {
            lemma_join_step(items, i as int);
        }
        if i > 0 {
            out.push(',');
        }
        push_json_id(out, ids[i]);
        proof {
            assert(out@ =~= start + seq!['['] + comma_join(items.take(i + 1)));
        }
    }
    out.push(']');
    proof {
        assert(items.take(n as int) =~= items);
        assert(out@ =~= start + json_ids(ids@));
    }
}

fn push_json_opt_string(out: &mut Vec<char>, o: &Option<String>)
    ensures
        final(out)@ == old(out)@ + json_opt_string(crate::fleet_target::opt_text(*o)),
{
    match o {
        Some(s) => push_json_string(out, s.as_str()),
        None => push_str(out, "null"),
    }
}

fn push_decimal(out: &mut Vec<char>, n: usize)
    ensures
        final(out)@ == old(out)@ + decimal(n as nat),
{
    let digits = decimal_text(n as u64);
    push_chars(out, &digits);
}

fn push_target_json(out: &mut Vec<char>, t: &FleetTargetBinding)
    ensures
        final(out)@ == old(out)@ + target_json(t@),
{
    let ghost start = out@;
    push_str(out, "{\"profileId\":");
    push_json_id(out, t.profile_id);
    push_str(out, ",\"sessionId\":");
    push_json_id(out, t.session_id);
    push_str(out, ",\"role\":");
    push_json_opt_string(out, &t.role);
    push_str(out, ",\"ordinal\":");
    push_decimal(out, t.ordinal);
    push_str(out, "}");
    proof {
        assert(out@ =~= start + target_json(t@));
    }
}

pub fn strategy_str(s: FleetExecutionStrategyV2) -> (r: &'static str)
    ensures
        r@ == strategy_name(s),
{
    match s {
        FleetExecutionStrategyV2::Sequential => "sequential",
        FleetExecutionStrategyV2::Canary => "canary",
        FleetExecutionStrategyV2::RollingBatch => "rolling_batch",
        FleetExecutionStrategyV2::Parallel => "parallel",
    }
}

pub fn stage_state_str(s: FleetStageStateV2) -> (r: &'static str)
    ensures
        r@ == stage_state_name(s),
{
    match s {
        FleetStageStateV2::Pending => "pending",
        FleetStageStateV2::Ready => "ready",
        FleetStageStateV2::Running => "running",
        FleetStageStateV2::AwaitingApproval => "awaiting_approval",
        FleetStageStateV2::Verifying => "verifying",
        FleetStageStateV2::Succeeded => "succeeded",
        FleetStageStateV2::Failed => "failed",
        FleetStageStateV2::Blocked => "blocked",
        FleetStageStateV2::Cancelled => "cancelled",
        FleetStageStateV2::RollbackPending => "rollback_pending",
        FleetStageStateV2::RolledBack => "rolled_back",
        FleetStageStateV2::RollbackFailed => "rollback_failed",
    }
}

pub fn policy_str(p: FleetFailurePolicyV2) -> (r: &'static str)
    ensures
        r@ == policy_name(p),
{
    match p {
        FleetFailurePolicyV2::Stop => "stop",
        FleetFailurePolicyV2::PauseForReview => "pause_for_review",
        FleetFailurePolicyV2::Continue => "continue",
        FleetFailurePolicyV2::Rollback => "rollback",
    }
}

fn push_stage_json(out: &mut Vec<char>, s: &FleetStage)
    ensures
        final(out)@ == old(out)@ + stage_json(s@),
{
    let ghost start = out@;
    push_str(out, "{\"id\":");
    push_json_id(out, s.id);
    push_str(out, ",\"summary\":");
    push_json_string(out, s.summary.as_str());
    push_str(out, ",\"targetIds\":");
    push_json_ids(out, &s.target_ids);
    push_str(out, ",\"dependsOn\":");
    push_json_ids(out, &s.depends_on);
    push_str(out, ",\"executionStrategy\":\"");
    push_str(out, strategy_str(s.execution_strategy));
    push_str(out, "\",\"concurrencyLimit\":");
    push_decimal(out, s.concurrency_limit);
    push_str(out, ",\"state\":\"");
    push_str(out, stage_state_str(s.state));
    push_str(out, "\"}");
    proof {
        assert(out@ =~= start + stage_json(s@));
    }
}

/// The canonical JSON text of a fleet graph.
pub fn graph_json_text(
    production: bool,
    policy: FleetFailurePolicyV2,
    targets: &Vec<FleetTargetBinding>,
    stages: &Vec<FleetStage>,
) -> (r: Vec<char>)
    ensures
        r@ == graph_json(production, policy, target_views(targets@), stage_views(stages@)),
{
    let mut out: Vec<char> = Vec::new();
    push_str(&mut out, "{\"production\":");
    if production {
        push_str(&mut out, "true");
    } else {
        push_str(&mut out, "false");
    }
    push_str(&mut out, ",\"failurePolicy\":\"");
    push_str(&mut out, policy_str(policy));
    push_str(&mut out, "\",\"targets\":");
    let ghost tv = target_views(targets@);
    let ghost titems = tv.map_values(|t: TargetView| target_json(t));
    let ghost before_targets = out@;
    out.push('[');
    let n = targets.len();
    for i in 0..n
        invariant
            n == targets@.len(),
            tv == target_views(targets@),
            titems == tv.map_values(|t: TargetView| target_json(t)),
            out@ == before_targets + seq!['['] + comma_join(titems.take(i as int)),
    {
        proof {
            lemma_join_step(titems, i as int);
            assert(titems[i as int] == target_json(targets@[i as int]@));
        }
        if i > 0 {
            out.push(',');
        }
        push_target_json(&mut out, &targets[i]);
        proof {
            assert(out@ =~= before_targets + seq!['['] + comma_join(titems.take(i + 1)));
        }
    }
    out.push(']');
    proof {
        assert(titems.take(n as int) =~= titems);
        assert(out@ =~= before_targets + json_list(titems));
    }
    push_str(&mut out, ",\"stages\":");
    let ghost sv = stage_views(stages@);
    let ghost sitems = sv.map_values(|s: StageView| stage_json(s));
    let ghost before_stages = out@;
    out.push('[');
    let m = stages.len();
    for i in 0..m
        invariant
            m == stages@.len(),
            sv == stage_views(stages@),
            sitems == sv.map_values(|s: StageView| stage_json(s)),
            out@ == before_stages + seq!['['] + comma_join(sitems.take(i as int)),
    {
        proof {
            lemma_join_step(sitems, i as int);
            assert(sitems[i as int] == stage_json(stages@[i as int]@));
        }
        if i > 0 {
            out.push(',');
        }
        push_stage_json(&mut out, &stages[i]);
        proof {
            assert(out@ =~= before_stages + seq!['['] + comma_join(sitems.take(i + 1)));
        }
    }
    out.push(']');
    push_str(&mut out, "}");
    proof {
        assert(sitems.take(m as int) =~= sitems);
        assert(out@ =~= graph_json(production, policy, tv, sv));
    }
    out
}

} // verus!
