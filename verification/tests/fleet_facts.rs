use runory_agent::facts::{FactProvenance, WorkingFact, WorkingFactSet, DEFAULT_FACT_TTL_MS};
use runory_agent::fleet_facts::{
    FleetComparisonKind, FleetComparisonStatus, FleetFactError, FleetFactSet,
    MAX_FLEET_FACTS_PER_TARGET,
};
use runory_agent::fleet_target::FleetTargetBinding;

/// A fresh random identifier.
fn new_id() -> u128 {
    uuid::Uuid::new_v4().as_u128()
}

fn targets() -> Vec<FleetTargetBinding> {
    vec![
        FleetTargetBinding {
            profile_id: new_id(),
            session_id: new_id(),
            role: Some("source".into()),
            ordinal: 0,
        },
        FleetTargetBinding {
            profile_id: new_id(),
            session_id: new_id(),
            role: Some("replica".into()),
            ordinal: 1,
        },
    ]
}

fn fact(target_id: u128, key: &str, value: &str, now: u64) -> WorkingFact {
    WorkingFact {
        id: new_id(),
        key: key.into(),
        value: value.into(),
        source_event_seq: Some(1),
        source_tool: Some("system.info".into()),
        tool_call_id: Some(new_id()),
        target_id: Some(target_id),
        observed_at_epoch_ms: now,
        ttl_ms: DEFAULT_FACT_TTL_MS,
        provenance: FactProvenance::ToolObservation,
    }
}

fn set(facts: Vec<WorkingFact>) -> WorkingFactSet {
    let mut set = WorkingFactSet::new();
    set.upsert_many(facts);
    set
}

/// Merges facts that are all fresh and carry no secret.
fn merge_fresh(
    fleet: &mut FleetFactSet,
    target: u128,
    source: &WorkingFactSet,
) -> Result<usize, FleetFactError> {
    let fresh = vec![true; source.len()];
    let redacted: Vec<String> = source.all().iter().map(|f| f.value.clone()).collect();
    fleet.merge(target, source, &fresh, &redacted)
}

#[test]
fn aggregates_exact_target_facts_and_compares_values() {
    let targets = targets();
    let mut fleet = FleetFactSet::new(targets.clone());
    merge_fresh(
        &mut fleet,
        targets[0].profile_id,
        &set(vec![
            fact(targets[0].profile_id, "kernel", "6.8", 100),
            fact(targets[0].profile_id, "service.mysql.status", "active", 100),
            fact(targets[0].profile_id, "mysql.config_digest", "aaa", 100),
        ]),
    )
    .expect("source facts");
    merge_fresh(
        &mut fleet,
        targets[1].profile_id,
        &set(vec![
            fact(targets[1].profile_id, "kernel", "6.8", 100),
            fact(targets[1].profile_id, "service.mysql.status", "inactive", 100),
            fact(targets[1].profile_id, "mysql.config_digest", "bbb", 100),
        ]),
    )
    .expect("replica facts");

    let view = fleet.view(102);
    assert_eq!(view.facts.len(), 6);
    assert!(view
        .comparisons
        .iter()
        .any(|item| { item.key == "kernel" && item.status == FleetComparisonStatus::Uniform }));
    assert!(view.comparisons.iter().any(|item| {
        item.key == "service.mysql.status" && item.status == FleetComparisonStatus::Divergent
    }));
    assert!(view.comparisons.iter().any(|item| {
        item.key == "mysql.config_digest" && item.kind == FleetComparisonKind::ConfigurationDigest
    }));
}

#[test]
fn rejects_targetless_user_and_cross_target_facts() {
    let targets = targets();
    let mut fleet = FleetFactSet::new(targets.clone());
    let mut user = fact(targets[0].profile_id, "kernel", "6.8", 100);
    user.provenance = FactProvenance::UserInput;
    assert_eq!(
        merge_fresh(&mut fleet, targets[0].profile_id, &set(vec![user])),
        Err(FleetFactError::EvidenceRequired)
    );
    assert_eq!(
        merge_fresh(
            &mut fleet,
            targets[0].profile_id,
            &set(vec![fact(targets[1].profile_id, "kernel", "6.8", 100)]),
        ),
        Err(FleetFactError::TargetMismatch)
    );
    assert!(fleet.view(101).facts.is_empty());
}

#[test]
fn stale_facts_are_not_exposed_and_missing_is_explicit() {
    let targets = targets();
    let mut fleet = FleetFactSet::new(targets.clone());
    merge_fresh(
        &mut fleet,
        targets[0].profile_id,
        &set(vec![fact(targets[0].profile_id, "kernel", "6.8", 100)]),
    )
    .expect("facts");
    let partial = fleet.view(102);
    assert!(partial
        .comparisons
        .iter()
        .any(|item| { item.key == "kernel" && item.status == FleetComparisonStatus::Missing }));
    let expired = fleet.view(100 + DEFAULT_FACT_TTL_MS);
    assert!(expired.facts.is_empty());
}

#[test]
fn unknown_targets_and_stale_inputs_are_handled_before_merging() {
    let targets = targets();
    let mut fleet = FleetFactSet::new(targets.clone());
    let outsider = new_id();
    assert_eq!(
        merge_fresh(&mut fleet, outsider, &set(vec![])),
        Err(FleetFactError::TargetMismatch)
    );
    // A stale fact is skipped, even one that would be refused.
    let mut user = fact(targets[0].profile_id, "kernel", "6.8", 100);
    user.provenance = FactProvenance::UserInput;
    let source = set(vec![user]);
    assert_eq!(
        fleet.merge(targets[0].profile_id, &source, &[false], &["6.8".to_string()]),
        Ok(0)
    );
    assert!(fleet.view(101).facts.is_empty());
}

#[test]
fn view_orders_facts_and_comparisons_and_redacts_values() {
    let targets = targets();
    let (a, b) = if targets[0].profile_id < targets[1].profile_id {
        (targets[0].profile_id, targets[1].profile_id)
    } else {
        (targets[1].profile_id, targets[0].profile_id)
    };
    let mut fleet = FleetFactSet::new(targets.clone());
    let source_b = set(vec![
        fact(b, "service.nginx.status", "active", 100),
        fact(b, "kernel", "6.8", 100),
    ]);
    assert_eq!(
        fleet.merge(b, &source_b, &[true, true], &["active".into(), "[REDACTED]".into()]),
        Ok(2)
    );
    let source_a = set(vec![fact(a, "os", "Ubuntu", 100), fact(a, "uptime", "5d", 100)]);
    assert_eq!(merge_fresh(&mut fleet, a, &source_a), Ok(2));

    let view = fleet.view(101);
    let keys: Vec<(u128, &str)> = view.facts.iter().map(|f| (f.target_id, f.key.as_str())).collect();
    assert_eq!(
        keys,
        vec![(a, "os"), (a, "uptime"), (b, "kernel"), (b, "service.nginx.status")]
    );
    assert_eq!(view.facts[2].value, "[REDACTED]");
    assert_eq!(view.facts[0].expires_at_epoch_ms, 100 + DEFAULT_FACT_TTL_MS);
    let compared: Vec<&str> = view.comparisons.iter().map(|c| c.key.as_str()).collect();
    assert_eq!(compared, vec!["fleet.role", "kernel", "os", "service.nginx.status"]);
    assert_eq!(view.comparisons[0].kind, FleetComparisonKind::Role);
    assert_eq!(view.comparisons[0].status, FleetComparisonStatus::Divergent);
    assert_eq!(view.comparisons[1].status, FleetComparisonStatus::Missing);
}

#[test]
fn later_facts_of_a_slot_win_and_values_are_bounded() {
    let targets = targets();
    let t = targets[0].profile_id;
    let mut fleet = FleetFactSet::new(targets.clone());
    let long = "x".repeat(600);
    let mut first = fact(t, "kernel", "6.1", 100);
    first.id = 1;
    let mut second = fact(t, "kernel", "6.8", 100);
    second.id = 2;
    let mut facts = WorkingFactSet::new();
    facts.upsert_many(vec![first]);
    assert_eq!(merge_fresh(&mut fleet, t, &facts), Ok(1));
    let mut facts = WorkingFactSet::new();
    facts.upsert_many(vec![second]);
    assert_eq!(fleet.merge(t, &facts, &[true], &[long.clone()]), Ok(1));
    let view = fleet.view(101);
    assert_eq!(view.facts.len(), 1);
    assert_eq!(view.facts[0].value.chars().count(), 512);
}

#[test]
fn a_target_cannot_hold_more_than_its_share_of_facts() {
    let targets = targets();
    let t = targets[0].profile_id;
    let mut fleet = FleetFactSet::new(targets.clone());
    let facts: Vec<WorkingFact> = (0..=MAX_FLEET_FACTS_PER_TARGET)
        .map(|i| fact(t, &format!("k{i}"), "v", 100))
        .collect();
    let source = set(facts);
    assert_eq!(merge_fresh(&mut fleet, t, &source), Err(FleetFactError::LimitExceeded));
    assert!(fleet.view(101).facts.is_empty());
}
