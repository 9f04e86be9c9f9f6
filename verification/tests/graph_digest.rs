use runory_agent::fleet_digest::graph_json_text;
use runory_agent::fleet_run::{
    FleetExecutionStrategyV2, FleetFailurePolicyV2, FleetRunDraft, FleetRunV2, FleetStage, FleetStageDraft,
    FleetStageStateV2,
};
use runory_agent::fleet_target::FleetTargetBinding;
use serde::ser::{Serialize, SerializeStruct, Serializer};

/// A fresh random identifier.
fn new_id() -> u128 {
    uuid::Uuid::new_v4().as_u128()
}

fn uuid(id: u128) -> uuid::Uuid {
    uuid::Uuid::from_u128(id)
}

fn strategy_name(s: FleetExecutionStrategyV2) -> &'static str {
    match s {
        FleetExecutionStrategyV2::Sequential => "sequential",
        FleetExecutionStrategyV2::Canary => "canary",
        FleetExecutionStrategyV2::RollingBatch => "rolling_batch",
        FleetExecutionStrategyV2::Parallel => "parallel",
    }
}

fn state_name(s: FleetStageStateV2) -> &'static str {
    match s {
        FleetStageStateV2::Pending => "pending",
        FleetStageStateV2::Ready => "ready",
        FleetStageStateV2::Running => "running",
        FleetStageStateV2::AwaitingApproval => "awaiting_approval",
        FleetStageStateV2::Verifying => "verifying",
        FleetStageStateV2::Succeeded => "succeeded",
        FleetStageStateV2::Failed => "failed",
        FleetStageStateV2::Blocked => "blocked",
        FleetStageStateV2::Cancelled => "cancelled",
        FleetStageStateV2::RollbackPending => "rollback_pending",
        FleetStageStateV2::RolledBack => "rolled_back",
        FleetStageStateV2::RollbackFailed => "rollback_failed",
    }
}

/// The graph's wire form, serialized field by field as the runtime's
/// `serde` derive writes it (camelCase fields, snake_case enum names).
struct Target<'a>(&'a FleetTargetBinding);
struct Stage<'a>(&'a FleetStage);
struct Graph<'a> {
    production: bool,
    policy: &'static str,
    targets: Vec<Target<'a>>,
    stages: Vec<Stage<'a>>,
}

impl Serialize for Target<'_> {
    fn serialize<S: Serializer>(&self, s: S) -> Result<S::Ok, S::Error> {
        let mut st = s.serialize_struct("FleetTargetBinding", 4)?;
        st.serialize_field("profileId", &uuid(self.0.profile_id))?;
        st.serialize_field("sessionId", &uuid(self.0.session_id))?;
        st.serialize_field("role", &self.0.role)?;
        st.serialize_field("ordinal", &self.0.ordinal)?;
        st.end()
    }
}

impl Serialize for Stage<'_> {
    fn serialize<S: Serializer>(&self, s: S) -> Result<S::Ok, S::Error> {
        let stage = self.0;
        let mut st = s.serialize_struct("FleetStage", 7)?;
        st.serialize_field("id", &uuid(stage.id))?;
        st.serialize_field("summary", &stage.summary)?;
        st.serialize_field("targetIds", &stage.target_ids.iter().map(|i| uuid(*i)).collect::<Vec<_>>())?;
        st.serialize_field("dependsOn", &stage.depends_on.iter().map(|i| uuid(*i)).collect::<Vec<_>>())?;
        st.serialize_field("executionStrategy", strategy_name(stage.execution_strategy))?;
        st.serialize_field("concurrencyLimit", &stage.concurrency_limit)?;
        st.serialize_field("state", state_name(stage.state))?;
        st.end()
    }
}

impl Serialize for Graph<'_> {
    fn serialize<S: Serializer>(&self, s: S) -> Result<S::Ok, S::Error> {
        let mut st = s.serialize_struct("GraphDigestInput", 4)?;
        st.serialize_field("production", &self.production)?;
        st.serialize_field("failurePolicy", self.policy)?;
        st.serialize_field("targets", &self.targets)?;
        st.serialize_field("stages", &self.stages)?;
        st.end()
    }
}

#[test]
fn the_graph_text_and_digest_match_what_serde_json_writes() {
    let targets = vec![
        FleetTargetBinding { profile_id: new_id(), session_id: new_id(), role: Some("source".into()), ordinal: 0 },
        FleetTargetBinding { profile_id: new_id(), session_id: new_id(), role: Some("replica".into()), ordinal: 1 },
    ];
    let prepare = new_id();
    let verify = new_id();
    let run = FleetRunV2::draft(
        FleetRunDraft {
            production: true,
            failure_policy: FleetFailurePolicyV2::PauseForReview,
            targets: targets.clone(),
            stages: vec![
                FleetStageDraft {
                    id: prepare,
                    summary: "Prepare \"source\" \\ now".into(),
                    target_ids: vec![targets[0].profile_id],
                    depends_on: vec![],
                    execution_strategy: FleetExecutionStrategyV2::Sequential,
                    concurrency_limit: 1,
                },
                FleetStageDraft {
                    id: verify,
                    summary: "Join replica".into(),
                    target_ids: vec![targets[1].profile_id],
                    depends_on: vec![prepare],
                    execution_strategy: FleetExecutionStrategyV2::Sequential,
                    concurrency_limit: 1,
                },
            ],
        },
        100,
    )
    .expect("draft");

    let graph = Graph {
        production: true,
        policy: "pause_for_review",
        targets: run.targets.iter().map(Target).collect(),
        stages: run.stages.iter().map(Stage).collect(),
    };
    let expected = serde_json::to_string(&graph).expect("serialize");
    let text: String = graph_json_text(true, FleetFailurePolicyV2::PauseForReview, &run.targets, &run.stages)
        .into_iter()
        .collect();
    assert_eq!(text, expected);

    let digest = ring::digest::digest(&ring::digest::SHA256, expected.as_bytes());
    let hex: String = digest.as_ref().iter().map(|b| format!("{b:02x}")).collect();
    assert_eq!(run.graph_digest, hex);
    assert_eq!(run.graph_digest.len(), 64);
}
