//! Content-free observability counters for one run. Counters saturate
//! instead of overflowing; first-occurrence latencies are recorded once.
use vstd::prelude::*;

verus! {

/// Observability snapshot for one run.
#[derive(Clone, Copy, Debug, PartialEq, Eq, Structural)]
pub struct RunMetrics {
    pub run_id: u128,
    pub reasoner_rounds: u32,
    pub model_calls: u32,
    pub tool_calls: u32,
    pub auto_authorized_tools: u32,
    pub approval_interrupts: u32,
    pub rejections: u32,
    pub tool_failures: u32,
    pub recovery_attempts: u32,
    pub context_tokens: u32,
    pub artifact_bytes: u64,
    pub time_to_first_observation_ms: Option<u64>,
    pub time_to_diagnosis_ms: Option<u64>,
    pub time_to_resolution_ms: Option<u64>,
    pub verification_result: Option<bool>,
    pub rollback_result: Option<bool>,
}

/// One more, saturating at `u32::MAX`.
pub open spec fn bump(n: u32) -> u32 {
    if n == u32::MAX { u32::MAX } else { (n + 1) as u32 }
}

/// `a + b`, saturating at `u64::MAX`.
pub open spec fn add_saturating(a: u64, b: u64) -> u64 {
    if a + b > u64::MAX { u64::MAX } else { (a + b) as u64 }
}

/// The metrics after a successful observation `elapsed_ms` into the loop:
/// only the first one sets the time to first observation.
pub open spec fn observed(m: RunMetrics, elapsed_ms: u64) -> RunMetrics {
    RunMetrics {
        time_to_first_observation_ms: if m.time_to_first_observation_ms is None {
            Some(elapsed_ms)
        } else {
            m.time_to_first_observation_ms
        },
        ..m
    }
}

/// The metrics after a failed tool call or command: one more failure and
/// one more recovery attempt.
pub open spec fn failed(m: RunMetrics) -> RunMetrics {
    RunMetrics { tool_failures: bump(m.tool_failures), recovery_attempts: bump(m.recovery_attempts), ..m }
}

/// Every counter zero, every latency and result unset.
pub open spec fn empty_metrics(run_id: u128) -> RunMetrics {
    RunMetrics {
        run_id,
        reasoner_rounds: 0,
        model_calls: 0,
        tool_calls: 0,
        auto_authorized_tools: 0,
        approval_interrupts: 0,
        rejections: 0,
        tool_failures: 0,
        recovery_attempts: 0,
        context_tokens: 0,
        artifact_bytes: 0,
        time_to_first_observation_ms: None,
        time_to_diagnosis_ms: None,
        time_to_resolution_ms: None,
        verification_result: None,
        rollback_result: None,
    }
}

impl Default for RunMetrics {
    fn default() -> (r: RunMetrics)
        ensures
            r == empty_metrics(0),
    {
        RunMetrics::new(0)
    }
}

impl RunMetrics {
    pub fn new(run_id: u128) -> (r: RunMetrics)
        ensures
            r == empty_metrics(run_id),
    {
        RunMetrics {
            run_id,
            reasoner_rounds: 0,
            model_calls: 0,
            tool_calls: 0,
            auto_authorized_tools: 0,
            approval_interrupts: 0,
            rejections: 0,
            tool_failures: 0,
            recovery_attempts: 0,
            context_tokens: 0,
            artifact_bytes: 0,
            time_to_first_observation_ms: None,
            time_to_diagnosis_ms: None,
            time_to_resolution_ms: None,
            verification_result: None,
            rollback_result: None,
        }
    }

    /// One reasoning round is one model call; the context size kept is the
    /// largest seen.
    pub fn record_reasoner_round(&mut self, context_tokens: u32)
        ensures
            *final(self) == (RunMetrics {
                reasoner_rounds: bump(old(self).reasoner_rounds),
                model_calls: bump(old(self).model_calls),
                context_tokens: if context_tokens > old(self).context_tokens {
                    context_tokens
                } else {
                    old(self).context_tokens
                },
                ..*old(self)
            }),
    {
        self.reasoner_rounds = self.reasoner_rounds.saturating_add(1);
        self.model_calls = self.model_calls.saturating_add(1);
        if context_tokens > self.context_tokens {
            self.context_tokens = context_tokens;
        }
    }

    pub fn record_tool_call(&mut self, auto_authorized: bool)
        ensures
            *final(self) == (RunMetrics {
                tool_calls: bump(old(self).tool_calls),
                auto_authorized_tools: if auto_authorized {
                    bump(old(self).auto_authorized_tools)
                } else {
                    old(self).auto_authorized_tools
                },
                ..*old(self)
            }),
    {
        self.tool_calls = self.tool_calls.saturating_add(1);
        if auto_authorized {
            self.auto_authorized_tools = self.auto_authorized_tools.saturating_add(1);
        }
    }

    pub fn record_tool_failure(&mut self)
        ensures
            *final(self) == (RunMetrics { tool_failures: bump(old(self).tool_failures), ..*old(self) }),
    {
        self.tool_failures = self.tool_failures.saturating_add(1);
    }

    pub fn record_recovery_attempt(&mut self)
        ensures
            *final(self) == (RunMetrics {
                recovery_attempts: bump(old(self).recovery_attempts),
                ..*old(self)
            }),
    {
        self.recovery_attempts = self.recovery_attempts.saturating_add(1);
    }

    pub fn record_approval_interrupt(&mut self)
        ensures
            *final(self) == (RunMetrics {
                approval_interrupts: bump(old(self).approval_interrupts),
                ..*old(self)
            }),
    {
        self.approval_interrupts = self.approval_interrupts.saturating_add(1);
    }

    pub fn record_rejection(&mut self)
        ensures
            *final(self) == (RunMetrics { rejections: bump(old(self).rejections), ..*old(self) }),
    {
        self.rejections = self.rejections.saturating_add(1);
    }

    pub fn record_artifact_bytes(&mut self, bytes: u64)
        ensures
            *final(self) == (RunMetrics {
                artifact_bytes: add_saturating(old(self).artifact_bytes, bytes),
                ..*old(self)
            }),
    {
        self.artifact_bytes = self.artifact_bytes.saturating_add(bytes);
    }

    /// Only the first observation's latency is kept.
    pub fn maybe_record_first_observation(&mut self, elapsed_ms: u64)
        ensures
            *final(self) == (RunMetrics {
                time_to_first_observation_ms: if old(self).time_to_first_observation_ms is None {
                    Some(elapsed_ms)
                } else {
                    old(self).time_to_first_observation_ms
                },
                ..*old(self)
            }),
    {
        if self.time_to_first_observation_ms.is_none() {
            self.time_to_first_observation_ms = Some(elapsed_ms);
        }
    }

    /// Only the first diagnosis latency is kept.
    pub fn maybe_record_diagnosis(&mut self, elapsed_ms: u64)
        ensures
            *final(self) == (RunMetrics {
                time_to_diagnosis_ms: if old(self).time_to_diagnosis_ms is None {
                    Some(elapsed_ms)
                } else {
                    old(self).time_to_diagnosis_ms
                },
                ..*old(self)
            }),
    {
        if self.time_to_diagnosis_ms.is_none() {
            self.time_to_diagnosis_ms = Some(elapsed_ms);
        }
    }

    pub fn record_resolution(&mut self, elapsed_ms: u64)
        ensures
            *final(self) == (RunMetrics { time_to_resolution_ms: Some(elapsed_ms), ..*old(self) }),
    {
        self.time_to_resolution_ms = Some(elapsed_ms);
    }

    pub fn record_verification(&mut self, success: bool)
        ensures
            *final(self) == (RunMetrics { verification_result: Some(success), ..*old(self) }),
    {
        self.verification_result = Some(success);
    }

    pub fn record_rollback(&mut self, success: bool)
        ensures
            *final(self) == (RunMetrics { rollback_result: Some(success), ..*old(self) }),
    {
        self.rollback_result = Some(success);
    }
}

/// Counters never decrease: one increment is never below where it started.
pub proof fn lemma_counters_never_decrease(n: u32, a: u64, b: u64)
    ensures
        bump(n) >= n,
        add_saturating(a, b) >= a,
        n < u32::MAX ==> bump(n) == n + 1,
{
}

} // verus!
