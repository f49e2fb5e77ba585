//! How the platform reconciler turns the outcomes of its sub-reconcilers
//! into status conditions, an overall phase and a requeue interval.

use vstd::prelude::*;

use crate::clock::{now_rfc3339, utc_offset_suffix};
use crate::platform::{
    ConditionStatus, ConditionType, CruciblePlatformStatus, PlatformCondition, PlatformPhase,
};

verus! {

/// The condition status that a sub-reconciler outcome reports.
pub open spec fn outcome_status(outcome: Result<(), String>) -> ConditionStatus {
    match outcome {
        Ok(()) => ConditionStatus::True,
        Err(_) => ConditionStatus::False,
    }
}

/// The condition message that a sub-reconciler outcome reports.
pub open spec fn outcome_message(outcome: Result<(), String>) -> Option<Seq<char>> {
    match outcome {
        Ok(()) => None,
        Err(e) => Some(e@),
    }
}

/// The view of an optional string.
pub open spec fn opt_view(s: Option<String>) -> Option<Seq<char>> {
    match s {
        Some(x) => Some(x@),
        None => None,
    }
}

/// Whether condition `c` reports outcome `outcome` for component `t`.
pub open spec fn reports(c: PlatformCondition, t: ConditionType, outcome: Result<(), String>) -> bool {
    &&& c.condition_type == t
    &&& c.status == outcome_status(outcome)
    &&& opt_view(c.message) == outcome_message(outcome)
}

/// The condition for one sub-reconciler outcome, stamped with `now`.
pub fn condition_at(condition_type: ConditionType, result: &Result<(), String>, now: String) -> (c: PlatformCondition)
    ensures
        reports(c, condition_type, *result),
        opt_view(c.last_transition_time) == Some(now@),
{
    match result {
        Ok(()) => PlatformCondition {
            condition_type,
            status: ConditionStatus::True,
            message: None,
            last_transition_time: Some(now),
        },
        Err(e) => PlatformCondition {
            condition_type,
            status: ConditionStatus::False,
            message: Some(e.clone()),
            last_transition_time: Some(now),
        },
    }
}

/// The condition for one sub-reconciler outcome, stamped with the current
/// time in UTC.
pub fn result_to_condition(condition_type: ConditionType, result: &Result<(), String>) -> (c: PlatformCondition)
    ensures
        reports(c, condition_type, *result),
        opt_view(c.last_transition_time) matches Some(t) && utc_offset_suffix(t),
{
    condition_at(condition_type, result, now_rfc3339())
}

/// The overall phase for a list of condition statuses: ready when all are
/// true, degraded when one is false, deploying otherwise.
pub open spec fn phase_of(statuses: Seq<ConditionStatus>) -> PlatformPhase {
    if forall|i: int| 0 <= i < statuses.len() ==> #[trigger] statuses[i] == ConditionStatus::True {
        PlatformPhase::Ready
    } else if exists|i: int| 0 <= i < statuses.len() && #[trigger] statuses[i] == ConditionStatus::False {
        PlatformPhase::Degraded
    } else {
        PlatformPhase::Deploying
    }
}

/// The statuses of a list of conditions.
pub open spec fn statuses(conditions: Seq<PlatformCondition>) -> Seq<ConditionStatus> {
    conditions.map_values(|c: PlatformCondition| c.status)
}

/// Determines the overall platform phase from its conditions.
pub fn compute_phase(conditions: &Vec<PlatformCondition>) -> (p: PlatformPhase)
    ensures
        p == phase_of(statuses(conditions@)),
{
    let n = conditions.len();
    let ghost st = statuses(conditions@);
    let mut all_ready = true;
    let mut any_failed = false;
    for i in 0..n
        invariant
            n == conditions@.len(),
            st == statuses(conditions@),
            all_ready <==> (forall|j: int| 0 <= j < i ==> #[trigger] st[j] == ConditionStatus::True),
            any_failed <==> (exists|j: int| 0 <= j < i && #[trigger] st[j] == ConditionStatus::False),
    {
        let s = conditions[i].status;
        assert(st[i as int] == s);
        match s {
            ConditionStatus::True => {},
            ConditionStatus::False => {
                all_ready = false;
                any_failed = true;
            },
            ConditionStatus::Unknown => {
                all_ready = false;
            },
        }
    }
    if all_ready {
        PlatformPhase::Ready
    } else if any_failed {
        PlatformPhase::Degraded
    } else {
        PlatformPhase::Deploying
    }
}

/// Whether the platform status reports the ready phase.
pub fn status_all_ready(status: &CruciblePlatformStatus) -> (b: bool)
    ensures
        b == (status.phase == Some(PlatformPhase::Ready)),
{
    match status.phase {
        Some(PlatformPhase::Ready) => true,
        _ => false,
    }
}

/// What the four sub-reconcilers reported in one reconcile pass.
pub struct SubReconcileOutcomes {
    pub celeborn: Result<(), String>,
    pub volcano: Result<(), String>,
    pub history_server: Result<(), String>,
    pub flink_operator: Result<(), String>,
}

/// Whether every sub-reconciler succeeded.
pub open spec fn all_succeeded(o: SubReconcileOutcomes) -> bool {
    o.celeborn is Ok && o.volcano is Ok && o.history_server is Ok && o.flink_operator is Ok
}

/// The platform status for one reconcile pass: one condition per
/// sub-reconciler, in a fixed order, and the phase they give.
pub fn platform_status(outcomes: &SubReconcileOutcomes) -> (s: CruciblePlatformStatus)
    ensures
        s.conditions@.len() == 4,
        reports(s.conditions@[0], ConditionType::CelebornReady, outcomes.celeborn),
        reports(s.conditions@[1], ConditionType::VolcanoReady, outcomes.volcano),
        reports(s.conditions@[2], ConditionType::HistoryServerReady, outcomes.history_server),
        reports(s.conditions@[3], ConditionType::FlinkOperatorReady, outcomes.flink_operator),
        forall|i: int| 0 <= i < 4 ==> (opt_view((#[trigger] s.conditions@[i]).last_transition_time) matches Some(t)
            && utc_offset_suffix(t)),
        s.phase == Some(
            if all_succeeded(*outcomes) { PlatformPhase::Ready } else { PlatformPhase::Degraded },
        ),
{
    let mut conditions = Vec::new();
    conditions.push(result_to_condition(ConditionType::CelebornReady, &outcomes.celeborn));
    conditions.push(result_to_condition(ConditionType::VolcanoReady, &outcomes.volcano));
    conditions.push(result_to_condition(ConditionType::HistoryServerReady, &outcomes.history_server));
    conditions.push(result_to_condition(ConditionType::FlinkOperatorReady, &outcomes.flink_operator));
    let phase = compute_phase(&conditions);
    proof {
        let st = statuses(conditions@);
        assert(st[0] == outcome_status(outcomes.celeborn));
        assert(st[1] == outcome_status(outcomes.volcano));
        assert(st[2] == outcome_status(outcomes.history_server));
        assert(st[3] == outcome_status(outcomes.flink_operator));
        if !all_succeeded(*outcomes) {
            if outcomes.celeborn is Err { assert(st[0] == ConditionStatus::False); }
            if outcomes.volcano is Err { assert(st[1] == ConditionStatus::False); }
            if outcomes.history_server is Err { assert(st[2] == ConditionStatus::False); }
            if outcomes.flink_operator is Err { assert(st[3] == ConditionStatus::False); }
        }
    }
    CruciblePlatformStatus { phase: Some(phase), conditions }
}

/// Seconds until the next reconcile: slower once the platform is ready.
pub open spec fn requeue_secs_spec(status: CruciblePlatformStatus) -> u64 {
    if status.phase == Some(PlatformPhase::Ready) { 60 } else { 10 }
}

/// Seconds until the next reconcile of a platform with this status.
pub fn requeue_after_secs(status: &CruciblePlatformStatus) -> (s: u64)
    ensures
        s == requeue_secs_spec(*status),
{
    if status_all_ready(status) { 60 } else { 10 }
}

/// Seconds until a reconcile that failed is retried.
pub fn error_requeue_secs() -> (s: u64)
    ensures
        s == 30,
{
    30
}

/// Sub-reconciler isolation: a component's condition depends on its own
/// outcome alone, so a failing Flink Operator (or any other component)
/// leaves the conditions of the others as they would be otherwise.
pub proof fn lemma_sub_reconciler_isolation(
    a: SubReconcileOutcomes,
    b: SubReconcileOutcomes,
    sa: CruciblePlatformStatus,
    sb: CruciblePlatformStatus,
)
    requires
        sa.conditions@.len() == 4,
        sb.conditions@.len() == 4,
        reports(sa.conditions@[0], ConditionType::CelebornReady, a.celeborn),
        reports(sa.conditions@[1], ConditionType::VolcanoReady, a.volcano),
        reports(sa.conditions@[2], ConditionType::HistoryServerReady, a.history_server),
        reports(sa.conditions@[3], ConditionType::FlinkOperatorReady, a.flink_operator),
        reports(sb.conditions@[0], ConditionType::CelebornReady, b.celeborn),
        reports(sb.conditions@[1], ConditionType::VolcanoReady, b.volcano),
        reports(sb.conditions@[2], ConditionType::HistoryServerReady, b.history_server),
        reports(sb.conditions@[3], ConditionType::FlinkOperatorReady, b.flink_operator),
        a.celeborn == b.celeborn,
        a.volcano == b.volcano,
        a.history_server == b.history_server,
    ensures
        forall|i: int| 0 <= i < 3 ==> {
            &&& (#[trigger] sa.conditions@[i]).status == sb.conditions@[i].status
            &&& opt_view(sa.conditions@[i].message) == opt_view(sb.conditions@[i].message)
        },
{
}

/// The phase is ready exactly when no condition is false and none is
/// unknown; one false condition makes the platform degraded.
pub proof fn lemma_phase_of(statuses: Seq<ConditionStatus>)
    ensures
        phase_of(statuses) == PlatformPhase::Ready <==> forall|i: int| 0 <= i < statuses.len() ==> #[trigger] statuses[i] == ConditionStatus::True,
        (exists|i: int| 0 <= i < statuses.len() && #[trigger] statuses[i] == ConditionStatus::False)
            ==> phase_of(statuses) == PlatformPhase::Degraded,
{
}

} // verus!
