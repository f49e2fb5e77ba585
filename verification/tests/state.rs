use crucible::error::CrucibleError;
use crucible::state::JobPhase;

#[test]
fn valid_spark_lifecycle() {
    assert!(JobPhase::Submitted.validate_transition(&JobPhase::Running).is_ok());
    assert!(JobPhase::Running.validate_transition(&JobPhase::Completed).is_ok());
}

#[test]
fn valid_kill_from_any_active() {
    assert!(JobPhase::Submitted.validate_transition(&JobPhase::Killed).is_ok());
    assert!(JobPhase::Running.validate_transition(&JobPhase::Killed).is_ok());
}

#[test]
fn invalid_transition_from_terminal() {
    assert!(JobPhase::Completed.validate_transition(&JobPhase::Running).is_err());
    assert!(JobPhase::Failed.validate_transition(&JobPhase::Submitted).is_err());
    assert!(JobPhase::Killed.validate_transition(&JobPhase::Running).is_err());
}

#[test]
fn flink_suspend_resume() {
    assert!(JobPhase::Running.validate_transition(&JobPhase::Suspended).is_ok());
    assert!(JobPhase::Suspended.validate_transition(&JobPhase::Running).is_ok());
}

#[test]
fn cannot_go_backwards() {
    assert!(JobPhase::Running.validate_transition(&JobPhase::Submitted).is_err());
}

const ALL: [JobPhase; 7] = [
    JobPhase::Submitted,
    JobPhase::Running,
    JobPhase::Completed,
    JobPhase::Failed,
    JobPhase::Killed,
    JobPhase::Suspended,
    JobPhase::Cancelled,
];

#[test]
fn terminal_phases_refuse_every_transition() {
    for p in ALL {
        if p.is_terminal() {
            for q in ALL {
                assert!(p.validate_transition(&q).is_err());
            }
        }
    }
}

#[test]
fn terminal_phases_are_exactly_the_final_ones() {
    let terminal: Vec<JobPhase> = ALL.iter().copied().filter(|p| p.is_terminal()).collect();
    assert_eq!(
        terminal,
        vec![JobPhase::Completed, JobPhase::Failed, JobPhase::Killed, JobPhase::Cancelled]
    );
}

#[test]
fn no_phase_leads_back_to_submitted_or_to_itself() {
    for p in ALL {
        assert!(p.validate_transition(&JobPhase::Submitted).is_err());
        assert!(p.validate_transition(&p).is_err());
    }
}

#[test]
fn suspended_job_cannot_be_killed_or_completed() {
    assert!(JobPhase::Suspended.validate_transition(&JobPhase::Killed).is_err());
    assert!(JobPhase::Suspended.validate_transition(&JobPhase::Completed).is_err());
    assert!(JobPhase::Suspended.validate_transition(&JobPhase::Cancelled).is_ok());
    assert!(JobPhase::Submitted.validate_transition(&JobPhase::Completed).is_err());
}

#[test]
fn refused_transition_names_both_phases() {
    match JobPhase::Completed.validate_transition(&JobPhase::Running) {
        Err(CrucibleError::InvalidTransition { from, to }) => {
            assert_eq!(from, "COMPLETED");
            assert_eq!(to, "RUNNING");
        }
        other => panic!("unexpected result {other:?}"),
    }
    let err = JobPhase::Killed.validate_transition(&JobPhase::Running).unwrap_err();
    assert_eq!(err.message(), "invalid state transition from KILLED to RUNNING");
}

#[test]
fn phases_display_in_upper_case() {
    let names: Vec<String> = ALL.iter().map(|p| p.to_display_string()).collect();
    assert_eq!(
        names,
        vec!["SUBMITTED", "RUNNING", "COMPLETED", "FAILED", "KILLED", "SUSPENDED", "CANCELLED"]
    );
}

#[test]
fn validation_error_message() {
    let e = CrucibleError::Validation("tenant is required".to_string());
    assert_eq!(e.message(), "validation error: tenant is required");
}

#[test]
fn serialization_error_message_has_prefix() {
    let inner = serde_json::from_str::<u32>("not json").unwrap_err();
    let text = inner.to_string();
    let e = CrucibleError::Serialization(inner);
    assert_eq!(e.message(), format!("serialization error: {text}"));
}

#[test]
fn kubernetes_error_message_has_prefix() {
    let inner = kube::Error::Api(Box::new(kube::error::Status::failure("pods \"x\" not found", "NotFound")));
    let text = inner.to_string();
    let e: CrucibleError = inner.into();
    assert!(matches!(e, CrucibleError::Kube(_)));
    assert_eq!(e.message(), format!("kubernetes error: {text}"));
    let parsed: CrucibleError = serde_json::from_str::<u32>("x").unwrap_err().into();
    assert!(matches!(parsed, CrucibleError::Serialization(_)));
}
