use crucible::objects::OwnerReference;
use crucible::spark::{CrucibleSparkJobSpec, CrucibleSparkJobStatus, ResourceSpec};
use crucible::spark_job::{
    build_driver_pod, build_spark_config, classify_pod_phase, current_phase, driver_rbac,
    driver_sa_name, enrich_error, executor_label_selector, executor_pod_names, failed_status,
    finalizers_after_cleanup, has_cleanup_finalizer, is_finished, job_labels, mark_submitted,
    object_key, observe_running, observe_submitted, owner_ref, pod_error_message, podgroup_intent,
    requeue_after_status, select_platform_name, PodPhase, RequeueAction, RunningObservation,
    spark_entry_step, deletion_status, podgroup_annotations, reconcile_step, running_driver,
    submitted_driver_to_check, PassAction, PassEvent, SparkEntryStep, SubmittedObservation,
};
use crucible::state::JobPhase;
use crucible::string_map::StringMap;

fn test_owner_ref() -> OwnerReference {
    OwnerReference {
        api_version: "crucible.dev/v1".to_string(),
        kind: "CrucibleSparkJob".to_string(),
        name: "test-job".to_string(),
        uid: "test-uid-1234".to_string(),
        controller: Some(true),
        block_owner_deletion: Some(true),
    }
}

fn sample_spec() -> CrucibleSparkJobSpec {
    CrucibleSparkJobSpec {
        jar: "s3://bucket/app.jar".to_string(),
        class: "com.example.SparkPi".to_string(),
        args: vec!["100".to_string()],
        tenant: "team-a".to_string(),
        executors: Some(4),
        driver_resources: Some(ResourceSpec {
            cpu: Some("2".to_string()),
            memory: Some("4Gi".to_string()),
        }),
        executor_resources: Some(ResourceSpec {
            cpu: Some("4".to_string()),
            memory: Some("8Gi".to_string()),
        }),
        spark_config: StringMap::from_pairs(vec![(
            "spark.sql.adaptive.enabled".to_string(),
            "true".to_string(),
        )]),
        labels: StringMap::new(),
    }
}

const PULL: &str = "IfNotPresent";

#[test]
fn spark_config_includes_celeborn_settings() {
    let spec = sample_spec();
    let config = build_spark_config(&spec, "my-platform", "default", "test-job", PULL);

    assert_eq!(
        config.get("spark.shuffle.manager").unwrap(),
        "org.apache.celeborn.spark.CelebornShuffleManager"
    );
    assert_eq!(
        config.get("spark.celeborn.master.endpoints").unwrap(),
        "my-platform-celeborn-master.default.svc:9097"
    );
}

#[test]
fn spark_config_includes_event_log() {
    let spec = sample_spec();
    let config = build_spark_config(&spec, "platform", "ns", "test-job", PULL);

    assert_eq!(config.get("spark.eventLog.enabled").unwrap(), "true");
    assert!(config.get("spark.eventLog.dir").unwrap().contains("spark-events"));
}

#[test]
fn spark_config_includes_decommissioning() {
    let spec = sample_spec();
    let config = build_spark_config(&spec, "p", "ns", "test-job", PULL);

    assert_eq!(config.get("spark.decommission.enabled").unwrap(), "true");
}

#[test]
fn user_config_overrides_defaults() {
    let mut spec = sample_spec();
    spec.spark_config.insert("spark.eventLog.enabled".to_string(), "false".to_string());
    let config = build_spark_config(&spec, "p", "ns", "test-job", PULL);

    assert_eq!(config.get("spark.eventLog.enabled").unwrap(), "false");
}

#[test]
fn driver_pod_has_correct_labels() {
    let labels = job_labels("test-job", "driver");
    assert_eq!(labels.get("crucible.dev/job").unwrap(), "test-job");
    assert_eq!(labels.get("crucible.dev/role").unwrap(), "driver");
    assert_eq!(labels.get("app.kubernetes.io/managed-by").unwrap(), "crucible-operator");
}

#[test]
fn driver_pod_spec_contains_jar_and_class() {
    let spec = sample_spec();
    let config = build_spark_config(&spec, "p", "ns", "test-job", PULL);
    let pod = build_driver_pod("job1", "default", "job1-driver", &spec, &config, &test_owner_ref(), PULL);

    let container = &pod.containers[0];
    let args_str = container.args.join(" ");
    assert!(args_str.contains("--class com.example.SparkPi"));
    assert!(args_str.contains("s3://bucket/app.jar"));
    assert!(args_str.contains("100")); // user arg
}

#[test]
fn driver_pod_has_executor_config() {
    let spec = sample_spec();
    let config = build_spark_config(&spec, "p", "ns", "test-job", PULL);
    let pod = build_driver_pod("job1", "default", "job1-driver", &spec, &config, &test_owner_ref(), PULL);

    let args_str = pod.containers[0].args.join(" ");
    assert!(args_str.contains("spark.executor.instances=4"));
    assert!(args_str.contains("spark.executor.cores=4"));
    assert!(args_str.contains("spark.executor.memory=8Gi"));
}

#[test]
fn driver_pod_has_resource_requests() {
    let spec = sample_spec();
    let config = build_spark_config(&spec, "p", "ns", "test-job", PULL);
    let pod = build_driver_pod("job1", "default", "job1-driver", &spec, &config, &test_owner_ref(), PULL);

    let resources = &pod.containers[0].resources;
    assert_eq!(resources.cpu, "2");
    assert_eq!(resources.memory, "4Gi");
}

#[test]
fn default_resources_when_none_specified() {
    let mut spec = sample_spec();
    spec.driver_resources = None;
    spec.executor_resources = None;
    spec.executors = None;

    let config = build_spark_config(&spec, "p", "ns", "test-job", PULL);
    let pod = build_driver_pod("job1", "default", "job1-driver", &spec, &config, &test_owner_ref(), PULL);

    let resources = &pod.containers[0].resources;
    assert_eq!(resources.cpu, "1");
    assert_eq!(resources.memory, "1Gi");

    let args_str = pod.containers[0].args.join(" ");
    assert!(args_str.contains("spark.executor.instances=1"));
}

#[test]
fn driver_pod_restart_policy_is_never() {
    let spec = sample_spec();
    let config = build_spark_config(&spec, "p", "ns", "test-job", PULL);
    let pod = build_driver_pod("job1", "default", "job1-driver", &spec, &config, &test_owner_ref(), PULL);

    assert_eq!(pod.restart_policy, "Never");
}

#[test]
fn spark_config_holds_defaults_and_user_entries() {
    let spec = sample_spec();
    let config = build_spark_config(&spec, "p", "ns", "test-job", "Never");
    assert_eq!(config.len(), 12);
    assert_eq!(config.get("spark.kubernetes.container.image.pullPolicy").unwrap(), "Never");
    assert_eq!(
        config.get("spark.kubernetes.authenticate.driver.serviceAccountName").unwrap(),
        "test-job-driver"
    );
    assert_eq!(config.get("spark.sql.adaptive.enabled").unwrap(), "true");
    assert_eq!(config.get("spark.eventLog.dir").unwrap(), "s3a://crucible-data/spark-events");
    assert!(config.get("spark.missing").is_none());
}

#[test]
fn driver_command_line_is_exact() {
    let mut spec = sample_spec();
    spec.spark_config = StringMap::new();
    spec.args = vec!["10".to_string(), "20".to_string()];
    let mut config = StringMap::new();
    config.insert("b.key".to_string(), "2".to_string());
    config.insert("a.key".to_string(), "1".to_string());
    let pod = build_driver_pod("job1", "ns", "job1-driver", &spec, &config, &test_owner_ref(), PULL);
    let c = &pod.containers[0];
    assert_eq!(c.command, vec!["/bin/bash".to_string(), "-c".to_string()]);
    assert_eq!(c.args.len(), 1);
    assert_eq!(
        c.args[0],
        "/opt/spark/bin/spark-submit --master k8s://https://kubernetes.default.svc --deploy-mode client \
         --class com.example.SparkPi --driver-memory 4Gi --conf a.key=1 --conf b.key=2 \
         --conf spark.executor.instances=4 --conf spark.executor.cores=4 --conf spark.executor.memory=8Gi \
         --conf spark.kubernetes.namespace=ns --conf spark.kubernetes.executor.label.crucible.dev/job=job1 \
         --conf spark.kubernetes.executor.label.crucible.dev/role=executor s3://bucket/app.jar 10 20"
    );
    assert_eq!(c.name, "spark-driver");
    assert_eq!(c.image, "crucible-spark:latest");
    assert_eq!(c.image_pull_policy, PULL);
    assert_eq!(c.env.len(), 1);
    assert_eq!(c.env[0].name, "SPARK_HOME");
    assert_eq!(c.env[0].value.as_deref(), Some("/opt/spark"));
    assert_eq!(pod.name, "job1-driver");
    assert_eq!(pod.namespace, "ns");
    assert_eq!(pod.service_account_name, "job1-driver");
    assert_eq!(pod.labels.get("crucible.dev/role").unwrap(), "driver");
    assert_eq!(pod.owner_references.len(), 1);
    assert_eq!(pod.owner_references[0].uid, "test-uid-1234");
}

#[test]
fn names_and_selectors() {
    assert_eq!(driver_sa_name("spark-pi"), "spark-pi-driver");
    assert_eq!(
        executor_label_selector("spark-pi"),
        "crucible.dev/job=spark-pi,crucible.dev/role=executor"
    );
    let labels = job_labels("j", "executor");
    assert_eq!(labels.len(), 4);
    assert_eq!(labels.get("app.kubernetes.io/name").unwrap(), "crucible-spark-job");
}

#[test]
fn owner_reference_points_at_job() {
    let r = owner_ref(&Some("job".to_string()), &Some("uid-1".to_string()));
    assert_eq!(r.api_version, "crucible.dev/v1alpha1");
    assert_eq!(r.kind, "CrucibleSparkJob");
    assert_eq!(r.name, "job");
    assert_eq!(r.uid, "uid-1");
    assert_eq!(r.controller, Some(true));
    assert_eq!(r.block_owner_deletion, Some(true));
    let anonymous = owner_ref(&None, &None);
    assert_eq!(anonymous.name, "");
    assert_eq!(anonymous.uid, "");
}

#[test]
fn driver_rbac_grants_pod_control() {
    let r = driver_rbac("ns", "job", &test_owner_ref());
    assert_eq!(r.namespace, "ns");
    assert_eq!(r.service_account_name, "job-driver");
    assert_eq!(r.role_name, "job-spark-role");
    assert_eq!(r.binding_name, "job-spark-binding");
    assert_eq!(r.labels.get("crucible.dev/role").unwrap(), "driver-rbac");
    assert_eq!(r.rule.api_groups, vec!["".to_string()]);
    assert_eq!(r.rule.resources, vec!["pods", "services", "configmaps"]);
    assert_eq!(r.rule.verbs, vec!["get", "list", "watch", "create", "update", "patch", "delete"]);
    assert_eq!(r.role_ref_api_group, "rbac.authorization.k8s.io");
    assert_eq!(r.role_ref_kind, "Role");
    assert_eq!(r.subject_kind, "ServiceAccount");
}

#[test]
fn podgroup_uses_tenant_queue_and_gang_of_driver_and_executors() {
    let g = podgroup_intent("job", "team-alpha", 4);
    assert_eq!(g.queue, "team-alpha");
    assert_eq!(g.min_member, 5);
    assert_eq!(g.job_name, "job");
}

#[test]
fn platform_selection() {
    assert_eq!(
        select_platform_name(&vec![], "ns").unwrap_err(),
        "no CruciblePlatform found in namespace ns"
    );
    assert_eq!(
        select_platform_name(&vec![Some("p1".to_string()), Some("p2".to_string())], "ns").unwrap(),
        "p1"
    );
    assert_eq!(select_platform_name(&vec![None], "ns").unwrap(), "unknown");
}

#[test]
fn executor_names_skip_unnamed_pods() {
    let names = executor_pod_names(&vec![Some("e1".to_string()), None, Some("e2".to_string())]);
    assert_eq!(names, vec!["e1".to_string(), "e2".to_string()]);
}

#[test]
fn pod_error_is_first_termination_message() {
    assert_eq!(pod_error_message(&vec![]), "driver pod failed");
    assert_eq!(pod_error_message(&vec![None, None]), "driver pod failed");
    assert_eq!(
        pod_error_message(&vec![None, Some("OOMKilled".to_string()), Some("later".to_string())]),
        "OOMKilled"
    );
}

#[test]
fn error_enrichment_names_unhealthy_components() {
    assert_eq!(enrich_error("boom", None, None, None), "boom");
    assert_eq!(enrich_error("boom", Some(Some(1)), Some((Some(3), Some(3))), Some(Some(2))), "boom");
    assert_eq!(
        enrich_error("boom", Some(Some(0)), None, None),
        "boom [PLATFORM] Celeborn master has 0 ready replicas \u{2014} shuffle service unavailable"
    );
    assert_eq!(
        enrich_error("boom", Some(None), None, Some(Some(0))),
        "boom [PLATFORM] Celeborn master has 0 ready replicas \u{2014} shuffle service unavailable \
         [PLATFORM] Volcano scheduler has 0 ready replicas \u{2014} job scheduling may fail"
    );
}

#[test]
fn pod_phases_are_classified() {
    assert_eq!(classify_pod_phase(&Some("Running".to_string())), PodPhase::Running);
    assert_eq!(classify_pod_phase(&Some("Succeeded".to_string())), PodPhase::Succeeded);
    assert_eq!(classify_pod_phase(&Some("Failed".to_string())), PodPhase::Failed);
    assert_eq!(classify_pod_phase(&Some("Pending".to_string())), PodPhase::Other);
    assert_eq!(classify_pod_phase(&None), PodPhase::Other);
}

fn status_in(phase: JobPhase) -> CrucibleSparkJobStatus {
    CrucibleSparkJobStatus {
        phase: Some(phase),
        driver_pod: Some("job-driver".to_string()),
        start_time: Some("t0".to_string()),
        ..Default::default()
    }
}

#[test]
fn job_phase_defaults_to_submitted() {
    assert_eq!(current_phase(&None), JobPhase::Submitted);
    assert_eq!(current_phase(&Some(CrucibleSparkJobStatus::default())), JobPhase::Submitted);
    assert_eq!(current_phase(&Some(status_in(JobPhase::Running))), JobPhase::Running);
    assert!(!is_finished(&None));
    assert!(is_finished(&Some(status_in(JobPhase::Killed))));
    assert!(!is_finished(&Some(status_in(JobPhase::Suspended))));
}

#[test]
fn submission_records_driver_and_start() {
    let s = mark_submitted(CrucibleSparkJobStatus::default(), "job-driver".to_string(), "t1".to_string());
    assert_eq!(s.phase, Some(JobPhase::Submitted));
    assert_eq!(s.driver_pod.as_deref(), Some("job-driver"));
    assert_eq!(s.start_time.as_deref(), Some("t1"));
    assert_eq!(s.end_time, None);
}

#[test]
fn running_driver_outcomes() {
    let done = observe_running(status_in(JobPhase::Running), RunningObservation::Succeeded, "t2".to_string());
    assert_eq!(done.phase, Some(JobPhase::Completed));
    assert_eq!(done.end_time.as_deref(), Some("t2"));

    let failed = observe_running(status_in(JobPhase::Running), RunningObservation::Failed("oom".to_string()), "t2".to_string());
    assert_eq!(failed.phase, Some(JobPhase::Failed));
    assert_eq!(failed.error.as_deref(), Some("oom"));
    assert_eq!(failed.end_time.as_deref(), Some("t2"));

    let gone = observe_running(status_in(JobPhase::Running), RunningObservation::Missing, "t2".to_string());
    assert_eq!(gone.phase, Some(JobPhase::Failed));
    assert_eq!(gone.error.as_deref(), Some("driver pod not found"));

    let active = observe_running(
        status_in(JobPhase::Running),
        RunningObservation::Active(vec!["e1".to_string()]),
        "t2".to_string(),
    );
    assert_eq!(active.phase, Some(JobPhase::Running));
    assert_eq!(active.executor_pods, vec!["e1".to_string()]);
    assert_eq!(active.end_time, None);
}

#[test]
fn submitted_driver_outcomes() {
    let running = observe_submitted(status_in(JobPhase::Submitted), "ns", SubmittedObservation::Running, "t".to_string());
    assert_eq!(running.phase, Some(JobPhase::Running));
    assert_eq!(running.ui_url.as_deref(), Some("http://job-driver.ns:4040"));

    // A driver that finished before it was seen running moves the job to
    // running first; the next pass sees the driver done and completes it.
    let quick = observe_submitted(status_in(JobPhase::Submitted), "ns", SubmittedObservation::Succeeded, "t".to_string());
    assert_eq!(quick.phase, Some(JobPhase::Running));
    assert_eq!(quick.end_time, None);
    assert_eq!(quick.ui_url.as_deref(), Some("http://job-driver.ns:4040"));
    let done = observe_running(quick, RunningObservation::Succeeded, "t2".to_string());
    assert_eq!(done.phase, Some(JobPhase::Completed));
    assert_eq!(done.end_time.as_deref(), Some("t2"));

    let failed = observe_submitted(
        status_in(JobPhase::Submitted),
        "ns",
        SubmittedObservation::Failed("bad jar".to_string()),
        "t".to_string(),
    );
    assert_eq!(failed.phase, Some(JobPhase::Failed));
    assert_eq!(failed.error.as_deref(), Some("bad jar"));

    let pending = observe_submitted(status_in(JobPhase::Submitted), "ns", SubmittedObservation::Pending, "t".to_string());
    assert_eq!(pending.phase, Some(JobPhase::Submitted));

    let untouched = observe_submitted(status_in(JobPhase::Running), "ns", SubmittedObservation::Succeeded, "t".to_string());
    assert_eq!(untouched.phase, Some(JobPhase::Running));
    let no_driver = CrucibleSparkJobStatus { phase: Some(JobPhase::Submitted), ..Default::default() };
    let still = observe_submitted(no_driver, "ns", SubmittedObservation::Running, "t".to_string());
    assert_eq!(still.phase, Some(JobPhase::Submitted));
    assert_eq!(still.ui_url, None);
}

#[test]
fn reconcile_failure_fails_the_job() {
    let s = failed_status(Some(status_in(JobPhase::Running)), "looking up CruciblePlatform".to_string(), "t3".to_string());
    assert_eq!(s.phase, Some(JobPhase::Failed));
    assert_eq!(s.error.as_deref(), Some("looking up CruciblePlatform"));
    assert_eq!(s.end_time.as_deref(), Some("t3"));
    assert_eq!(s.driver_pod.as_deref(), Some("job-driver"));
    let fresh = failed_status(None, "e".to_string(), "t".to_string());
    assert_eq!(fresh.driver_pod, None);
}

#[test]
fn requeue_policy() {
    assert_eq!(requeue_after_status(&status_in(JobPhase::Completed)), RequeueAction::AwaitChange);
    assert_eq!(requeue_after_status(&status_in(JobPhase::Running)), RequeueAction::AfterMillis(5000));
    assert_eq!(requeue_after_status(&CrucibleSparkJobStatus::default()), RequeueAction::AfterMillis(5000));
}

#[test]
fn finalizer_handling() {
    let with = Some(vec!["other".to_string(), "crucible.dev/spark-job-cleanup".to_string(), "last".to_string()]);
    assert!(has_cleanup_finalizer(&with));
    assert!(!has_cleanup_finalizer(&None));
    assert!(!has_cleanup_finalizer(&Some(vec!["other".to_string()])));
    assert_eq!(finalizers_after_cleanup(&with), vec!["other".to_string(), "last".to_string()]);
    assert!(finalizers_after_cleanup(&None).is_empty());
}

#[test]
fn entry_step_order() {
    let fin = Some(vec!["crucible.dev/spark-job-cleanup".to_string(), "x".to_string()]);
    match spark_entry_step(true, &fin, None, "t".to_string()) {
        SparkEntryStep::Cleanup { status, remaining_finalizers } => {
            assert_eq!(remaining_finalizers, vec!["x".to_string()]);
            // A job with no status yet is still in submitted: it is killed.
            let killed = status.expect("a killed status");
            assert_eq!(killed.phase, Some(JobPhase::Killed));
            assert_eq!(killed.end_time.as_deref(), Some("t"));
        }
        other => panic!("unexpected {other:?}"),
    }
    assert!(matches!(spark_entry_step(false, &None, None, "t".to_string()), SparkEntryStep::AddFinalizer));
    assert!(matches!(
        spark_entry_step(false, &fin, Some(status_in(JobPhase::Completed)), "t".to_string()),
        SparkEntryStep::Finished
    ));
    assert!(matches!(
        spark_entry_step(false, &fin, Some(status_in(JobPhase::Running)), "t".to_string()),
        SparkEntryStep::Reconcile
    ));
    assert!(matches!(spark_entry_step(false, &fin, None, "t".to_string()), SparkEntryStep::Reconcile));

    let (n, ns) = object_key(&None, &None);
    assert_eq!((n.as_str(), ns.as_str()), ("unknown", "default"));
    let (n, ns) = object_key(&Some("job".to_string()), &Some("team".to_string()));
    assert_eq!((n.as_str(), ns.as_str()), ("job", "team"));
}

#[test]
fn deleting_a_running_job_kills_it() {
    let fin = Some(vec!["crucible.dev/spark-job-cleanup".to_string()]);
    match spark_entry_step(true, &fin, Some(status_in(JobPhase::Running)), "t9".to_string()) {
        SparkEntryStep::Cleanup { status, remaining_finalizers } => {
            assert!(remaining_finalizers.is_empty());
            let killed = status.expect("a killed status");
            assert_eq!(killed.phase, Some(JobPhase::Killed));
            assert_eq!(killed.end_time.as_deref(), Some("t9"));
            assert_eq!(killed.driver_pod.as_deref(), Some("job-driver"));
            assert!(JobPhase::Running.validate_transition(&JobPhase::Killed).is_ok());
        }
        other => panic!("unexpected {other:?}"),
    }
}

#[test]
fn deleting_a_finished_job_keeps_its_status() {
    for phase in [JobPhase::Completed, JobPhase::Failed, JobPhase::Killed, JobPhase::Cancelled] {
        assert!(deletion_status(Some(status_in(phase)), "t".to_string()).is_none());
    }
    let submitted = deletion_status(Some(status_in(JobPhase::Submitted)), "t".to_string()).unwrap();
    assert_eq!(submitted.phase, Some(JobPhase::Killed));
    // The state machine does not let a suspended job be killed: its status is left alone.
    assert!(deletion_status(Some(status_in(JobPhase::Suspended)), "t".to_string()).is_none());
}

#[test]
fn worker_shortage_is_reported() {
    // The master is up but only one of three workers is ready.
    let msg = enrich_error("java.io.IOException: shuffle fetch failed", Some(Some(1)), Some((Some(1), Some(3))), Some(Some(1)));
    assert!(msg.contains("shuffle service unavailable"));
    assert_eq!(
        msg,
        "java.io.IOException: shuffle fetch failed [PLATFORM] Celeborn workers 1/3 ready \u{2014} shuffle service unavailable"
    );
    // No ready count reported means none ready; no replica count means one wanted.
    assert_eq!(
        enrich_error("x", None, Some((None, None)), None),
        "x [PLATFORM] Celeborn workers 0/1 ready \u{2014} shuffle service unavailable"
    );
    assert_eq!(enrich_error("x", None, Some((Some(2), None)), None), "x");
    assert_eq!(enrich_error("x", None, Some((Some(12), Some(12))), None), "x");
    // All three notes, in order.
    assert_eq!(
        enrich_error("x", Some(Some(0)), Some((Some(0), Some(2))), Some(None)),
        "x [PLATFORM] Celeborn master has 0 ready replicas \u{2014} shuffle service unavailable \
         [PLATFORM] Celeborn workers 0/2 ready \u{2014} shuffle service unavailable \
         [PLATFORM] Volcano scheduler has 0 ready replicas \u{2014} job scheduling may fail"
    );
}

#[test]
fn driver_pod_is_gang_scheduled_under_its_tenant() {
    let spec = sample_spec();
    let config = build_spark_config(&spec, "p", "ns", "test-job", PULL);
    let pod = build_driver_pod("job1", "default", "job1-driver", &spec, &config, &test_owner_ref(), PULL);
    assert_eq!(pod.annotations.len(), 2);
    assert_eq!(pod.annotations.get("scheduling.volcano.sh/queue-name").map(|s| s.as_str()), Some("team-a"));
    assert_eq!(pod.annotations.get("scheduling.volcano.sh/group-min-member").map(|s| s.as_str()), Some("5"));

    let one = podgroup_annotations("team-b", None);
    assert_eq!(one.get("scheduling.volcano.sh/queue-name").map(|s| s.as_str()), Some("team-b"));
    assert_eq!(one.get("scheduling.volcano.sh/group-min-member").map(|s| s.as_str()), Some("2"));
    let most = podgroup_annotations("t", Some(u32::MAX));
    assert_eq!(most.get("scheduling.volcano.sh/group-min-member").map(|s| s.as_str()), Some("4294967296"));
}

#[test]
fn reconcile_steps_drive_a_job_to_completion() {
    // First pass: a new job gets its driver, which is then looked at once.
    let (s, a) = reconcile_step(CrucibleSparkJobStatus::default(), "job", "ns", PassEvent::Begin);
    assert!(matches!(a, PassAction::CreateDriver));
    let (s, a) = reconcile_step(
        s,
        "job",
        "ns",
        PassEvent::DriverCreated { driver: "job-driver".to_string(), now: "t1".to_string() },
    );
    assert_eq!(s.phase, Some(JobPhase::Submitted));
    assert_eq!(s.start_time.as_deref(), Some("t1"));
    match &a {
        PassAction::CheckSubmittedDriver(d) => assert_eq!(d, "job-driver"),
        other => panic!("unexpected {other:?}"),
    }
    let (s, a) = reconcile_step(s, "job", "ns", PassEvent::SubmittedDriverUnread);
    assert!(matches!(a, PassAction::Finish));
    assert_eq!(s.phase, Some(JobPhase::Submitted));

    // Second pass: the driver is still submitted and now runs.
    let (s, a) = reconcile_step(s, "job", "ns", PassEvent::Begin);
    assert!(matches!(a, PassAction::CreateDriver));
    let (s, a) = reconcile_step(
        s,
        "job",
        "ns",
        PassEvent::DriverCreated { driver: "job-driver".to_string(), now: "t2".to_string() },
    );
    assert!(matches!(a, PassAction::CheckSubmittedDriver(_)));
    let (s, a) = reconcile_step(
        s,
        "job",
        "ns",
        PassEvent::SubmittedDriverSeen { observation: SubmittedObservation::Running, now: "t3".to_string() },
    );
    assert!(matches!(a, PassAction::Finish));
    assert_eq!(s.phase, Some(JobPhase::Running));
    assert_eq!(s.ui_url.as_deref(), Some("http://job-driver.ns:4040"));

    // Third pass: the running driver is watched and has finished.
    let (s, a) = reconcile_step(s, "job", "ns", PassEvent::Begin);
    match &a {
        PassAction::WatchRunningDriver(d) => assert_eq!(d, "job-driver"),
        other => panic!("unexpected {other:?}"),
    }
    let (s, a) = reconcile_step(
        s,
        "job",
        "ns",
        PassEvent::RunningDriverSeen { observation: RunningObservation::Succeeded, now: "t4".to_string() },
    );
    assert!(matches!(a, PassAction::Finish));
    assert_eq!(s.phase, Some(JobPhase::Completed));
    assert_eq!(s.end_time.as_deref(), Some("t4"));
}

#[test]
fn reconcile_step_ignores_observations_out_of_phase() {
    // A submitted job is not completed by an observation meant for a running one.
    let (s, a) = reconcile_step(
        status_in(JobPhase::Submitted),
        "job",
        "ns",
        PassEvent::RunningDriverSeen { observation: RunningObservation::Succeeded, now: "t".to_string() },
    );
    assert!(matches!(a, PassAction::Finish));
    assert_eq!(s.phase, Some(JobPhase::Submitted));
    // A running job is not sent back to submitted by a driver creation.
    let (s, a) = reconcile_step(
        status_in(JobPhase::Running),
        "job",
        "ns",
        PassEvent::DriverCreated { driver: "other".to_string(), now: "t".to_string() },
    );
    assert!(matches!(a, PassAction::Finish));
    assert_eq!(s.phase, Some(JobPhase::Running));
    assert_eq!(s.driver_pod.as_deref(), Some("job-driver"));
    // A suspended job has nothing to do in a pass.
    let (_, a) = reconcile_step(status_in(JobPhase::Suspended), "job", "ns", PassEvent::Begin);
    assert!(matches!(a, PassAction::Finish));
}

#[test]
fn driver_lookups() {
    let no_driver = CrucibleSparkJobStatus { phase: Some(JobPhase::Running), ..Default::default() };
    assert_eq!(running_driver(&no_driver, "job"), "job-driver");
    let named = CrucibleSparkJobStatus { driver_pod: Some("custom".to_string()), ..no_driver.clone() };
    assert_eq!(running_driver(&named, "job"), "custom");
    assert_eq!(submitted_driver_to_check(&named), None);
    assert_eq!(submitted_driver_to_check(&status_in(JobPhase::Submitted)).as_deref(), Some("job-driver"));
    let submitted_no_driver = CrucibleSparkJobStatus { phase: Some(JobPhase::Submitted), ..Default::default() };
    assert_eq!(submitted_driver_to_check(&submitted_no_driver), None);
}
