//! The Spark job controller's rules: the Spark configuration it injects,
//! the driver pod and RBAC objects it creates, and how it moves a job
//! through its phases from what it observes of the driver pod.

use vstd::prelude::*;

use crate::objects::{push_str, push_string, Container, EnvVar, OwnerReference, PodManifest, ResourceRequests};
use crate::platform_status::opt_view;
use crate::spark::{CrucibleSparkJobSpec, CrucibleSparkJobStatus, ResourceSpec};
use crate::state::JobPhase;
use crate::string_map::{pairs_to_map, str_eq, StringMap};
use crate::text::{decimal, i32_to_decimal, join, join_seq, signed_decimal, u64_to_decimal, views};

verus! {

/// Labels shared by all resources of a Spark job.
pub open spec fn job_labels_spec(job_name: Seq<char>, role: Seq<char>) -> Map<Seq<char>, Seq<char>> {
    Map::<Seq<char>, Seq<char>>::empty()
        .insert("app.kubernetes.io/name"@, "crucible-spark-job"@)
        .insert("app.kubernetes.io/managed-by"@, "crucible-operator"@)
        .insert("crucible.dev/job"@, job_name)
        .insert("crucible.dev/role"@, role)
}

/// Standard labels for Spark job resources.
pub fn job_labels(job_name: &str, role: &str) -> (labels: StringMap)
    ensures
        labels@ == job_labels_spec(job_name@, role@),
{
    let mut labels = StringMap::new();
    labels.insert(String::from_str("app.kubernetes.io/name"), String::from_str("crucible-spark-job"));
    labels.insert(String::from_str("app.kubernetes.io/managed-by"), String::from_str("crucible-operator"));
    labels.insert(String::from_str("crucible.dev/job"), String::from_str(job_name));
    labels.insert(String::from_str("crucible.dev/role"), String::from_str(role));
    labels
}

/// Name of the driver pod, and of the driver's service account.
pub open spec fn driver_name_spec(job_name: Seq<char>) -> Seq<char> {
    job_name + "-driver"@
}

/// ServiceAccount name for the Spark driver pod.
pub fn driver_sa_name(job_name: &str) -> (s: String)
    ensures
        s@ == driver_name_spec(job_name@),
{
    let mut s = String::from_str(job_name);
    s.append("-driver");
    s
}

/// Name of the driver pod of a job.
pub fn driver_pod_name(job_name: &str) -> (s: String)
    ensures
        s@ == driver_name_spec(job_name@),
{
    driver_sa_name(job_name)
}

/// Address of the Celeborn master of a platform.
pub open spec fn celeborn_endpoint_spec(platform_name: Seq<char>, namespace: Seq<char>) -> Seq<char> {
    platform_name + "-celeborn-master."@ + namespace + ".svc:9097"@
}

/// The Spark settings the controller injects into every job: Celeborn
/// shuffle, event logging, Spark-on-Kubernetes image and service account,
/// and graceful decommissioning.
pub open spec fn spark_defaults_spec(
    platform_name: Seq<char>,
    namespace: Seq<char>,
    job_name: Seq<char>,
    image_pull_policy: Seq<char>,
) -> Map<Seq<char>, Seq<char>> {
    Map::<Seq<char>, Seq<char>>::empty()
        .insert("spark.shuffle.manager"@, "org.apache.celeborn.spark.CelebornShuffleManager"@)
        .insert("spark.celeborn.master.endpoints"@, celeborn_endpoint_spec(platform_name, namespace))
        .insert("spark.celeborn.client.spark.shuffle.writer"@, "hash"@)
        .insert("spark.eventLog.enabled"@, "true"@)
        .insert("spark.eventLog.dir"@, "s3a://crucible-data/spark-events"@)
        .insert("spark.kubernetes.container.image"@, "crucible-spark:latest"@)
        .insert("spark.kubernetes.container.image.pullPolicy"@, image_pull_policy)
        .insert("spark.kubernetes.authenticate.driver.serviceAccountName"@, driver_name_spec(job_name))
        .insert("spark.decommission.enabled"@, "true"@)
        .insert("spark.storage.decommission.rddBlocks.enabled"@, "true"@)
        .insert("spark.storage.decommission.shuffleBlocks.enabled"@, "true"@)
}

/// Builds the full Spark configuration of a job: the injected defaults,
/// overridden by the job's own `spark_config` entries.
///
/// `image_pull_policy` is the pull policy the operator runs with (its
/// `IMAGE_PULL_POLICY` setting, `IfNotPresent` when unset).
pub fn build_spark_config(
    spec: &CrucibleSparkJobSpec,
    platform_name: &str,
    namespace: &str,
    job_name: &str,
    image_pull_policy: &str,
) -> (config: StringMap)
    ensures
        config@ == spark_defaults_spec(platform_name@, namespace@, job_name@, image_pull_policy@)
            .union_prefer_right(spec.spark_config@),
{
    let mut endpoint = String::from_str(platform_name);
    endpoint.append("-celeborn-master.");
    endpoint.append(namespace);
    endpoint.append(".svc:9097");

    let mut config = StringMap::new();
    config.insert(
        String::from_str("spark.shuffle.manager"),
        String::from_str("org.apache.celeborn.spark.CelebornShuffleManager"),
    );
    config.insert(String::from_str("spark.celeborn.master.endpoints"), endpoint);
    config.insert(String::from_str("spark.celeborn.client.spark.shuffle.writer"), String::from_str("hash"));
    config.insert(String::from_str("spark.eventLog.enabled"), String::from_str("true"));
    config.insert(
        String::from_str("spark.eventLog.dir"),
        String::from_str("s3a://crucible-data/spark-events"),
    );
    config.insert(
        String::from_str("spark.kubernetes.container.image"),
        String::from_str("crucible-spark:latest"),
    );
    config.insert(
        String::from_str("spark.kubernetes.container.image.pullPolicy"),
        String::from_str(image_pull_policy),
    );
    config.insert(
        String::from_str("spark.kubernetes.authenticate.driver.serviceAccountName"),
        driver_sa_name(job_name),
    );
    config.insert(String::from_str("spark.decommission.enabled"), String::from_str("true"));
    config.insert(String::from_str("spark.storage.decommission.rddBlocks.enabled"), String::from_str("true"));
    config.insert(
        String::from_str("spark.storage.decommission.shuffleBlocks.enabled"),
        String::from_str("true"),
    );
    let ghost defaults = config@;
    assert(defaults == spark_defaults_spec(platform_name@, namespace@, job_name@, image_pull_policy@));

    // User-provided overrides come last, so they win.
    let user = &spec.spark_config;
    let n = user.len();
    let ghost p = user.pairs();
    for i in 0..n
        invariant
            n == p.len(),
            p == user.pairs(),
            user@ == pairs_to_map(p),
            config@ == defaults.union_prefer_right(pairs_to_map(p.take(i as int))),
    {
        let k = user.key_at(i).clone();
        let v = user.value_at(i).clone();
        let ghost before = config@;
        config.insert(k, v);
        proof {
            assert(p.take(i + 1).drop_last() =~= p.take(i as int));
            assert(p.take(i + 1).last() == p[i as int]);
            let m = pairs_to_map(p.take(i as int));
            assert(config@ =~= defaults.union_prefer_right(m.insert(p[i as int].0, p[i as int].1)));
        }
    }
    assert(p.take(n as int) =~= p);
    config
}

/// The owner reference that ties a child object to its Spark job.
pub open spec fn owner_ref_spec(r: OwnerReference, name: Option<String>, uid: Option<String>) -> bool {
    &&& r.api_version@ == "crucible.dev/v1alpha1"@
    &&& r.kind@ == "CrucibleSparkJob"@
    &&& r.name@ == (match name { Some(n) => n@, None => Seq::<char>::empty() })
    &&& r.uid@ == (match uid { Some(u) => u@, None => Seq::<char>::empty() })
    &&& r.controller == Some(true)
    &&& r.block_owner_deletion == Some(true)
}

fn string_or_empty(s: &Option<String>) -> (r: String)
    ensures
        r@ == (match s { Some(x) => x@, None => Seq::<char>::empty() }),
{
    match s {
        Some(x) => x.clone(),
        None => String::new(),
    }
}

/// Builds the controlling owner reference for a `CrucibleSparkJob` with
/// the given metadata name and uid (empty when absent).
pub fn owner_ref(name: &Option<String>, uid: &Option<String>) -> (r: OwnerReference)
    ensures
        owner_ref_spec(r, *name, *uid),
{
    OwnerReference {
        api_version: String::from_str("crucible.dev/v1alpha1"),
        kind: String::from_str("CrucibleSparkJob"),
        name: string_or_empty(name),
        uid: string_or_empty(uid),
        controller: Some(true),
        block_owner_deletion: Some(true),
    }
}

/// A resource value with its default: the CPU (`cpu == true`) or the
/// memory of an optional resource spec.
pub open spec fn resource_value(r: Option<ResourceSpec>, cpu: bool, default: Seq<char>) -> Seq<char> {
    match r {
        Some(spec) => {
            let v = if cpu { spec.cpu } else { spec.memory };
            match v {
                Some(x) => x@,
                None => default,
            }
        },
        None => default,
    }
}

fn resource_value_of(r: &Option<ResourceSpec>, cpu: bool, default: &str) -> (s: String)
    ensures
        s@ == resource_value(*r, cpu, default@),
{
    match r {
        Some(spec) => {
            let v = if cpu { &spec.cpu } else { &spec.memory };
            match v {
                Some(x) => x.clone(),
                None => String::from_str(default),
            }
        },
        None => String::from_str(default),
    }
}

/// Driver CPU request (`1` by default).
pub open spec fn driver_cpu(spec: CrucibleSparkJobSpec) -> Seq<char> {
    resource_value(spec.driver_resources, true, "1"@)
}

/// Driver memory (`1Gi` by default).
pub open spec fn driver_memory(spec: CrucibleSparkJobSpec) -> Seq<char> {
    resource_value(spec.driver_resources, false, "1Gi"@)
}

/// Cores per executor (`1` by default).
pub open spec fn executor_cpu(spec: CrucibleSparkJobSpec) -> Seq<char> {
    resource_value(spec.executor_resources, true, "1"@)
}

/// Memory per executor (`1Gi` by default).
pub open spec fn executor_memory(spec: CrucibleSparkJobSpec) -> Seq<char> {
    resource_value(spec.executor_resources, false, "1Gi"@)
}

/// Number of executors (`1` by default).
pub open spec fn executor_count(spec: CrucibleSparkJobSpec) -> nat {
    match spec.executors {
        Some(n) => n as nat,
        None => 1,
    }
}

/// `--conf key=value` arguments for each configuration entry, in order.
pub open spec fn conf_args(p: Seq<(Seq<char>, Seq<char>)>) -> Seq<Seq<char>>
    decreases p.len(),
{
    if p.len() == 0 {
        Seq::empty()
    } else {
        conf_args(p.drop_last()) + seq!["--conf"@, p.last().0 + "="@ + p.last().1]
    }
}

/// The `spark-submit` command line of the driver, as separate words.
pub open spec fn submit_args_spec(
    job_name: Seq<char>,
    namespace: Seq<char>,
    spec: CrucibleSparkJobSpec,
    config: Seq<(Seq<char>, Seq<char>)>,
) -> Seq<Seq<char>> {
    seq![
        "/opt/spark/bin/spark-submit"@,
        "--master"@,
        "k8s://https://kubernetes.default.svc"@,
        "--deploy-mode"@,
        "client"@,
        "--class"@,
        spec.class@,
        "--driver-memory"@,
        driver_memory(spec),
    ] + conf_args(config) + seq![
        "--conf"@,
        "spark.executor.instances="@ + decimal(executor_count(spec)),
        "--conf"@,
        "spark.executor.cores="@ + executor_cpu(spec),
        "--conf"@,
        "spark.executor.memory="@ + executor_memory(spec),
        "--conf"@,
        "spark.kubernetes.namespace="@ + namespace,
        "--conf"@,
        "spark.kubernetes.executor.label.crucible.dev/job="@ + job_name,
        "--conf"@,
        "spark.kubernetes.executor.label.crucible.dev/role=executor"@,
    ] + seq![spec.jar@] + views(spec.args@)
}

/// The words of `spark-submit`, for a driver running in `namespace` with
/// the given Spark configuration.
pub fn driver_submit_args(
    job_name: &str,
    namespace: &str,
    spec: &CrucibleSparkJobSpec,
    spark_config: &StringMap,
) -> (args: Vec<String>)
    ensures
        views(args@) == submit_args_spec(job_name@, namespace@, *spec, spark_config.pairs()),
{
    let mut args: Vec<String> = Vec::new();
    push_str(&mut args, "/opt/spark/bin/spark-submit");
    push_str(&mut args, "--master");
    push_str(&mut args, "k8s://https://kubernetes.default.svc");
    push_str(&mut args, "--deploy-mode");
    push_str(&mut args, "client");
    push_str(&mut args, "--class");
    push_string(&mut args, spec.class.clone());
    push_str(&mut args, "--driver-memory");
    push_string(&mut args, resource_value_of(&spec.driver_resources, false, "1Gi"));
    let ghost head = views(args@);

    // Spark configuration as --conf arguments, in key order.
    let n = spark_config.len();
    let ghost p = spark_config.pairs();
    for i in 0..n
        invariant
            n == p.len(),
            p == spark_config.pairs(),
            views(args@) == head + conf_args(p.take(i as int)),
    {
        push_str(&mut args, "--conf");
        let mut kv = spark_config.key_at(i).clone();
        kv.append("=");
        kv.append(spark_config.value_at(i).as_str());
        push_string(&mut args, kv);
        proof {
            assert(p.take(i + 1).drop_last() =~= p.take(i as int));
            assert(p.take(i + 1).last() == p[i as int]);
        }
    }
    assert(p.take(n as int) =~= p);
    let ghost mid = views(args@);

    // Executor sizing.
    let executors: u32 = match spec.executors {
        Some(e) => e,
        None => 1,
    };
    push_str(&mut args, "--conf");
    let mut a = String::from_str("spark.executor.instances=");
    a.append(u64_to_decimal(executors as u64).as_str());
    push_string(&mut args, a);
    push_str(&mut args, "--conf");
    let mut a = String::from_str("spark.executor.cores=");
    a.append(resource_value_of(&spec.executor_resources, true, "1").as_str());
    push_string(&mut args, a);
    push_str(&mut args, "--conf");
    let mut a = String::from_str("spark.executor.memory=");
    a.append(resource_value_of(&spec.executor_resources, false, "1Gi").as_str());
    push_string(&mut args, a);

    // Where Spark-on-Kubernetes puts the executors, and how it labels them.
    push_str(&mut args, "--conf");
    let mut a = String::from_str("spark.kubernetes.namespace=");
    a.append(namespace);
    push_string(&mut args, a);
    push_str(&mut args, "--conf");
    let mut a = String::from_str("spark.kubernetes.executor.label.crucible.dev/job=");
    a.append(job_name);
    push_string(&mut args, a);
    push_str(&mut args, "--conf");
    push_str(&mut args, "spark.kubernetes.executor.label.crucible.dev/role=executor");
    let ghost tail_start = views(args@);

    // The application JAR and its arguments.
    push_string(&mut args, spec.jar.clone());
    let m = spec.args.len();
    let ghost before_user = views(args@);
    for j in 0..m
        invariant
            m == spec.args@.len(),
            views(args@) == before_user + views(spec.args@).take(j as int),
    {
        push_string(&mut args, spec.args[j].clone());
        proof {
            assert(views(spec.args@).take(j + 1) =~= views(spec.args@).take(j as int).push(spec.args@[j as int]@));
        }
    }
    proof {
        assert(views(spec.args@).take(m as int) =~= views(spec.args@));
        assert(views(args@) =~= submit_args_spec(job_name@, namespace@, *spec, p));
    }
    args
}

/// The Volcano annotations that gang-schedule a job's pods: queued under
/// the job's tenant, with the executors and the driver as one group.
pub open spec fn podgroup_annotations_spec(tenant: Seq<char>, executors: nat) -> Map<Seq<char>, Seq<char>> {
    map![
        "scheduling.volcano.sh/queue-name"@ => tenant,
        "scheduling.volcano.sh/group-min-member"@ => decimal(executors + 1),
    ]
}

/// The Volcano annotations for a job of `tenant` with `executors`
/// executors (one when unset).
pub fn podgroup_annotations(tenant: &str, executors: Option<u32>) -> (m: StringMap)
    ensures
        m@ == podgroup_annotations_spec(tenant@, match executors {
            Some(n) => n as nat,
            None => 1,
        }),
{
    let n: u64 = match executors {
        Some(n) => n as u64,
        None => 1,
    };
    let mut m = StringMap::new();
    m.insert(String::from_str("scheduling.volcano.sh/queue-name"), String::from_str(tenant));
    m.insert(String::from_str("scheduling.volcano.sh/group-min-member"), u64_to_decimal(n + 1));
    m
}

/// The driver pod the controller creates for a job. It carries the
/// job's Volcano annotations and, like every driver, no tolerations.
pub open spec fn driver_pod_spec(
    pod: PodManifest,
    job_name: Seq<char>,
    namespace: Seq<char>,
    driver_pod_name: Seq<char>,
    spec: CrucibleSparkJobSpec,
    config: Seq<(Seq<char>, Seq<char>)>,
    owner: OwnerReference,
    image_pull_policy: Seq<char>,
) -> bool {
    &&& pod.name@ == driver_pod_name
    &&& pod.namespace@ == namespace
    &&& pod.labels@ == job_labels_spec(job_name, "driver"@)
    &&& pod.annotations@ == podgroup_annotations_spec(spec.tenant@, executor_count(spec))
    &&& pod.owner_references@.len() == 1
    &&& pod.owner_references@[0].same(owner)
    &&& pod.service_account_name@ == driver_name_spec(job_name)
    &&& pod.restart_policy@ == "Never"@
    &&& pod.containers@.len() == 1
    &&& {
        let c = pod.containers@[0];
        &&& c.name@ == "spark-driver"@
        &&& c.image@ == "crucible-spark:latest"@
        &&& c.image_pull_policy@ == image_pull_policy
        &&& views(c.command@) == seq!["/bin/bash"@, "-c"@]
        &&& views(c.args@) == seq![join_seq(submit_args_spec(job_name, namespace, spec, config), " "@)]
        &&& c.env@.len() == 1
        &&& c.env@[0].name@ == "SPARK_HOME"@
        &&& c.env@[0].value matches Some(v) && v@ == "/opt/spark"@
        &&& c.resources.cpu@ == driver_cpu(spec)
        &&& c.resources.memory@ == driver_memory(spec)
    }
}

/// Builds the driver pod: `spark-submit` in client mode against the
/// in-cluster API server, run under the job's driver service account,
/// never restarted, requesting the driver's CPU and memory.
pub fn build_driver_pod(
    job_name: &str,
    namespace: &str,
    driver_pod_name: &str,
    spec: &CrucibleSparkJobSpec,
    spark_config: &StringMap,
    owner_ref: &OwnerReference,
    image_pull_policy: &str,
) -> (pod: PodManifest)
    ensures
        driver_pod_spec(
            pod,
            job_name@,
            namespace@,
            driver_pod_name@,
            *spec,
            spark_config.pairs(),
            *owner_ref,
            image_pull_policy@,
        ),
{
    let words = driver_submit_args(job_name, namespace, spec, spark_config);
    let mut args: Vec<String> = Vec::new();
    assert(views(args@) =~= Seq::empty());
    push_string(&mut args, join(&words, " "));
    assert(views(args@) =~= seq![join_seq(views(words@), " "@)]);
    let mut command: Vec<String> = Vec::new();
    assert(views(command@) =~= Seq::empty());
    push_str(&mut command, "/bin/bash");
    push_str(&mut command, "-c");
    assert(views(command@) =~= seq!["/bin/bash"@, "-c"@]);
    let mut env: Vec<EnvVar> = Vec::new();
    env.push(EnvVar { name: String::from_str("SPARK_HOME"), value: Some(String::from_str("/opt/spark")) });
    let container = Container {
        name: String::from_str("spark-driver"),
        image: String::from_str("crucible-spark:latest"),
        image_pull_policy: String::from_str(image_pull_policy),
        command,
        args,
        env,
        resources: ResourceRequests {
            cpu: resource_value_of(&spec.driver_resources, true, "1"),
            memory: resource_value_of(&spec.driver_resources, false, "1Gi"),
        },
    };
    let mut containers: Vec<Container> = Vec::new();
    containers.push(container);
    let mut owner_references: Vec<OwnerReference> = Vec::new();
    owner_references.push(owner_ref.clone());
    PodManifest {
        name: String::from_str(driver_pod_name),
        namespace: String::from_str(namespace),
        labels: job_labels(job_name, "driver"),
        annotations: podgroup_annotations(spec.tenant.as_str(), spec.executors),
        owner_references,
        service_account_name: driver_sa_name(job_name),
        restart_policy: String::from_str("Never"),
        containers,
    }
}

/// A policy rule of a Role.
#[derive(Debug)]
pub struct PolicyRule {
    pub api_groups: Vec<String>,
    pub resources: Vec<String>,
    pub verbs: Vec<String>,
}

/// The ServiceAccount, Role and RoleBinding that let a driver create,
/// watch and delete its executor pods.
#[derive(Debug)]
pub struct DriverRbac {
    pub namespace: String,
    pub service_account_name: String,
    pub role_name: String,
    pub binding_name: String,
    pub labels: StringMap,
    pub owner_reference: OwnerReference,
    pub rule: PolicyRule,
    pub role_ref_api_group: String,
    pub role_ref_kind: String,
    pub subject_kind: String,
}

/// What `driver_rbac` produces for a job.
pub open spec fn driver_rbac_spec(r: DriverRbac, namespace: Seq<char>, job_name: Seq<char>, owner: OwnerReference) -> bool {
    &&& r.namespace@ == namespace
    &&& r.service_account_name@ == driver_name_spec(job_name)
    &&& r.role_name@ == job_name + "-spark-role"@
    &&& r.binding_name@ == job_name + "-spark-binding"@
    &&& r.labels@ == job_labels_spec(job_name, "driver-rbac"@)
    &&& r.owner_reference.same(owner)
    &&& views(r.rule.api_groups@) == seq![Seq::<char>::empty()]
    &&& views(r.rule.resources@) == seq!["pods"@, "services"@, "configmaps"@]
    &&& views(r.rule.verbs@) == seq!["get"@, "list"@, "watch"@, "create"@, "update"@, "patch"@, "delete"@]
    &&& r.role_ref_api_group@ == "rbac.authorization.k8s.io"@
    &&& r.role_ref_kind@ == "Role"@
    &&& r.subject_kind@ == "ServiceAccount"@
}

/// The RBAC objects of a job's driver: a ServiceAccount named like the
/// driver, a Role granting full control of pods, services and config maps
/// in the namespace, and a RoleBinding of the one to the other.
pub fn driver_rbac(namespace: &str, job_name: &str, owner_ref: &OwnerReference) -> (r: DriverRbac)
    ensures
        driver_rbac_spec(r, namespace@, job_name@, *owner_ref),
{
    let mut api_groups: Vec<String> = Vec::new();
    assert(views(api_groups@) =~= Seq::empty());
    push_string(&mut api_groups, String::new());
    assert(views(api_groups@) =~= seq![Seq::<char>::empty()]);
    let mut resources: Vec<String> = Vec::new();
    assert(views(resources@) =~= Seq::empty());
    push_str(&mut resources, "pods");
    push_str(&mut resources, "services");
    push_str(&mut resources, "configmaps");
    assert(views(resources@) =~= seq!["pods"@, "services"@, "configmaps"@]);
    let mut verbs: Vec<String> = Vec::new();
    assert(views(verbs@) =~= Seq::empty());
    push_str(&mut verbs, "get");
    push_str(&mut verbs, "list");
    push_str(&mut verbs, "watch");
    push_str(&mut verbs, "create");
    push_str(&mut verbs, "update");
    push_str(&mut verbs, "patch");
    push_str(&mut verbs, "delete");
    assert(views(verbs@) =~= seq!["get"@, "list"@, "watch"@, "create"@, "update"@, "patch"@, "delete"@]);
    let mut role_name = String::from_str(job_name);
    role_name.append("-spark-role");
    let mut binding_name = String::from_str(job_name);
    binding_name.append("-spark-binding");
    DriverRbac {
        namespace: String::from_str(namespace),
        service_account_name: driver_sa_name(job_name),
        role_name,
        binding_name,
        labels: job_labels(job_name, "driver-rbac"),
        owner_reference: owner_ref.clone(),
        rule: PolicyRule { api_groups, resources, verbs },
        role_ref_api_group: String::from_str("rbac.authorization.k8s.io"),
        role_ref_kind: String::from_str("Role"),
        subject_kind: String::from_str("ServiceAccount"),
    }
}

/// The Volcano PodGroup a job is gang-scheduled with.
#[derive(Debug)]
pub struct PodGroupIntent {
    pub job_name: String,
    /// The Volcano queue, which is the job's tenant.
    pub queue: String,
    /// Pods that must be placed together: the executors and the driver.
    pub min_member: u32,
}

/// The PodGroup for a job: queued under its tenant, with the driver and
/// all executors as one gang.
pub fn podgroup_intent(job_name: &str, tenant: &str, num_executors: u32) -> (g: PodGroupIntent)
    requires
        num_executors < u32::MAX,
    ensures
        g.job_name@ == job_name@,
        g.queue@ == tenant@,
        g.min_member == num_executors + 1,
{
    PodGroupIntent {
        job_name: String::from_str(job_name),
        queue: String::from_str(tenant),
        min_member: num_executors + 1,
    }
}

/// The label selector of a job's executor pods.
pub open spec fn executor_selector_spec(job_name: Seq<char>) -> Seq<char> {
    "crucible.dev/job="@ + job_name + ",crucible.dev/role=executor"@
}

/// Label selector matching the executor pods of a job.
pub fn executor_label_selector(job_name: &str) -> (s: String)
    ensures
        s@ == executor_selector_spec(job_name@),
{
    let mut s = String::from_str("crucible.dev/job=");
    s.append(job_name);
    s.append(",crucible.dev/role=executor");
    s
}

/// The URL of a running driver's Spark UI.
pub open spec fn driver_ui_url_spec(driver_pod: Seq<char>, namespace: Seq<char>) -> Seq<char> {
    "http://"@ + driver_pod + "."@ + namespace + ":4040"@
}

/// The URL of a running driver's Spark UI.
pub fn driver_ui_url(driver_pod: &str, namespace: &str) -> (s: String)
    ensures
        s@ == driver_ui_url_spec(driver_pod@, namespace@),
{
    let mut s = String::from_str("http://");
    s.append(driver_pod);
    s.append(".");
    s.append(namespace);
    s.append(":4040");
    s
}

/// The platform a job uses: the first one listed in its namespace, known
/// as `unknown` when it has no name; none listed is an error.
pub fn select_platform_name(names: &Vec<Option<String>>, namespace: &str) -> (r: Result<String, String>)
    ensures
        names@.len() == 0 <==> r is Err,
        r matches Err(e) ==> e@ == "no CruciblePlatform found in namespace "@ + namespace@,
        r matches Ok(n) ==> n@ == (match names@[0] {
            Some(x) => x@,
            None => "unknown"@,
        }),
{
    if names.len() == 0 {
        let mut e = String::from_str("no CruciblePlatform found in namespace ");
        e.append(namespace);
        Err(e)
    } else {
        match &names[0] {
            Some(x) => Ok(x.clone()),
            None => Ok(String::from_str("unknown")),
        }
    }
}

/// The names that are present, in order.
pub open spec fn present_names(names: Seq<Option<String>>) -> Seq<Seq<char>>
    decreases names.len(),
{
    if names.len() == 0 {
        Seq::empty()
    } else {
        let rest = present_names(names.drop_last());
        match names.last() {
            Some(n) => rest.push(n@),
            None => rest,
        }
    }
}

/// The executor pod names of a listing, skipping pods without a name.
pub fn executor_pod_names(names: &Vec<Option<String>>) -> (r: Vec<String>)
    ensures
        views(r@) == present_names(names@),
{
    let mut r: Vec<String> = Vec::new();
    assert(views(r@) =~= Seq::empty());
    assert(names@.take(0) =~= Seq::<Option<String>>::empty());
    let n = names.len();
    for i in 0..n
        invariant
            n == names@.len(),
            views(r@) == present_names(names@.take(i as int)),
    {
        proof {
            assert(names@.take(i + 1).drop_last() =~= names@.take(i as int));
        }
        match &names[i] {
            Some(x) => push_string(&mut r, x.clone()),
            None => {},
        }
    }
    assert(names@.take(n as int) =~= names@);
    r
}

/// The message of a failed driver: the first container termination
/// message, or `driver pod failed` when there is none.
pub open spec fn pod_error_spec(messages: Seq<Option<String>>) -> Seq<char>
    decreases messages.len(),
{
    if messages.len() == 0 {
        "driver pod failed"@
    } else {
        match messages[0] {
            Some(m) => m@,
            None => pod_error_spec(messages.drop_first()),
        }
    }
}

/// Extracts the error message of a failed driver pod from the termination
/// messages of its containers (in container status order).
pub fn pod_error_message(terminated_messages: &Vec<Option<String>>) -> (m: String)
    ensures
        m@ == pod_error_spec(terminated_messages@),
{
    let n = terminated_messages.len();
    assert(terminated_messages@.skip(0) =~= terminated_messages@);
    for i in 0..n
        invariant
            n == terminated_messages@.len(),
            pod_error_spec(terminated_messages@) == pod_error_spec(terminated_messages@.skip(i as int)),
    {
        proof {
            assert(terminated_messages@.skip(i as int).drop_first() =~= terminated_messages@.skip(i + 1));
        }
        match &terminated_messages[i] {
            Some(m) => {
                return m.clone();
            },
            None => {},
        }
    }
    proof {
        assert(terminated_messages@.skip(n as int) =~= Seq::<Option<String>>::empty());
    }
    String::from_str("driver pod failed")
}

/// Whether a deployment lookup found the deployment with no ready replica.
pub open spec fn has_no_ready_replica(lookup: Option<Option<i32>>) -> bool {
    match lookup {
        Some(ready) => match ready {
            Some(n) => n == 0,
            None => true,
        },
        None => false,
    }
}

/// The ready and desired worker counts of a Celeborn worker lookup: the
/// reported ready replicas (0 when absent) and the requested replicas (1
/// when absent).
pub open spec fn worker_counts(workers: (Option<i32>, Option<i32>)) -> (int, int) {
    (
        match workers.0 {
            Some(n) => n as int,
            None => 0,
        },
        match workers.1 {
            Some(n) => n as int,
            None => 1,
        },
    )
}

/// Whether a Celeborn worker lookup found fewer ready workers than wanted.
pub open spec fn workers_short(lookup: Option<(Option<i32>, Option<i32>)>) -> bool {
    lookup matches Some(w) && worker_counts(w).0 < worker_counts(w).1
}

/// The note on a shortage of Celeborn workers, with both counts.
pub open spec fn worker_note(ready: int, desired: int) -> Seq<char> {
    " [PLATFORM] Celeborn workers "@ + signed_decimal(ready) + "/"@ + signed_decimal(desired)
        + " ready \u{2014} shuffle service unavailable"@
}

/// The failure message with platform context: notes on a Celeborn master
/// or Volcano scheduler that exists but has no ready replica, and on a
/// Celeborn worker set with fewer ready workers than it asks for.
pub open spec fn enrich_error_spec(
    base: Seq<char>,
    celeborn: Option<Option<i32>>,
    celeborn_workers: Option<(Option<i32>, Option<i32>)>,
    volcano: Option<Option<i32>>,
) -> Seq<char> {
    base + (if has_no_ready_replica(celeborn) {
        " [PLATFORM] Celeborn master has 0 ready replicas \u{2014} shuffle service unavailable"@
    } else {
        Seq::empty()
    }) + (if workers_short(celeborn_workers) {
        worker_note(worker_counts(celeborn_workers->0).0, worker_counts(celeborn_workers->0).1)
    } else {
        Seq::empty()
    }) + (if has_no_ready_replica(volcano) {
        " [PLATFORM] Volcano scheduler has 0 ready replicas \u{2014} job scheduling may fail"@
    } else {
        Seq::empty()
    })
}

/// Enriches a driver failure message with the health of the platform.
///
/// `celeborn` and `volcano` are the lookups of the Celeborn master and
/// Volcano scheduler deployments: `None` when the lookup failed, else the
/// deployment's ready replica count as reported (which may be absent).
/// `celeborn_workers` is the lookup of the Celeborn worker set: its
/// reported ready replicas and its requested replicas.
pub fn enrich_error(
    base: &str,
    celeborn: Option<Option<i32>>,
    celeborn_workers: Option<(Option<i32>, Option<i32>)>,
    volcano: Option<Option<i32>>,
) -> (s: String)
    ensures
        s@ == enrich_error_spec(base@, celeborn, celeborn_workers, volcano),
{
    let mut s = String::from_str(base);
    let ghost s0 = s@;
    let c = match celeborn {
        Some(ready) => match ready {
            Some(n) => n == 0,
            None => true,
        },
        None => false,
    };
    if c {
        s.append(" [PLATFORM] Celeborn master has 0 ready replicas \u{2014} shuffle service unavailable");
    }
    let ghost s1 = s@;
    match celeborn_workers {
        Some(w) => {
            let ready: i32 = match w.0 {
                Some(n) => n,
                None => 0,
            };
            let desired: i32 = match w.1 {
                Some(n) => n,
                None => 1,
            };
            if ready < desired {
                s.append(" [PLATFORM] Celeborn workers ");
                s.append(i32_to_decimal(ready).as_str());
                s.append("/");
                s.append(i32_to_decimal(desired).as_str());
                s.append(" ready \u{2014} shuffle service unavailable");
                proof {
                    assert(s@ =~= s1 + worker_note(ready as int, desired as int));
                }
            }
        },
        None => {},
    }
    let ghost s2 = s@;
    let v = match volcano {
        Some(ready) => match ready {
            Some(n) => n == 0,
            None => true,
        },
        None => false,
    };
    if v {
        s.append(" [PLATFORM] Volcano scheduler has 0 ready replicas \u{2014} job scheduling may fail");
    }
    proof {
        let e: Seq<char> = Seq::empty();
        assert(s1 == s0 + (if has_no_ready_replica(celeborn) {
            " [PLATFORM] Celeborn master has 0 ready replicas \u{2014} shuffle service unavailable"@
        } else {
            e
        })) by {
            assert(s0 + e =~= s0);
        }
        assert(s2 == s1 + (if workers_short(celeborn_workers) {
            worker_note(worker_counts(celeborn_workers->0).0, worker_counts(celeborn_workers->0).1)
        } else {
            e
        })) by {
            assert(s1 + e =~= s1);
        }
        assert(s@ == s2 + (if has_no_ready_replica(volcano) {
            " [PLATFORM] Volcano scheduler has 0 ready replicas \u{2014} job scheduling may fail"@
        } else {
            e
        })) by {
            assert(s2 + e =~= s2);
        }
    }
    s
}

/// The phase a job is in: the recorded one, or `Submitted` when the job
/// has no status or no phase yet.
pub open spec fn current_phase_spec(status: Option<CrucibleSparkJobStatus>) -> JobPhase {
    match status {
        Some(s) => match s.phase {
            Some(p) => p,
            None => JobPhase::Submitted,
        },
        None => JobPhase::Submitted,
    }
}

/// The phase a job is in.
pub fn current_phase(status: &Option<CrucibleSparkJobStatus>) -> (p: JobPhase)
    ensures
        p == current_phase_spec(*status),
{
    match status {
        Some(s) => match s.phase {
            Some(p) => p,
            None => JobPhase::Submitted,
        },
        None => JobPhase::Submitted,
    }
}

/// Whether the job's recorded phase is terminal, so that there is nothing
/// left to reconcile.
pub fn is_finished(status: &Option<CrucibleSparkJobStatus>) -> (b: bool)
    ensures
        b == (status matches Some(s) && s.phase matches Some(p) && p.terminal()),
{
    match status {
        Some(s) => match s.phase {
            Some(p) => p.is_terminal(),
            None => false,
        },
        None => false,
    }
}

/// All fields but the named ones are equal.
pub open spec fn same_except_phase_times_error(a: CrucibleSparkJobStatus, b: CrucibleSparkJobStatus) -> bool {
    &&& a.driver_pod == b.driver_pod
    &&& a.executor_pods == b.executor_pods
    &&& a.ui_url == b.ui_url
    &&& a.start_time == b.start_time
}

/// The status after the driver pod of a submitted job was created: still
/// submitted, with its driver pod and the time it was (re)submitted.
pub fn mark_submitted(status: CrucibleSparkJobStatus, driver_pod: String, now: String) -> (r: CrucibleSparkJobStatus)
    ensures
        r.phase == Some(JobPhase::Submitted),
        opt_view(r.driver_pod) == Some(driver_pod@),
        opt_view(r.start_time) == Some(now@),
        r.executor_pods == status.executor_pods,
        r.ui_url == status.ui_url,
        r.error == status.error,
        r.end_time == status.end_time,
{
    CrucibleSparkJobStatus {
        phase: Some(JobPhase::Submitted),
        driver_pod: Some(driver_pod),
        start_time: Some(now),
        ..status
    }
}

/// The phase of a pod as the controller distinguishes it.
#[derive(Debug, Clone, Copy, PartialEq, Eq, Structural)]
pub enum PodPhase {
    Running,
    Succeeded,
    Failed,
    /// Pending, unknown, or not reported.
    Other,
}

/// Classifies a pod's reported phase (`Running`, `Succeeded`, `Failed`;
/// anything else, or nothing, is `Other`).
pub fn classify_pod_phase(phase: &Option<String>) -> (p: PodPhase)
    ensures
        p == (match *phase {
            Some(s) => if s@ == "Running"@ {
                PodPhase::Running
            } else if s@ == "Succeeded"@ {
                PodPhase::Succeeded
            } else if s@ == "Failed"@ {
                PodPhase::Failed
            } else {
                PodPhase::Other
            },
            None => PodPhase::Other,
        }),
{
    match phase {
        Some(s) => {
            if str_eq(s.as_str(), "Running") {
                PodPhase::Running
            } else if str_eq(s.as_str(), "Succeeded") {
                PodPhase::Succeeded
            } else if str_eq(s.as_str(), "Failed") {
                PodPhase::Failed
            } else {
                PodPhase::Other
            }
        },
        None => PodPhase::Other,
    }
}

/// What the controller saw of the driver of a running job.
#[derive(Debug)]
pub enum RunningObservation {
    /// The driver finished successfully.
    Succeeded,
    /// The driver failed; the message carries the platform context.
    Failed(String),
    /// The driver pod no longer exists.
    Missing,
    /// The driver is still going; these are the current executor pods.
    Active(Vec<String>),
}

/// The status `r` of a running job `status` after `obs` at `now`:
/// completed, failed (with the error), failed because the driver is gone,
/// or still running with the current executor list.
pub open spec fn running_outcome(
    r: CrucibleSparkJobStatus,
    status: CrucibleSparkJobStatus,
    obs: RunningObservation,
    now: Seq<char>,
) -> bool {
    match obs {
        RunningObservation::Succeeded => r.phase == Some(JobPhase::Completed) && opt_view(r.end_time) == Some(now)
            && r.error == status.error && same_except_phase_times_error(r, status),
        RunningObservation::Failed(m) => r.phase == Some(JobPhase::Failed) && opt_view(r.error) == Some(m@)
            && opt_view(r.end_time) == Some(now) && same_except_phase_times_error(r, status),
        RunningObservation::Missing => r.phase == Some(JobPhase::Failed)
            && opt_view(r.error) == Some("driver pod not found"@) && opt_view(r.end_time) == Some(now)
            && same_except_phase_times_error(r, status),
        RunningObservation::Active(pods) => r.executor_pods == pods && r.phase == status.phase
            && r.error == status.error && r.end_time == status.end_time && r.driver_pod == status.driver_pod
            && r.ui_url == status.ui_url && r.start_time == status.start_time,
    }
}

/// The status of a running job after observing its driver (see
/// `running_outcome`).
pub fn observe_running(status: CrucibleSparkJobStatus, obs: RunningObservation, now: String) -> (r: CrucibleSparkJobStatus)
    ensures
        running_outcome(r, status, obs, now@),
        status.phase == Some(JobPhase::Running) ==> (r.phase == Some(JobPhase::Running)
            || JobPhase::Running.allows(r.phase->0)),
        (r.phase matches Some(p) && p.terminal() && r.phase != status.phase) ==> r.end_time is Some,
        r.phase == Some(JobPhase::Failed) && r.phase != status.phase ==> r.error is Some,
{
    match obs {
        RunningObservation::Succeeded => CrucibleSparkJobStatus {
            phase: Some(JobPhase::Completed),
            end_time: Some(now),
            ..status
        },
        RunningObservation::Failed(m) => CrucibleSparkJobStatus {
            phase: Some(JobPhase::Failed),
            error: Some(m),
            end_time: Some(now),
            ..status
        },
        RunningObservation::Missing => CrucibleSparkJobStatus {
            phase: Some(JobPhase::Failed),
            error: Some(String::from_str("driver pod not found")),
            end_time: Some(now),
            ..status
        },
        RunningObservation::Active(pods) => CrucibleSparkJobStatus { executor_pods: pods, ..status },
    }
}

/// The driver pod to look at for a running job: the recorded one, or the
/// job's own driver name when none is recorded.
pub fn running_driver(status: &CrucibleSparkJobStatus, job_name: &str) -> (d: String)
    ensures
        d@ == (match status.driver_pod {
            Some(p) => p@,
            None => driver_name_spec(job_name@),
        }),
{
    match &status.driver_pod {
        Some(p) => p.clone(),
        None => driver_pod_name(job_name),
    }
}

/// The driver pod to look at once a pass has dealt with a job: the
/// recorded driver while the job is still submitted, so that a driver that
/// started (or already ended) is seen in the same pass; otherwise none.
pub fn submitted_driver_to_check(status: &CrucibleSparkJobStatus) -> (d: Option<String>)
    ensures
        d is Some <==> (status.phase == Some(JobPhase::Submitted) && status.driver_pod is Some),
        d matches Some(x) ==> x@ == status.driver_pod->0@,
{
    match status.phase {
        Some(JobPhase::Submitted) => match &status.driver_pod {
            Some(p) => Some(p.clone()),
            None => None,
        },
        _ => None,
    }
}

/// What the controller saw of the driver of a submitted job.
#[derive(Debug)]
pub enum SubmittedObservation {
    /// The driver pod is running.
    Running,
    /// The driver already finished successfully. The job still goes
    /// through `Running`; the next pass sees the driver done and completes it.
    Succeeded,
    /// The driver failed; the message carries the platform context.
    Failed(String),
    /// The driver is pending, or could not be read.
    Pending,
}

/// The status `r` of job `status` after `obs` of its driver at `now`. A
/// job that is not in the submitted phase, or has no driver pod recorded,
/// is left as it is. A driver that runs, or has already finished, makes
/// the job running and publishes its UI: a submitted job never skips
/// `Running`.
pub open spec fn submitted_outcome(
    r: CrucibleSparkJobStatus,
    status: CrucibleSparkJobStatus,
    namespace: Seq<char>,
    obs: SubmittedObservation,
    now: Seq<char>,
) -> bool {
    if status.phase == Some(JobPhase::Submitted) && status.driver_pod is Some {
        match obs {
            SubmittedObservation::Running | SubmittedObservation::Succeeded => r.phase == Some(JobPhase::Running)
                && opt_view(r.ui_url) == Some(driver_ui_url_spec(status.driver_pod->0@, namespace))
                && r.driver_pod == status.driver_pod && r.executor_pods == status.executor_pods
                && r.error == status.error && r.start_time == status.start_time && r.end_time == status.end_time,
            SubmittedObservation::Failed(m) => r.phase == Some(JobPhase::Failed) && opt_view(r.error) == Some(m@)
                && opt_view(r.end_time) == Some(now) && same_except_phase_times_error(r, status),
            SubmittedObservation::Pending => r == status,
        }
    } else {
        r == status
    }
}

/// The status of a submitted job after observing its driver (see
/// `submitted_outcome`).
pub fn observe_submitted(
    status: CrucibleSparkJobStatus,
    namespace: &str,
    obs: SubmittedObservation,
    now: String,
) -> (r: CrucibleSparkJobStatus)
    ensures
        submitted_outcome(r, status, namespace@, obs, now@),
        status.phase == Some(JobPhase::Submitted) ==> (r.phase == Some(JobPhase::Submitted)
            || JobPhase::Submitted.allows(r.phase->0)),
        (r.phase matches Some(p) && p.terminal() && r.phase != status.phase) ==> r.end_time is Some,
        r.phase == Some(JobPhase::Failed) && r.phase != status.phase ==> r.error is Some,
{
    let submitted = match status.phase {
        Some(JobPhase::Submitted) => true,
        _ => false,
    };
    if !submitted || status.driver_pod.is_none() {
        return status;
    }
    match obs {
        SubmittedObservation::Running | SubmittedObservation::Succeeded => {
            let url = match &status.driver_pod {
                Some(d) => driver_ui_url(d.as_str(), namespace),
                None => String::new(),
            };
            let r = CrucibleSparkJobStatus { phase: Some(JobPhase::Running), ui_url: Some(url), ..status };
            assert(JobPhase::Submitted.allows(JobPhase::Running));
            r
        },
        SubmittedObservation::Failed(m) => {
            let r = CrucibleSparkJobStatus {
                phase: Some(JobPhase::Failed),
                error: Some(m),
                end_time: Some(now),
                ..status
            };
            assert(JobPhase::Submitted.allows(JobPhase::Failed));
            r
        },
        SubmittedObservation::Pending => status,
    }
}

/// What a reconcile pass of an active job has just learnt.
#[derive(Debug)]
pub enum PassEvent {
    /// The pass starts.
    Begin,
    /// The driver's RBAC objects and the driver pod `driver` were applied.
    DriverCreated { driver: String, now: String },
    /// The driver of a running job was observed.
    RunningDriverSeen { observation: RunningObservation, now: String },
    /// The driver of a submitted job was observed.
    SubmittedDriverSeen { observation: SubmittedObservation, now: String },
    /// The driver of a submitted job could not be read.
    SubmittedDriverUnread,
}

/// What a reconcile pass does next.
#[derive(Debug)]
pub enum PassAction {
    /// Apply the driver's RBAC objects and the driver pod.
    CreateDriver,
    /// Read this driver pod of a running job.
    WatchRunningDriver(String),
    /// Read this driver pod of a submitted job.
    CheckSubmittedDriver(String),
    /// The pass is over: record the status.
    Finish,
}

/// The last action of a pass on status `s`: look at the recorded driver
/// while the job is submitted, else finish.
pub open spec fn check_or_finish(a: PassAction, s: CrucibleSparkJobStatus) -> bool {
    if s.phase == Some(JobPhase::Submitted) && s.driver_pod is Some {
        a matches PassAction::CheckSubmittedDriver(d) && d@ == s.driver_pod->0@
    } else {
        a is Finish
    }
}

/// The phase a status stands for (`Submitted` when it records none).
pub open spec fn job_phase_of(s: CrucibleSparkJobStatus) -> JobPhase {
    current_phase_spec(Some(s))
}

/// What one step of a reconcile pass of job `job_name` in `namespace`
/// gives (see `reconcile_step`): the new status and next action `r` from
/// the status so far and the event just learnt.
pub open spec fn step_outcome(
    status: CrucibleSparkJobStatus,
    job_name: Seq<char>,
    namespace: Seq<char>,
    event: PassEvent,
    r: (CrucibleSparkJobStatus, PassAction),
) -> bool {
    match event {
        PassEvent::Begin => r.0 == status && (match job_phase_of(status) {
            JobPhase::Submitted => r.1 is CreateDriver,
            JobPhase::Running => r.1 matches PassAction::WatchRunningDriver(d) && d@ == (
            match status.driver_pod {
                Some(p) => p@,
                None => driver_name_spec(job_name),
            }),
            _ => check_or_finish(r.1, status),
        }),
        PassEvent::DriverCreated { driver, now } => if job_phase_of(status) is Submitted {
            &&& r.0.phase == Some(JobPhase::Submitted)
            &&& opt_view(r.0.driver_pod) == Some(driver@)
            &&& opt_view(r.0.start_time) == Some(now@)
            &&& r.0.executor_pods == status.executor_pods && r.0.ui_url == status.ui_url
            &&& r.0.error == status.error && r.0.end_time == status.end_time
            &&& r.1 matches PassAction::CheckSubmittedDriver(d) && d@ == driver@
        } else {
            r.0 == status && r.1 is Finish
        },
        PassEvent::RunningDriverSeen { observation, now } => r.1 is Finish && if job_phase_of(status) is Running {
            running_outcome(r.0, status, observation, now@)
        } else {
            r.0 == status
        },
        PassEvent::SubmittedDriverSeen { observation, now } => r.1 is Finish && submitted_outcome(
            r.0,
            status,
            namespace,
            observation,
            now@,
        ),
        PassEvent::SubmittedDriverUnread => r.0 == status && r.1 is Finish,
    }
}

/// One step keeps the job's phase or moves it along a transition the state
/// machine allows, and a step that changes the phase ends the pass.
pub proof fn lemma_step_phase(
    status: CrucibleSparkJobStatus,
    job_name: Seq<char>,
    namespace: Seq<char>,
    event: PassEvent,
    r: (CrucibleSparkJobStatus, PassAction),
)
    requires
        step_outcome(status, job_name, namespace, event, r),
    ensures
        job_phase_of(r.0) == job_phase_of(status) || job_phase_of(status).allows(job_phase_of(r.0)),
        job_phase_of(r.0) != job_phase_of(status) ==> r.1 is Finish,
{
    assert(JobPhase::Running.allows(JobPhase::Completed));
    assert(JobPhase::Running.allows(JobPhase::Failed));
    assert(JobPhase::Submitted.allows(JobPhase::Running));
    assert(JobPhase::Submitted.allows(JobPhase::Failed));
}

/// The phase law over a whole reconcile pass. Take the statuses
/// `statuses[0..=n]` and the events and actions of `n` steps, where step
/// `i` took `statuses[i]` and `events[i]` to `statuses[i + 1]` and
/// `actions[i]`, and every action but the last went on with the pass. Then
/// every status before the last keeps the phase the pass started in, and
/// the last is in that phase or in one the state machine allows from it:
/// a pass changes the phase at most once, and only by an allowed
/// transition.
pub proof fn lemma_pass_phase(
    statuses: Seq<CrucibleSparkJobStatus>,
    events: Seq<PassEvent>,
    actions: Seq<PassAction>,
    job_name: Seq<char>,
    namespace: Seq<char>,
)
    requires
        events.len() == actions.len(),
        statuses.len() == events.len() + 1,
        forall|i: int| 0 <= i < events.len() ==> #[trigger] step_outcome(
            statuses[i],
            job_name,
            namespace,
            events[i],
            (statuses[i + 1], actions[i]),
        ),
        forall|i: int| 0 <= i < actions.len() - 1 ==> !(#[trigger] actions[i] is Finish),
    ensures
        forall|i: int| 0 <= i < statuses.len() - 1 ==> job_phase_of(#[trigger] statuses[i]) == job_phase_of(statuses[0]),
        job_phase_of(statuses.last()) == job_phase_of(statuses[0]) || job_phase_of(statuses[0]).allows(
            job_phase_of(statuses.last()),
        ),
    decreases events.len(),
{
    let n = events.len() as int;
    if n > 0 {
        let s2 = statuses.drop_last();
        let e2 = events.drop_last();
        let a2 = actions.drop_last();
        assert forall|i: int| 0 <= i < e2.len() implies #[trigger] step_outcome(
            s2[i],
            job_name,
            namespace,
            e2[i],
            (s2[i + 1], a2[i]),
        ) by {
            assert(step_outcome(statuses[i], job_name, namespace, events[i], (statuses[i + 1], actions[i])));
        }
        assert forall|i: int| 0 <= i < a2.len() - 1 implies !(#[trigger] a2[i] is Finish) by {
            assert(!(actions[i] is Finish));
        }
        lemma_pass_phase(s2, e2, a2, job_name, namespace);
        assert(step_outcome(statuses[n - 1], job_name, namespace, events[n - 1], (statuses[n], actions[n - 1])));
        lemma_step_phase(statuses[n - 1], job_name, namespace, events[n - 1], (statuses[n], actions[n - 1]));
        if n > 1 {
            assert(s2.last() == statuses[n - 1]);
            assert(!(actions[n - 2] is Finish));
            let j = n - 2;
            assert(step_outcome(statuses[j], job_name, namespace, events[j], (statuses[j + 1], actions[j])));
            lemma_step_phase(statuses[j], job_name, namespace, events[j], (statuses[j + 1], actions[j]));
            assert(s2[j] == statuses[j] && s2[0] == statuses[0]);
            assert(job_phase_of(s2[j]) == job_phase_of(s2[0]));
            assert(job_phase_of(statuses[n - 1]) == job_phase_of(statuses[0]));
        }
        assert forall|i: int| 0 <= i < statuses.len() - 1 implies job_phase_of(#[trigger] statuses[i]) == job_phase_of(
            statuses[0],
        ) by {
            if i < n - 1 {
                assert(s2[i] == statuses[i]);
            }
        }
    }
}

/// One step of a reconcile pass of an active job of name `job_name` in
/// `namespace`: from the status so far and what was just learnt, the new
/// status and what to do next. A pass begins by creating the driver of a
/// submitted job, or by watching the driver of a running one, and ends by
/// looking once more at the driver of a job that is still submitted. An
/// observation that does not fit the job's phase changes nothing.
pub fn reconcile_step(
    status: CrucibleSparkJobStatus,
    job_name: &str,
    namespace: &str,
    event: PassEvent,
) -> (r: (CrucibleSparkJobStatus, PassAction))
    ensures
        step_outcome(status, job_name@, namespace@, event, r),
        job_phase_of(r.0) == job_phase_of(status) || job_phase_of(status).allows(job_phase_of(r.0)),
        job_phase_of(r.0) != job_phase_of(status) ==> r.1 is Finish,
{
    let phase = match status.phase {
        Some(p) => p,
        None => JobPhase::Submitted,
    };
    match event {
        PassEvent::Begin => match phase {
            JobPhase::Submitted => (status, PassAction::CreateDriver),
            JobPhase::Running => {
                let d = running_driver(&status, job_name);
                (status, PassAction::WatchRunningDriver(d))
            },
            _ => match submitted_driver_to_check(&status) {
                Some(d) => (status, PassAction::CheckSubmittedDriver(d)),
                None => (status, PassAction::Finish),
            },
        },
        PassEvent::DriverCreated { driver, now } => match phase {
            JobPhase::Submitted => {
                let s = mark_submitted(status, driver, now);
                match submitted_driver_to_check(&s) {
                    Some(c) => (s, PassAction::CheckSubmittedDriver(c)),
                    None => (s, PassAction::Finish),
                }
            },
            _ => (status, PassAction::Finish),
        },
        PassEvent::RunningDriverSeen { observation, now } => match phase {
            JobPhase::Running => {
                let s = observe_running(status, observation, now);
                proof {
                    assert(JobPhase::Running.allows(JobPhase::Completed));
                    assert(JobPhase::Running.allows(JobPhase::Failed));
                }
                (s, PassAction::Finish)
            },
            _ => (status, PassAction::Finish),
        },
        PassEvent::SubmittedDriverSeen { observation, now } => {
            let s = observe_submitted(status, namespace, observation, now);
            proof {
                assert(JobPhase::Submitted.allows(JobPhase::Running));
                assert(JobPhase::Submitted.allows(JobPhase::Failed));
            }
            (s, PassAction::Finish)
        },
        PassEvent::SubmittedDriverUnread => (status, PassAction::Finish),
    }
}

/// The status recorded when a reconcile pass itself failed: the job fails
/// with the error, keeping what was recorded before.
pub fn failed_status(previous: Option<CrucibleSparkJobStatus>, error: String, now: String) -> (r: CrucibleSparkJobStatus)
    ensures
        r.phase == Some(JobPhase::Failed),
        opt_view(r.error) == Some(error@),
        opt_view(r.end_time) == Some(now@),
        previous matches Some(p) ==> same_except_phase_times_error(r, p),
        previous is None ==> r.driver_pod is None && r.executor_pods@.len() == 0 && r.ui_url is None
            && r.start_time is None,
        !current_phase_spec(previous).terminal() ==> current_phase_spec(previous).allows(JobPhase::Failed),
{
    let base = match previous {
        Some(p) => p,
        None => CrucibleSparkJobStatus::default(),
    };
    CrucibleSparkJobStatus {
        phase: Some(JobPhase::Failed),
        error: Some(error),
        end_time: Some(now),
        ..base
    }
}

/// When to reconcile a job again.
#[derive(Debug, Clone, Copy, PartialEq, Eq, Structural)]
pub enum RequeueAction {
    /// Only when the resource changes.
    AwaitChange,
    /// After this many milliseconds.
    AfterMillis(u64),
}

/// A finished job waits for changes; an active one is polled every 5 s.
pub fn requeue_after_status(status: &CrucibleSparkJobStatus) -> (a: RequeueAction)
    ensures
        a == (if status.phase matches Some(p) && p.terminal() {
            RequeueAction::AwaitChange
        } else {
            RequeueAction::AfterMillis(5000)
        }),
{
    match status.phase {
        Some(p) => if p.is_terminal() {
            RequeueAction::AwaitChange
        } else {
            RequeueAction::AfterMillis(5000)
        },
        None => RequeueAction::AfterMillis(5000),
    }
}

/// The finalizer that makes deletion wait for the job's pods to be removed.
pub open spec fn cleanup_finalizer() -> Seq<char> {
    "crucible.dev/spark-job-cleanup"@
}

/// The name of the cleanup finalizer.
pub fn cleanup_finalizer_name() -> (s: String)
    ensures
        s@ == cleanup_finalizer(),
{
    String::from_str("crucible.dev/spark-job-cleanup")
}

/// Whether the job's finalizers include the cleanup finalizer.
pub fn has_cleanup_finalizer(finalizers: &Option<Vec<String>>) -> (b: bool)
    ensures
        b == (match *finalizers {
            Some(f) => views(f@).contains(cleanup_finalizer()),
            None => false,
        }),
{
    match finalizers {
        Some(f) => {
            let n = f.len();
            for i in 0..n
                invariant
                    n == f@.len(),
                    *finalizers == Some(*f),
                    forall|j: int| 0 <= j < i ==> views(f@)[j] != cleanup_finalizer(),
            {
                if str_eq(f[i].as_str(), "crucible.dev/spark-job-cleanup") {
                    assert(views(f@)[i as int] == cleanup_finalizer());
                    assert(views(f@).contains(cleanup_finalizer()));
                    return true;
                }
            }
            false
        },
        None => false,
    }
}

/// The finalizers without the cleanup finalizer, in order.
pub open spec fn without_cleanup(f: Seq<Seq<char>>) -> Seq<Seq<char>> {
    f.filter(|x: Seq<char>| x != cleanup_finalizer())
}

/// The finalizers left once cleanup is done (none when there were none).
pub fn finalizers_after_cleanup(finalizers: &Option<Vec<String>>) -> (r: Vec<String>)
    ensures
        views(r@) == (match *finalizers {
            Some(f) => without_cleanup(views(f@)),
            None => Seq::<Seq<char>>::empty(),
        }),
{
    let mut r: Vec<String> = Vec::new();
    assert(views(r@) =~= Seq::empty());
    match finalizers {
        Some(f) => {
            let n = f.len();
            let ghost fv = views(f@);
            assert(fv.take(0) =~= Seq::<Seq<char>>::empty());
            for i in 0..n
                invariant
                    n == f@.len(),
                    fv == views(f@),
                    views(r@) == without_cleanup(fv.take(i as int)),
            {
                proof {
                    assert(fv.take(i + 1).drop_last() =~= fv.take(i as int));
                    assert(fv.take(i + 1).last() == f@[i as int]@);
                    reveal(Seq::filter);
                }
                if !str_eq(f[i].as_str(), "crucible.dev/spark-job-cleanup") {
                    push_string(&mut r, f[i].clone());
                }
            }
            assert(fv.take(n as int) =~= fv);
            r
        },
        None => r,
    }
}

/// The status written when a job is deleted: none when the job is already
/// over, and none for a suspended job, which the state machine does not
/// let be killed (its status is left as it is); otherwise the recorded
/// status (or an empty one) moved to `Killed`, with the time of deletion
/// as its end time and everything else kept.
pub open spec fn deletion_status_spec(
    r: Option<CrucibleSparkJobStatus>,
    status: Option<CrucibleSparkJobStatus>,
    now: Seq<char>,
) -> bool {
    let p = current_phase_spec(status);
    if p.terminal() || p is Suspended {
        r is None
    } else {
        &&& r matches Some(k)
        &&& k.phase == Some(JobPhase::Killed)
        &&& opt_view(k.end_time) == Some(now)
        &&& (status matches Some(s) ==> k.error == s.error && same_except_phase_times_error(k, s))
        &&& (status is None ==> k.error is None && k.driver_pod is None && k.executor_pods@.len() == 0
            && k.ui_url is None && k.start_time is None)
    }
}

/// The status to record for a job that is being deleted (see
/// `deletion_status_spec`). The change it makes is always one that the
/// state machine allows.
pub fn deletion_status(status: Option<CrucibleSparkJobStatus>, now: String) -> (r: Option<CrucibleSparkJobStatus>)
    ensures
        deletion_status_spec(r, status, now@),
        r matches Some(k) ==> current_phase_spec(status).allows(k.phase->0),
{
    let p = current_phase(&status);
    let suspended = match p {
        JobPhase::Suspended => true,
        _ => false,
    };
    if p.is_terminal() || suspended {
        return None;
    }
    let base = match status {
        Some(s) => s,
        None => CrucibleSparkJobStatus::default(),
    };
    Some(CrucibleSparkJobStatus { phase: Some(JobPhase::Killed), end_time: Some(now), ..base })
}

/// What a reconcile pass of a Spark job starts with.
#[derive(Debug)]
pub enum SparkEntryStep {
    /// The job is being deleted: kill its pods, record `status` when there
    /// is one, then keep these finalizers.
    Cleanup { status: Option<CrucibleSparkJobStatus>, remaining_finalizers: Vec<String> },
    /// The cleanup finalizer is missing: add it and look again shortly.
    AddFinalizer,
    /// The job reached a terminal phase: nothing to do until it changes.
    Finished,
    /// Reconcile the job's pods and status.
    Reconcile,
}

/// Decides how a reconcile pass of a Spark job starts: deletion first
/// (a job deleted while active is killed at `now`), then the cleanup
/// finalizer, then whether the job is already over.
pub fn spark_entry_step(
    deleting: bool,
    finalizers: &Option<Vec<String>>,
    status: Option<CrucibleSparkJobStatus>,
    now: String,
) -> (step: SparkEntryStep)
    ensures
        deleting ==> (step matches SparkEntryStep::Cleanup { status: killed, remaining_finalizers }
            && views(remaining_finalizers@) == (match *finalizers {
                Some(f) => without_cleanup(views(f@)),
                None => Seq::<Seq<char>>::empty(),
            })
            && deletion_status_spec(killed, status, now@)),
        !deleting ==> (step is AddFinalizer <==> !(match *finalizers {
            Some(f) => views(f@).contains(cleanup_finalizer()),
            None => false,
        })),
        !deleting && !(step is AddFinalizer) ==> (step is Finished <==> (status matches Some(s)
            && s.phase matches Some(p) && p.terminal())),
        !deleting ==> !(step is Cleanup),
{
    if deleting {
        let remaining_finalizers = finalizers_after_cleanup(finalizers);
        return SparkEntryStep::Cleanup { status: deletion_status(status, now), remaining_finalizers };
    }
    if !has_cleanup_finalizer(finalizers) {
        return SparkEntryStep::AddFinalizer;
    }
    if is_finished(&status) {
        SparkEntryStep::Finished
    } else {
        SparkEntryStep::Reconcile
    }
}

/// The name and namespace a controller works with: `unknown` for an
/// object without a name, `default` for one without a namespace.
pub fn object_key(name: &Option<String>, namespace: &Option<String>) -> (r: (String, String))
    ensures
        r.0@ == (match *name {
            Some(n) => n@,
            None => "unknown"@,
        }),
        r.1@ == (match *namespace {
            Some(n) => n@,
            None => "default"@,
        }),
{
    let n = match name {
        Some(n) => n.clone(),
        None => String::from_str("unknown"),
    };
    let ns = match namespace {
        Some(x) => x.clone(),
        None => String::from_str("default"),
    };
    (n, ns)
}

/// The driver tells Spark to label executors with exactly the labels the
/// controller later selects executors by, so the executors it lists and
/// deletes are the job's own.
pub proof fn lemma_executor_labels_match_selector(
    job_name: Seq<char>,
    namespace: Seq<char>,
    spec: CrucibleSparkJobSpec,
    config: Seq<(Seq<char>, Seq<char>)>,
)
    ensures
        submit_args_spec(job_name, namespace, spec, config).contains(
            "spark.kubernetes.executor.label."@ + ("crucible.dev/job"@ + "="@ + job_name),
        ),
        submit_args_spec(job_name, namespace, spec, config).contains(
            "spark.kubernetes.executor.label."@ + ("crucible.dev/role"@ + "="@ + "executor"@),
        ),
        executor_selector_spec(job_name) == ("crucible.dev/job"@ + "="@ + job_name) + ","@ + (
        "crucible.dev/role"@ + "="@ + "executor"@),
{
    reveal_strlit("spark.kubernetes.executor.label.crucible.dev/job=");
    reveal_strlit("spark.kubernetes.executor.label.");
    reveal_strlit("crucible.dev/job");
    reveal_strlit("=");
    reveal_strlit("spark.kubernetes.executor.label.crucible.dev/role=executor");
    reveal_strlit("crucible.dev/role");
    reveal_strlit("executor");
    reveal_strlit("crucible.dev/job=");
    reveal_strlit(",crucible.dev/role=executor");
    reveal_strlit(",");
    let head = seq![
        "/opt/spark/bin/spark-submit"@,
        "--master"@,
        "k8s://https://kubernetes.default.svc"@,
        "--deploy-mode"@,
        "client"@,
        "--class"@,
        spec.class@,
        "--driver-memory"@,
        driver_memory(spec),
    ];
    let args = submit_args_spec(job_name, namespace, spec, config);
    let off: int = head.len() + conf_args(config).len() as int;
    let job_label = "spark.kubernetes.executor.label."@ + ("crucible.dev/job"@ + "="@ + job_name);
    let role_label = "spark.kubernetes.executor.label."@ + ("crucible.dev/role"@ + "="@ + "executor"@);
    assert(job_label =~= "spark.kubernetes.executor.label.crucible.dev/job="@ + job_name);
    assert(role_label =~= "spark.kubernetes.executor.label.crucible.dev/role=executor"@);
    assert(args[off + 9] == job_label);
    assert(args[off + 11] == role_label);
    assert(executor_selector_spec(job_name) =~= ("crucible.dev/job"@ + "="@ + job_name) + ","@ + (
    "crucible.dev/role"@ + "="@ + "executor"@));
}

/// The driver pod runs under the service account that the driver's RBAC
/// objects create and bind, and that the Spark configuration names.
pub proof fn lemma_driver_identity_consistent(
    pod: PodManifest,
    rbac: DriverRbac,
    job_name: Seq<char>,
    namespace: Seq<char>,
    driver_pod_name: Seq<char>,
    spec: CrucibleSparkJobSpec,
    config: Seq<(Seq<char>, Seq<char>)>,
    owner: OwnerReference,
    image_pull_policy: Seq<char>,
    platform_name: Seq<char>,
)
    requires
        driver_pod_spec(pod, job_name, namespace, driver_pod_name, spec, config, owner, image_pull_policy),
        driver_rbac_spec(rbac, namespace, job_name, owner),
    ensures
        pod.service_account_name@ == rbac.service_account_name@,
        pod.namespace@ == rbac.namespace@,
        spark_defaults_spec(platform_name, namespace, job_name, image_pull_policy)[
            "spark.kubernetes.authenticate.driver.serviceAccountName"@] == pod.service_account_name@,
{
    let d = spark_defaults_spec(platform_name, namespace, job_name, image_pull_policy);
    let k = "spark.kubernetes.authenticate.driver.serviceAccountName"@;
    reveal_strlit("spark.kubernetes.authenticate.driver.serviceAccountName");
    reveal_strlit("spark.decommission.enabled");
    reveal_strlit("spark.storage.decommission.rddBlocks.enabled");
    reveal_strlit("spark.storage.decommission.shuffleBlocks.enabled");
    assert(k.len() != "spark.decommission.enabled"@.len());
    assert(k.len() != "spark.storage.decommission.rddBlocks.enabled"@.len());
    assert(k != "spark.storage.decommission.shuffleBlocks.enabled"@);
}


/// A running job whose driver is still active keeps running: the new
/// status differs from the old one only in its executor list, which is the
/// observed one, whatever it holds (none included). More generally a job's
/// phase changes only when its driver finished, failed or disappeared.
pub proof fn lemma_active_driver_keeps_job(
    r: CrucibleSparkJobStatus,
    status: CrucibleSparkJobStatus,
    obs: RunningObservation,
    now: Seq<char>,
)
    requires
        running_outcome(r, status, obs, now),
    ensures
        obs matches RunningObservation::Active(pods) ==> {
            &&& r.executor_pods == pods
            &&& r.phase == status.phase
            &&& r.error == status.error
            &&& r.end_time == status.end_time
            &&& r.driver_pod == status.driver_pod
            &&& r.ui_url == status.ui_url
            &&& r.start_time == status.start_time
        },
        r.phase != status.phase ==> (obs is Succeeded || obs is Failed || obs is Missing),
{
}

/// Each CPU and memory value of a job is the one its spec sets, and the
/// default (`1` CPU, `1Gi` memory) when that field is not set, whether or
/// not the surrounding resource spec is there. So neither is ever empty
/// unless the spec sets it empty.
pub proof fn lemma_resource_defaults(spec: CrucibleSparkJobSpec)
    ensures
        driver_cpu(spec) == (match spec.driver_resources {
            Some(r) => match r.cpu {
                Some(v) => v@,
                None => "1"@,
            },
            None => "1"@,
        }),
        driver_memory(spec) == (match spec.driver_resources {
            Some(r) => match r.memory {
                Some(v) => v@,
                None => "1Gi"@,
            },
            None => "1Gi"@,
        }),
        executor_cpu(spec) == (match spec.executor_resources {
            Some(r) => match r.cpu {
                Some(v) => v@,
                None => "1"@,
            },
            None => "1"@,
        }),
        executor_memory(spec) == (match spec.executor_resources {
            Some(r) => match r.memory {
                Some(v) => v@,
                None => "1Gi"@,
            },
            None => "1Gi"@,
        }),
        driver_memory(spec).len() == 0 ==> (spec.driver_resources matches Some(r) && r.memory matches Some(v)
            && v@.len() == 0),
        executor_memory(spec).len() == 0 ==> (spec.executor_resources matches Some(r) && r.memory matches Some(v)
            && v@.len() == 0),
{
    reveal_strlit("1Gi");
}

/// The driver pod requests the driver CPU and memory the job sets, with
/// the defaults for what it leaves out, and passes that memory to
/// `spark-submit` right after `--driver-memory`; the executors are asked
/// for their memory the same way.
pub proof fn lemma_driver_pod_resources(
    pod: PodManifest,
    job_name: Seq<char>,
    namespace: Seq<char>,
    driver_pod_name: Seq<char>,
    spec: CrucibleSparkJobSpec,
    config: Seq<(Seq<char>, Seq<char>)>,
    owner: OwnerReference,
    image_pull_policy: Seq<char>,
)
    requires
        driver_pod_spec(pod, job_name, namespace, driver_pod_name, spec, config, owner, image_pull_policy),
    ensures
        pod.containers@[0].resources.memory@ == (match spec.driver_resources {
            Some(r) => match r.memory {
                Some(v) => v@,
                None => "1Gi"@,
            },
            None => "1Gi"@,
        }),
        pod.containers@[0].resources.cpu@ == (match spec.driver_resources {
            Some(r) => match r.cpu {
                Some(v) => v@,
                None => "1"@,
            },
            None => "1"@,
        }),
        submit_args_spec(job_name, namespace, spec, config)[7] == "--driver-memory"@,
        submit_args_spec(job_name, namespace, spec, config)[8] == pod.containers@[0].resources.memory@,
        submit_args_spec(job_name, namespace, spec, config).contains(
            "spark.executor.memory="@ + (match spec.executor_resources {
            Some(r) => match r.memory {
                Some(v) => v@,
                None => "1Gi"@,
            },
            None => "1Gi"@,
        }),
        ),
{
    lemma_resource_defaults(spec);
    let a = submit_args_spec(job_name, namespace, spec, config);
    let c = conf_args(config);
    let k: int = 9 + c.len() as int + 5;
    assert(a[k] == "spark.executor.memory="@ + executor_memory(spec));
}

/// Unless the job's own configuration sets it, the Celeborn endpoint is
/// the platform's master service in the job's own namespace, on port 9097;
/// and whatever the job sets itself wins over every injected default.
pub proof fn lemma_spark_config_endpoint(
    config: Map<Seq<char>, Seq<char>>,
    user: Map<Seq<char>, Seq<char>>,
    platform_name: Seq<char>,
    namespace: Seq<char>,
    job_name: Seq<char>,
    image_pull_policy: Seq<char>,
)
    requires
        config == spark_defaults_spec(platform_name, namespace, job_name, image_pull_policy).union_prefer_right(
            user,
        ),
    ensures
        !user.contains_key("spark.celeborn.master.endpoints"@) ==> config.contains_key(
            "spark.celeborn.master.endpoints"@,
        ) && config["spark.celeborn.master.endpoints"@] == platform_name + "-celeborn-master."@ + namespace
            + ".svc:9097"@,
        forall|k: Seq<char>| #[trigger] user.contains_key(k) ==> config.contains_key(k) && config[k] == user[k],
{
    reveal_strlit("spark.celeborn.master.endpoints");
    reveal_strlit("spark.celeborn.client.spark.shuffle.writer");
    reveal_strlit("spark.eventLog.enabled");
    reveal_strlit("spark.eventLog.dir");
    reveal_strlit("spark.kubernetes.container.image");
    reveal_strlit("spark.kubernetes.container.image.pullPolicy");
    reveal_strlit("spark.kubernetes.authenticate.driver.serviceAccountName");
    reveal_strlit("spark.decommission.enabled");
    reveal_strlit("spark.storage.decommission.rddBlocks.enabled");
    reveal_strlit("spark.storage.decommission.shuffleBlocks.enabled");
    let key = "spark.celeborn.master.endpoints"@;
    assert(key.len() == 31);
    assert("spark.celeborn.client.spark.shuffle.writer"@.len() == 42);
    assert(key != "spark.celeborn.client.spark.shuffle.writer"@);
    assert("spark.eventLog.enabled"@.len() == 22);
    assert(key != "spark.eventLog.enabled"@);
    assert(key != "spark.eventLog.dir"@);
    assert(key != "spark.kubernetes.container.image"@);
    assert(key != "spark.kubernetes.container.image.pullPolicy"@);
    assert(key != "spark.kubernetes.authenticate.driver.serviceAccountName"@);
    assert(key != "spark.decommission.enabled"@);
    assert(key != "spark.storage.decommission.rddBlocks.enabled"@);
    assert(key != "spark.storage.decommission.shuffleBlocks.enabled"@);
    let d = spark_defaults_spec(platform_name, namespace, job_name, image_pull_policy);
    assert(d.contains_key(key) && d[key] == celeborn_endpoint_spec(platform_name, namespace));
}

} // verus!
