//! The Spark History Server the platform reconciler deploys: a single
//! replica reading event logs from the object store, with a RocksDB
//! hybrid store, behind a ClusterIP service.

use vstd::prelude::*;

use crate::objects::EnvVar;
use crate::platform::{HistoryServerConfig, ObjectStoreConfig};
use crate::platform_status::opt_view;
use crate::string_map::StringMap;

verus! {

/// The Deployment and Service of the History Server, as plain values.
#[derive(Debug)]
pub struct HistoryServerPlan {
    /// Name of both the Deployment and the Service.
    pub name: String,
    pub namespace: String,
    pub image: String,
    pub labels: StringMap,
    pub replicas: i32,
    pub container_name: String,
    pub args: Vec<String>,
    pub port: i32,
    pub port_name: String,
    pub env: Vec<EnvVar>,
}

/// Labels of the History Server's resources.
pub open spec fn history_labels_spec(platform_name: Seq<char>) -> Map<Seq<char>, Seq<char>> {
    Map::<Seq<char>, Seq<char>>::empty()
        .insert("app.kubernetes.io/name"@, "spark-history-server"@)
        .insert("app.kubernetes.io/managed-by"@, "crucible-operator"@)
        .insert("crucible.dev/platform"@, platform_name)
}

/// `SPARK_HISTORY_OPTS`: event logs from the bucket, RocksDB hybrid store.
pub open spec fn history_opts_spec(bucket: Seq<char>) -> Seq<char> {
    "-Dspark.history.fs.logDirectory=s3a://"@ + bucket
        + "/spark-events -Dspark.history.store.hybridStore.enabled=true -Dspark.history.store.hybridStore.diskBackend=ROCKSDB"@
}

/// What `history_server_plan` produces when the History Server is enabled.
pub open spec fn history_plan_spec(
    p: HistoryServerPlan,
    platform_name: Seq<char>,
    namespace: Seq<char>,
    spec: HistoryServerConfig,
    store: ObjectStoreConfig,
) -> bool {
    &&& p.name@ == platform_name + "-history-server"@
    &&& p.namespace@ == namespace
    &&& p.image@ == (match spec.image {
        Some(i) => i@,
        None => "apache/spark:4.0.0"@,
    })
    &&& p.labels@ == history_labels_spec(platform_name)
    &&& p.replicas == 1
    &&& p.container_name@ == "history-server"@
    &&& p.args@.len() == 1
    &&& p.args@[0]@ == "/opt/spark/sbin/start-history-server.sh"@
    &&& p.port == 18080
    &&& p.port_name@ == "http"@
    &&& p.env@.len() == (if store.endpoint is Some { 2int } else { 1int })
    &&& p.env@[0].name@ == "SPARK_HISTORY_OPTS"@
    &&& opt_view(p.env@[0].value) == Some(history_opts_spec(store.bucket@))
    &&& store.endpoint is Some ==> p.env@[1].name@ == "SPARK_HADOOP_FS_S3A_ENDPOINT"@
        && opt_view(p.env@[1].value) == opt_view(store.endpoint)
}

/// The History Server resources for a platform, or nothing when the
/// History Server is disabled.
pub fn history_server_plan(
    platform_name: &str,
    namespace: &str,
    spec: &HistoryServerConfig,
    object_store: &ObjectStoreConfig,
) -> (r: Option<HistoryServerPlan>)
    ensures
        !spec.enabled <==> r is None,
        r matches Some(p) ==> history_plan_spec(p, platform_name@, namespace@, *spec, *object_store),
{
    if !spec.enabled {
        return None;
    }
    let image = match &spec.image {
        Some(i) => i.clone(),
        None => String::from_str("apache/spark:4.0.0"),
    };
    let mut labels = StringMap::new();
    labels.insert(String::from_str("app.kubernetes.io/name"), String::from_str("spark-history-server"));
    labels.insert(String::from_str("app.kubernetes.io/managed-by"), String::from_str("crucible-operator"));
    labels.insert(String::from_str("crucible.dev/platform"), String::from_str(platform_name));

    let mut name = String::from_str(platform_name);
    name.append("-history-server");

    let mut opts = String::from_str("-Dspark.history.fs.logDirectory=s3a://");
    opts.append(object_store.bucket.as_str());
    opts.append(
        "/spark-events -Dspark.history.store.hybridStore.enabled=true -Dspark.history.store.hybridStore.diskBackend=ROCKSDB",
    );
    let mut env: Vec<EnvVar> = Vec::new();
    env.push(EnvVar { name: String::from_str("SPARK_HISTORY_OPTS"), value: Some(opts) });
    match &object_store.endpoint {
        Some(endpoint) => {
            env.push(EnvVar {
                name: String::from_str("SPARK_HADOOP_FS_S3A_ENDPOINT"),
                value: Some(endpoint.clone()),
            });
        },
        None => {},
    }
    let mut args: Vec<String> = Vec::new();
    args.push(String::from_str("/opt/spark/sbin/start-history-server.sh"));
    Some(HistoryServerPlan {
        name,
        namespace: String::from_str(namespace),
        image,
        labels,
        replicas: 1,
        container_name: String::from_str("history-server"),
        args,
        port: 18080,
        port_name: String::from_str("http"),
        env,
    })
}

} // verus!
