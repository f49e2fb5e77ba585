//! The `CrucibleSparkJob` resource: its spec and its status.

use vstd::prelude::*;

use crate::state::JobPhase;
use crate::string_map::StringMap;

verus! {

/// Desired state of a Spark job.
#[derive(Debug)]
pub struct CrucibleSparkJobSpec {
    pub jar: String,
    pub class: String,
    pub args: Vec<String>,
    pub tenant: String,
    pub executors: Option<u32>,
    pub driver_resources: Option<ResourceSpec>,
    pub executor_resources: Option<ResourceSpec>,
    pub spark_config: StringMap,
    pub labels: StringMap,
}

/// CPU and memory of a driver or of each executor.
#[derive(Debug, Clone)]
pub struct ResourceSpec {
    pub cpu: Option<String>,
    pub memory: Option<String>,
}

/// Observed state of a Spark job.
#[derive(Debug, Clone)]
pub struct CrucibleSparkJobStatus {
    pub phase: Option<JobPhase>,
    pub driver_pod: Option<String>,
    pub executor_pods: Vec<String>,
    pub ui_url: Option<String>,
    pub error: Option<String>,
    pub start_time: Option<String>,
    pub end_time: Option<String>,
}

impl Default for CrucibleSparkJobStatus {
    fn default() -> (s: Self)
        ensures
            s.phase is None,
            s.driver_pod is None,
            s.executor_pods@.len() == 0,
            s.ui_url is None,
            s.error is None,
            s.start_time is None,
            s.end_time is None,
    {
        CrucibleSparkJobStatus {
            phase: None,
            driver_pod: None,
            executor_pods: Vec::new(),
            ui_url: None,
            error: None,
            start_time: None,
            end_time: None,
        }
    }
}

} // verus!
