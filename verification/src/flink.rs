//! The `CrucibleFlinkJob` resource: its spec and its status.

use vstd::prelude::*;

use crate::state::JobPhase;
use crate::string_map::StringMap;

verus! {

/// Desired state of a Flink job.
#[derive(Debug)]
pub struct CrucibleFlinkJobSpec {
    pub jar: String,
    pub entry_class: String,
    pub parallelism: Option<u32>,
    pub task_managers: Option<u32>,
    pub tenant: String,
    pub flink_config: StringMap,
    pub labels: StringMap,
}

/// Observed state of a Flink job.
#[derive(Debug, Clone)]
pub struct CrucibleFlinkJobStatus {
    pub phase: Option<JobPhase>,
    pub job_manager_pod: Option<String>,
    pub ui_url: Option<String>,
    pub error: Option<String>,
    pub last_savepoint_path: Option<String>,
    pub start_time: Option<String>,
    pub end_time: Option<String>,
}

impl Default for CrucibleFlinkJobStatus {
    fn default() -> (s: Self)
        ensures
            s.phase is None,
            s.job_manager_pod is None,
            s.ui_url is None,
            s.error is None,
            s.last_savepoint_path is None,
            s.start_time is None,
            s.end_time is None,
    {
        CrucibleFlinkJobStatus {
            phase: None,
            job_manager_pod: None,
            ui_url: None,
            error: None,
            last_savepoint_path: None,
            start_time: None,
            end_time: None,
        }
    }
}

} // verus!
