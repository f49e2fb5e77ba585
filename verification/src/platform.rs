//! The `CruciblePlatform` resource: its spec, its status and the
//! condition vocabulary shared by the sub-reconcilers.

use vstd::prelude::*;

verus! {

/// Desired state of a Crucible platform.
#[derive(Debug, Clone)]
pub struct CruciblePlatformSpec {
    pub celeborn: CelebornConfig,
    pub volcano: VolcanoConfig,
    pub history_server: HistoryServerConfig,
    pub object_store: ObjectStoreConfig,
}

/// Where Celeborn workers keep shuffle data.
#[derive(Debug, Clone, Copy, PartialEq, Eq, Structural)]
pub enum StorageType {
    /// Pod-local scratch space (used on Kind).
    EmptyDir,
    /// Local NVMe SSD volumes.
    LocalNvme,
}

/// Celeborn shuffle service configuration.
#[derive(Debug, Clone)]
pub struct CelebornConfig {
    pub workers: u32,
    pub worker_storage: StorageType,
    pub image: String,
}

/// Volcano scheduler configuration.
#[derive(Debug, Clone)]
pub struct VolcanoConfig {
    pub tenants: Vec<TenantConfig>,
}

/// One tenant, which maps to one Volcano queue.
#[derive(Debug, Clone)]
pub struct TenantConfig {
    pub name: String,
    pub queue_weight: Option<u32>,
}

/// Spark History Server configuration.
#[derive(Debug, Clone)]
pub struct HistoryServerConfig {
    pub enabled: bool,
    pub image: Option<String>,
}

/// Object store configuration.
#[derive(Debug, Clone)]
pub struct ObjectStoreConfig {
    pub bucket: String,
    pub endpoint: Option<String>,
    pub region: Option<String>,
}

/// The condition each sub-reconciler reports.
#[derive(Debug, Clone, Copy, PartialEq, Eq, Structural)]
pub enum ConditionType {
    CelebornReady,
    VolcanoReady,
    HistoryServerReady,
    FlinkOperatorReady,
}

/// The value of a condition.
#[derive(Debug, Clone, Copy, PartialEq, Eq, Structural)]
pub enum ConditionStatus {
    True,
    False,
    Unknown,
}

/// The overall phase of the platform.
#[derive(Debug, Clone, Copy, PartialEq, Eq, Structural)]
pub enum PlatformPhase {
    /// Some component has not reported yet.
    Deploying,
    /// Every component is ready.
    Ready,
    /// Some component failed.
    Degraded,
}

/// One status condition of the platform.
#[derive(Debug, Clone)]
pub struct PlatformCondition {
    pub condition_type: ConditionType,
    pub status: ConditionStatus,
    pub message: Option<String>,
    pub last_transition_time: Option<String>,
}

/// Observed state of a Crucible platform.
#[derive(Debug, Clone)]
pub struct CruciblePlatformStatus {
    pub phase: Option<PlatformPhase>,
    pub conditions: Vec<PlatformCondition>,
}

impl Default for CruciblePlatformStatus {
    fn default() -> (s: Self)
        ensures
            s.phase is None,
            s.conditions@.len() == 0,
    {
        CruciblePlatformStatus { phase: None, conditions: Vec::new() }
    }
}

} // verus!
