//! Verified core of the Crucible compute platform: the job state machine,
//! the object store layout, the platform status aggregation and the
//! Spark job reconciliation rules.

pub mod clock;
pub mod error;
pub mod flink;
pub mod health;
pub mod history_server;
pub mod objects;
pub mod platform;
pub mod platform_status;
pub mod spark;
pub mod spark_job;
pub mod state;
pub mod store;
pub mod string_map;
pub mod text;
