//! The object store layout: where job logs, event logs, checkpoints and
//! savepoints live in the bucket, and the byte-range header of a ranged read.
//!
//! ```text
//! logs/{spark|flink}/{job-id}/{driver|executor-N|jobmanager|taskmanager-N}.log
//! spark-events/{job-id}
//! flink-checkpoints/{job-id}
//! flink-savepoints/{job-id}/{savepoint-id}
//! ```

use vstd::prelude::*;

use crate::text::{decimal, lemma_decimal_injective, u64_to_decimal};

verus! {

/// Path of a Spark driver log.
pub open spec fn spark_driver_log_path(job_id: Seq<char>) -> Seq<char> {
    "logs/spark/"@ + job_id + "/driver.log"@
}

/// Path of a Spark executor log.
pub open spec fn spark_executor_log_path(job_id: Seq<char>, executor_id: Seq<char>) -> Seq<char> {
    "logs/spark/"@ + job_id + "/executor-"@ + executor_id + ".log"@
}

/// Path of a Spark event log.
pub open spec fn spark_event_log_path(job_id: Seq<char>) -> Seq<char> {
    "spark-events/"@ + job_id
}

/// Path of a Flink JobManager log.
pub open spec fn flink_jm_log_path(job_id: Seq<char>) -> Seq<char> {
    "logs/flink/"@ + job_id + "/jobmanager.log"@
}

/// Path of a Flink TaskManager log.
pub open spec fn flink_tm_log_path(job_id: Seq<char>, tm_index: nat) -> Seq<char> {
    "logs/flink/"@ + job_id + "/taskmanager-"@ + decimal(tm_index) + ".log"@
}

/// Path of a Flink job's checkpoints.
pub open spec fn flink_checkpoint_path(job_id: Seq<char>) -> Seq<char> {
    "flink-checkpoints/"@ + job_id
}

/// Path of one Flink savepoint.
pub open spec fn flink_savepoint_path(job_id: Seq<char>, savepoint_id: Seq<char>) -> Seq<char> {
    "flink-savepoints/"@ + job_id + "/"@ + savepoint_id
}

/// Builds object store paths for job artifacts following the bucket layout.
pub struct PathBuilder {
    bucket: String,
}

impl PathBuilder {
    /// The bucket the paths are meant for.
    pub closed spec fn bucket_name(self) -> Seq<char> {
        self.bucket@
    }

    /// A path builder for `bucket`.
    pub fn new(bucket: &str) -> (pb: Self)
        ensures
            pb.bucket_name() == bucket@,
    {
        PathBuilder { bucket: String::from_str(bucket) }
    }

    /// The bucket name.
    pub fn bucket(&self) -> (b: &str)
        ensures
            b@ == self.bucket_name(),
    {
        self.bucket.as_str()
    }

    /// `logs/spark/{job_id}/driver.log`
    pub fn spark_driver_log(&self, job_id: &str) -> (p: String)
        ensures
            p@ == spark_driver_log_path(job_id@),
    {
        let mut p = String::from_str("logs/spark/");
        p.append(job_id);
        p.append("/driver.log");
        p
    }

    /// `logs/spark/{job_id}/executor-{executor_id}.log`
    pub fn spark_executor_log(&self, job_id: &str, executor_id: &str) -> (p: String)
        ensures
            p@ == spark_executor_log_path(job_id@, executor_id@),
    {
        let mut p = String::from_str("logs/spark/");
        p.append(job_id);
        p.append("/executor-");
        p.append(executor_id);
        p.append(".log");
        p
    }

    /// `spark-events/{job_id}`
    pub fn spark_event_log(&self, job_id: &str) -> (p: String)
        ensures
            p@ == spark_event_log_path(job_id@),
    {
        let mut p = String::from_str("spark-events/");
        p.append(job_id);
        p
    }

    /// `logs/flink/{job_id}/jobmanager.log`
    pub fn flink_jm_log(&self, job_id: &str) -> (p: String)
        ensures
            p@ == flink_jm_log_path(job_id@),
    {
        let mut p = String::from_str("logs/flink/");
        p.append(job_id);
        p.append("/jobmanager.log");
        p
    }

    /// `logs/flink/{job_id}/taskmanager-{tm_index}.log`
    pub fn flink_tm_log(&self, job_id: &str, tm_index: u32) -> (p: String)
        ensures
            p@ == flink_tm_log_path(job_id@, tm_index as nat),
    {
        let index = u64_to_decimal(tm_index as u64);
        let mut p = String::from_str("logs/flink/");
        p.append(job_id);
        p.append("/taskmanager-");
        p.append(index.as_str());
        p.append(".log");
        p
    }

    /// `flink-checkpoints/{job_id}`
    pub fn flink_checkpoint(&self, job_id: &str) -> (p: String)
        ensures
            p@ == flink_checkpoint_path(job_id@),
    {
        let mut p = String::from_str("flink-checkpoints/");
        p.append(job_id);
        p
    }

    /// `flink-savepoints/{job_id}/{savepoint_id}`
    pub fn flink_savepoint(&self, job_id: &str, savepoint_id: &str) -> (p: String)
        ensures
            p@ == flink_savepoint_path(job_id@, savepoint_id@),
    {
        let mut p = String::from_str("flink-savepoints/");
        p.append(job_id);
        p.append("/");
        p.append(savepoint_id);
        p
    }
}

/// The HTTP `Range` header value for reading `length` bytes from `offset`.
pub open spec fn range_header_spec(offset: nat, length: nat) -> Seq<char> {
    "bytes="@ + decimal(offset) + "-"@ + decimal((offset + length - 1) as nat)
}

/// `bytes={offset}-{offset + length - 1}`: the inclusive byte range of a
/// ranged read. The last byte must exist: `length` is at least 1 or the
/// offset positive, and the end fits in 64 bits.
pub fn range_header(offset: u64, length: u64) -> (h: String)
    requires
        offset + length <= u64::MAX,
        offset + length >= 1,
    ensures
        h@ == range_header_spec(offset as nat, length as nat),
{
    let last = offset + length - 1;
    let mut h = String::from_str("bytes=");
    h.append(u64_to_decimal(offset).as_str());
    h.append("-");
    h.append(u64_to_decimal(last).as_str());
    h
}

proof fn lemma_affix_injective(pre: Seq<char>, x: Seq<char>, y: Seq<char>, suf: Seq<char>)
    requires
        pre + x + suf == pre + y + suf,
    ensures
        x == y,
{
    let l = pre + x + suf;
    let r = pre + y + suf;
    assert(l.len() == r.len());
    assert forall|i: int| 0 <= i < x.len() implies x[i] == y[i] by {
        assert(l[pre.len() + i] == x[i]);
        assert(r[pre.len() + i] == y[i]);
    }
    assert(x =~= y);
}

/// Distinct jobs never share a driver log, JobManager log, event log or
/// checkpoint location.
pub proof fn lemma_job_paths_injective(a: Seq<char>, b: Seq<char>)
    requires
        a != b,
    ensures
        spark_driver_log_path(a) != spark_driver_log_path(b),
        flink_jm_log_path(a) != flink_jm_log_path(b),
        spark_event_log_path(a) != spark_event_log_path(b),
        flink_checkpoint_path(a) != flink_checkpoint_path(b),
{
    if spark_driver_log_path(a) == spark_driver_log_path(b) {
        lemma_affix_injective("logs/spark/"@, a, b, "/driver.log"@);
    }
    if flink_jm_log_path(a) == flink_jm_log_path(b) {
        lemma_affix_injective("logs/flink/"@, a, b, "/jobmanager.log"@);
    }
    if spark_event_log_path(a) == spark_event_log_path(b) {
        assert(spark_event_log_path(a) == "spark-events/"@ + a + Seq::<char>::empty());
        assert(spark_event_log_path(b) == "spark-events/"@ + b + Seq::<char>::empty());
        lemma_affix_injective("spark-events/"@, a, b, Seq::<char>::empty());
    }
    if flink_checkpoint_path(a) == flink_checkpoint_path(b) {
        assert(flink_checkpoint_path(a) == "flink-checkpoints/"@ + a + Seq::<char>::empty());
        assert(flink_checkpoint_path(b) == "flink-checkpoints/"@ + b + Seq::<char>::empty());
        lemma_affix_injective("flink-checkpoints/"@, a, b, Seq::<char>::empty());
    }
}

/// Log paths sit under `logs/spark/` for Spark and under `logs/flink/`
/// for Flink, so a Spark log and a Flink log never share a path.
pub proof fn lemma_spark_and_flink_logs_apart(
    a: Seq<char>,
    b: Seq<char>,
    executor_id: Seq<char>,
    tm_index: nat,
)
    ensures
        spark_driver_log_path(a).take(11) == "logs/spark/"@,
        spark_executor_log_path(a, executor_id).take(11) == "logs/spark/"@,
        flink_jm_log_path(b).take(11) == "logs/flink/"@,
        flink_tm_log_path(b, tm_index).take(11) == "logs/flink/"@,
        spark_driver_log_path(a) != flink_jm_log_path(b),
        spark_driver_log_path(a) != flink_tm_log_path(b, tm_index),
        spark_executor_log_path(a, executor_id) != flink_jm_log_path(b),
        spark_executor_log_path(a, executor_id) != flink_tm_log_path(b, tm_index),
{
    reveal_strlit("logs/spark/");
    reveal_strlit("logs/flink/");
    let s = "logs/spark/"@;
    let f = "logs/flink/"@;
    assert(spark_driver_log_path(a).take(11) =~= s);
    assert(spark_executor_log_path(a, executor_id).take(11) =~= s);
    assert(flink_jm_log_path(b).take(11) =~= f);
    assert(flink_tm_log_path(b, tm_index).take(11) =~= f);
    assert(s[5] != f[5]);
}

/// Distinct TaskManagers of a job log to distinct paths.
pub proof fn lemma_tm_paths_injective(job_id: Seq<char>, a: nat, b: nat)
    requires
        a != b,
    ensures
        flink_tm_log_path(job_id, a) != flink_tm_log_path(job_id, b),
{
    let pre = "logs/flink/"@ + job_id + "/taskmanager-"@;
    if flink_tm_log_path(job_id, a) == flink_tm_log_path(job_id, b) {
        assert(flink_tm_log_path(job_id, a) =~= pre + decimal(a) + ".log"@);
        assert(flink_tm_log_path(job_id, b) =~= pre + decimal(b) + ".log"@);
        lemma_affix_injective(pre, decimal(a), decimal(b), ".log"@);
        lemma_decimal_injective(a, b);
    }
}


/// Distinct executors of a job log to distinct paths, and each path names
/// its job and its executor in full: it is `logs/spark/{job}/executor-`
/// followed by the whole executor id and `.log`.
pub proof fn lemma_executor_log_paths(job_id: Seq<char>, a: Seq<char>, b: Seq<char>)
    ensures
        a != b ==> spark_executor_log_path(job_id, a) != spark_executor_log_path(job_id, b),
        ({
            let p = spark_executor_log_path(job_id, a);
            let pre = "logs/spark/"@ + job_id + "/executor-"@;
            &&& p.len() == pre.len() + a.len() + 4
            &&& p.take(pre.len() as int) == pre
            &&& p.subrange(pre.len() as int, (pre.len() + a.len()) as int) == a
            &&& p.skip((pre.len() + a.len()) as int) == ".log"@
        }),
{
    reveal_strlit(".log");
    let pre = "logs/spark/"@ + job_id + "/executor-"@;
    let p = spark_executor_log_path(job_id, a);
    assert(p =~= pre + a + ".log"@);
    assert(p.take(pre.len() as int) =~= pre);
    assert(p.subrange(pre.len() as int, (pre.len() + a.len()) as int) =~= a);
    assert(p.skip((pre.len() + a.len()) as int) =~= ".log"@);
    if a != b && spark_executor_log_path(job_id, a) == spark_executor_log_path(job_id, b) {
        assert(spark_executor_log_path(job_id, b) =~= pre + b + ".log"@);
        lemma_affix_injective(pre, a, b, ".log"@);
    }
}

} // verus!
