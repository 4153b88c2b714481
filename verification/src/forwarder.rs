//! Forwarding jobs and the retry decision: a failed send increments the
//! job's attempt count and re-queues it after an exponential backoff delay,
//! until the configured retry bound destroys it as an explicit drop.

use vstd::prelude::*;
use crate::backoff::{backoff_delay, lemma_backoff_bounded, lemma_backoff_monotonic, spec_backoff};

verus! {

/// Where a queued payload goes: onward to another relay, or to the local
/// delivery path.
#[derive(Clone, Copy, Debug, PartialEq, Eq, Structural)]
pub enum JobTarget {
    Remote(u64),
    Local,
}

/// One unit of forwarding work, owned by the queue until a worker claims it.
/// A retried job comes back with `attempt_count` one higher and
/// `next_eligible_time` pushed out by the backoff delay.
pub struct ForwardJob {
    pub target: JobTarget,
    pub payload: Vec<u8>,
    pub attempt_count: u32,
    pub next_eligible_time: u64,
}

/// Timing and bounds for the forwarding subsystem. The connection timeout is
/// carried for the transport layer; the relay's own logic reads only the
/// backoff curve and the retry bound.
pub struct ForwarderConfig {
    pub initial_backoff: u64,
    pub maximum_backoff: u64,
    pub initial_connection_timeout: u64,
    pub retry_bound: u32,
}

impl ForwarderConfig {
    /// At least one attempt is always allowed, else no job could ever resolve.
    pub open spec fn wf(&self) -> bool {
        self.retry_bound >= 1
    }

    pub fn new(
        initial_backoff: u64,
        maximum_backoff: u64,
        initial_connection_timeout: u64,
        retry_bound: u32,
    ) -> (cfg: ForwarderConfig)
        requires
            retry_bound >= 1,
        ensures
            cfg.wf(),
            cfg.initial_backoff == initial_backoff,
            cfg.maximum_backoff == maximum_backoff,
            cfg.initial_connection_timeout == initial_connection_timeout,
            cfg.retry_bound == retry_bound,
    {
        ForwarderConfig { initial_backoff, maximum_backoff, initial_connection_timeout, retry_bound }
    }
}

/// How one delivery attempt resolved the job: destroyed on success, re-queued
/// with a backoff delay, or destroyed as an explicit drop at the retry bound.
/// Exactly one of the three holds for every attempt.
pub enum AttemptOutcome {
    Sent,
    Retry { job: ForwardJob, delay: u64 },
    Dropped,
}

/// Decides what becomes of `job` after one delivery attempt observed at time
/// `now`. On success the job is destroyed and counted as sent by the caller.
/// On failure the attempt count rises by exactly one; below the retry bound
/// the job is handed back for re-queueing, eligible again only after the
/// backoff delay for that attempt number; at the bound it is destroyed and
/// counted as an explicit drop by the caller — exactly one of the outcomes,
/// never both, never neither.
pub fn resolve_attempt(cfg: &ForwarderConfig, job: ForwardJob, succeeded: bool, now: u64) -> (o:
    AttemptOutcome)
    requires
        cfg.wf(),
        job.attempt_count < cfg.retry_bound,
        now + cfg.maximum_backoff <= u64::MAX,
    ensures
        succeeded ==> o is Sent,
        !succeeded && job.attempt_count + 1 < cfg.retry_bound ==> (o matches
            AttemptOutcome::Retry { job: j, delay } && j.attempt_count == job.attempt_count + 1
            && j.target == job.target && j.payload@ == job.payload@ && delay == spec_backoff(
            cfg.initial_backoff,
            cfg.maximum_backoff,
            job.attempt_count as nat,
        ) && delay <= cfg.maximum_backoff && j.next_eligible_time == now + delay),
        !succeeded && job.attempt_count + 1 >= cfg.retry_bound ==> o is Dropped,
{
    if succeeded {
        AttemptOutcome::Sent
    } else {
        let attempts = job.attempt_count + 1;
        if attempts < cfg.retry_bound {
            let delay = backoff_delay(cfg.initial_backoff, cfg.maximum_backoff, job.attempt_count);
            let retried = ForwardJob {
                target: job.target,
                payload: job.payload,
                attempt_count: attempts,
                next_eligible_time: now + delay,
            };
            AttemptOutcome::Retry { job: retried, delay }
        } else {
            AttemptOutcome::Dropped
        }
    }
}

/// The job's survival through `k` consecutive failed attempts, tracking its
/// attempt count: the job as it then stands, or nothing if some failure
/// within those `k` reached the retry bound and destroyed it. The eligibility
/// time, which depends on the clock at each failure, is not modelled here.
pub open spec fn spec_after_failures(cfg: ForwarderConfig, job: ForwardJob, k: nat) -> Option<
    ForwardJob,
>
    decreases k,
{
    if k == 0 {
        Some(job)
    } else {
        match spec_after_failures(cfg, job, (k - 1) as nat) {
            None => None,
            Some(j) => if j.attempt_count + 1 < cfg.retry_bound {
                Some(
                    ForwardJob {
                        attempt_count: (j.attempt_count + 1) as u32,
                        next_eligible_time: j.next_eligible_time,
                        ..j
                    },
                )
            } else {
                None
            },
        }
    }
}

/// A job is destroyed exactly once: starting below the retry bound, each
/// failed attempt raises the attempt count by exactly one, the count never
/// exceeds the bound, and the job survives exactly as long as the count
/// stays below the bound — after that many failures it is gone for good.
pub proof fn lemma_job_resolves_exactly_once(cfg: ForwarderConfig, job: ForwardJob, k: nat)
    requires
        cfg.wf(),
        job.attempt_count < cfg.retry_bound,
    ensures
        spec_after_failures(cfg, job, k) is Some <==> job.attempt_count + k < cfg.retry_bound,
        spec_after_failures(cfg, job, k) matches Some(j) ==> j.attempt_count == job.attempt_count
            + k && j.attempt_count < cfg.retry_bound,
    decreases k,
{
    if k > 0 {
        lemma_job_resolves_exactly_once(cfg, job, (k - 1) as nat);
    }
}

/// The delays a retried job waits through are monotonically non-decreasing
/// and every one of them is bounded by the configured maximum backoff.
pub proof fn lemma_retry_delays_monotonic_and_bounded(cfg: ForwarderConfig, j: nat, k: nat)
    requires
        j <= k,
    ensures
        spec_backoff(cfg.initial_backoff, cfg.maximum_backoff, j) <= spec_backoff(
            cfg.initial_backoff,
            cfg.maximum_backoff,
            k,
        ),
        spec_backoff(cfg.initial_backoff, cfg.maximum_backoff, k) <= cfg.maximum_backoff,
{
    lemma_backoff_monotonic(cfg.initial_backoff, cfg.maximum_backoff, j, k);
    lemma_backoff_bounded(cfg.initial_backoff, cfg.maximum_backoff, k);
}

} // verus!
