//! The relay pipeline: the listener's per-packet intake, the shared job
//! queue, and the forwarder's claim/resolve steps, tied together by one
//! conservation invariant — every packet ever received is accounted for as
//! sent, explicitly dropped, queued, or in flight, so that once the queue
//! drains, received equals sent plus dropped exactly.

use vstd::prelude::*;
use crate::backoff::spec_backoff;
use crate::forwarder::{resolve_attempt, AttemptOutcome, ForwardJob, ForwarderConfig, JobTarget};
use crate::metrics::{spec_inc_dropped, spec_inc_received, spec_inc_sent, Metrics};
use crate::packet::{
    clone_bytes, KeyMaterial, PacketProcessor, RoutingDecision, SpecDecision, spec_process,
};

verus! {

/// The relay engine's state: the packet processor with its key handle, the
/// forwarding configuration, the counters, the queue of unresolved jobs, and
/// the number of jobs a worker has claimed but not yet resolved.
pub struct Relay {
    pub processor: PacketProcessor,
    pub config: ForwarderConfig,
    pub metrics: Metrics,
    pub queue: Vec<ForwardJob>,
    pub in_flight: u64,
}

impl Relay {
    /// The pipeline invariant. The heart of it is conservation: the lifetime
    /// received count equals sent plus dropped plus the jobs still queued or
    /// in flight — no packet is ever lost, it is always eventually counted.
    /// Queued jobs are always still below the retry bound.
    pub open spec fn wf(&self) -> bool {
        &&& self.processor.wf()
        &&& self.config.wf()
        &&& self.metrics.wf()
        &&& self.metrics.received_total == self.metrics.sent_total + self.metrics.dropped_total
            + self.queue@.len() + self.in_flight
        &&& forall|i: int|
            0 <= i < self.queue@.len() ==> #[trigger] self.queue@[i].attempt_count
                < self.config.retry_bound
    }

    /// Wires a fresh pipeline around the node's key: zeroed counters, an
    /// empty queue, nothing in flight.
    pub fn new(key: &KeyMaterial, config: ForwarderConfig, startup_time: u64) -> (r: Relay)
        requires
            key.wf(),
            config.wf(),
        ensures
            r.wf(),
            r.processor.private_key@ == key.private_key@,
            r.config == config,
            r.metrics.received_total == 0,
            r.metrics.sent_total == 0,
            r.metrics.dropped_total == 0,
            r.metrics.last_update_time == startup_time,
            r.queue@.len() == 0,
            r.in_flight == 0,
    {
        Relay {
            processor: PacketProcessor::new(key),
            config,
            metrics: Metrics::new(startup_time),
            queue: Vec::new(),
            in_flight: 0,
        }
    }

    /// How many jobs are waiting in the queue.
    pub fn queue_len(&self) -> (n: usize)
        ensures
            n == self.queue@.len(),
    {
        self.queue.len()
    }

    /// The listener's unit of work for one raw packet: count it received,
    /// process it, and either enqueue the resulting job (a forward packet
    /// toward its destination, a deliver packet toward the local path, both
    /// starting at attempt zero and immediately eligible) or, for a malformed
    /// packet, count it explicitly dropped and enqueue nothing. A failure to
    /// read a unit of input never reaches this function: such a failure is
    /// isolated at the transport and touches no counter.
    pub fn accept(&mut self, raw: &Vec<u8>) -> (decision: RoutingDecision)
        requires
            old(self).wf(),
            old(self).metrics.received_total < u64::MAX,
        ensures
            final(self).wf(),
            decision@ == spec_process(old(self).processor.private_key@, raw@),
            final(self).processor == old(self).processor,
            final(self).config == old(self).config,
            final(self).in_flight == old(self).in_flight,
            final(self).metrics.received_total == old(self).metrics.received_total + 1,
            final(self).metrics.last_update_time == old(self).metrics.last_update_time,
            decision@ is Malformed ==> final(self).metrics == spec_inc_dropped(
                spec_inc_received(old(self).metrics),
            ) && final(self).queue@ == old(self).queue@,
            !(decision@ is Malformed) ==> final(self).metrics == spec_inc_received(
                old(self).metrics,
            ) && final(self).queue@.len() == old(self).queue@.len() + 1
                && final(self).queue@.drop_last() == old(self).queue@,
            (decision@ matches SpecDecision::Forward { destination, payload } ==> ({
                let job = final(self).queue@.last();
                &&& job.target == JobTarget::Remote(destination)
                &&& job.payload@ == payload
                &&& job.attempt_count == 0
                &&& job.next_eligible_time == 0
            })),
            (decision@ matches SpecDecision::Deliver { payload } ==> ({
                let job = final(self).queue@.last();
                &&& job.target == JobTarget::Local
                &&& job.payload@ == payload
                &&& job.attempt_count == 0
                &&& job.next_eligible_time == 0
            })),
    {
        self.metrics.increment_received();
        let decision = self.processor.process(raw);
        match &decision {
            RoutingDecision::ForwardTo { destination, payload } => {
                let job = ForwardJob {
                    target: JobTarget::Remote(*destination),
                    payload: clone_bytes(payload),
                    attempt_count: 0,
                    next_eligible_time: 0,
                };
                self.queue.push(job);
            },
            RoutingDecision::DeliverLocally { payload } => {
                let job = ForwardJob {
                    target: JobTarget::Local,
                    payload: clone_bytes(payload),
                    attempt_count: 0,
                    next_eligible_time: 0,
                };
                self.queue.push(job);
            },
            RoutingDecision::Malformed { reason: _ } => {
                self.metrics.increment_dropped();
            },
        }
        decision
    }

    /// A forwarder worker claims the first job that is eligible at time
    /// `now`: it leaves the queue and is counted in flight until the worker
    /// reports how its delivery attempt went. Returns nothing when no queued
    /// job is eligible yet.
    pub fn take_ready_job(&mut self, now: u64) -> (r: Option<ForwardJob>)
        requires
            old(self).wf(),
            old(self).in_flight < u64::MAX,
        ensures
            final(self).wf(),
            final(self).processor == old(self).processor,
            final(self).config == old(self).config,
            final(self).metrics == old(self).metrics,
            match r {
                Some(job) => {
                    &&& job.attempt_count < old(self).config.retry_bound
                    &&& job.next_eligible_time <= now
                    &&& final(self).in_flight == old(self).in_flight + 1
                    &&& exists|i: int|
                        {
                            &&& 0 <= i < old(self).queue@.len()
                            &&& old(self).queue@[i] == job
                            &&& final(self).queue@ == old(self).queue@.remove(i)
                            &&& forall|j: int|
                                0 <= j < i ==> #[trigger] old(self).queue@[j].next_eligible_time
                                    > now
                        }
                },
                None => *final(self) == *old(self) && forall|i: int|
                    0 <= i < old(self).queue@.len()
                        ==> #[trigger] old(self).queue@[i].next_eligible_time > now,
            },
    {
        let ghost orig = *self;
        let mut i: usize = 0;
        #[verifier::loop_isolation(false)]
        while i < self.queue.len()
            invariant
                *self == orig,
                i <= self.queue@.len(),
                forall|j: int|
                    0 <= j < i ==> #[trigger] orig.queue@[j].next_eligible_time > now,
            decreases self.queue@.len() - i,
        {
            if self.queue[i].next_eligible_time <= now {
                let job = self.queue.remove(i);
                self.in_flight = self.in_flight + 1;
                proof {
                    assert(0 <= i < orig.queue@.len());
                    assert(orig.queue@[i as int] == job);
                    assert(self.queue@ == orig.queue@.remove(i as int));
                    assert forall|k: int|
                        0 <= k < self.queue@.len() implies #[trigger] self.queue@[k].attempt_count
                        < self.config.retry_bound by {
                        if k < i as int {
                            assert(self.queue@[k] == orig.queue@[k]);
                        } else {
                            assert(self.queue@[k] == orig.queue@[k + 1]);
                        }
                    }
                }
                return Some(job);
            }
            i = i + 1;
        }
        None
    }

    /// A forwarder worker reports how the delivery attempt for a claimed job
    /// went, observed at time `now`. Success counts the packet sent and
    /// destroys the job. A failure below the retry bound re-queues the job
    /// with its attempt count one higher, eligible again only after the
    /// backoff delay. A failure at the bound counts the packet explicitly
    /// dropped and destroys the job. Exactly one of the three happens.
    pub fn report_attempt(&mut self, job: ForwardJob, succeeded: bool, now: u64) -> (o:
        AttemptOutcome)
        requires
            old(self).wf(),
            old(self).in_flight >= 1,
            job.attempt_count < old(self).config.retry_bound,
            now + old(self).config.maximum_backoff <= u64::MAX,
        ensures
            final(self).wf(),
            final(self).processor == old(self).processor,
            final(self).config == old(self).config,
            final(self).in_flight == old(self).in_flight - 1,
            final(self).metrics.received_total == old(self).metrics.received_total,
            final(self).metrics.last_update_time == old(self).metrics.last_update_time,
            succeeded ==> o is Sent && final(self).metrics == spec_inc_sent(old(self).metrics)
                && final(self).queue@ == old(self).queue@,
            !succeeded && job.attempt_count + 1 < old(self).config.retry_bound ==> ({
                &&& final(self).metrics == old(self).metrics
                &&& final(self).queue@.len() == old(self).queue@.len() + 1
                &&& final(self).queue@.drop_last() == old(self).queue@
                &&& (o matches AttemptOutcome::Retry { job: j, delay } && ({
                    let queued = final(self).queue@.last();
                    &&& queued.target == j.target
                    &&& queued.payload@ == j.payload@
                    &&& queued.attempt_count == j.attempt_count
                    &&& queued.next_eligible_time == j.next_eligible_time
                    &&& j.attempt_count == job.attempt_count + 1
                    &&& j.target == job.target
                    &&& j.payload@ == job.payload@
                    &&& j.next_eligible_time == now + delay
                    &&& delay == spec_backoff(
                        old(self).config.initial_backoff,
                        old(self).config.maximum_backoff,
                        job.attempt_count as nat,
                    )
                    &&& delay <= old(self).config.maximum_backoff
                }))
            }),
            !succeeded && job.attempt_count + 1 >= old(self).config.retry_bound ==> o is Dropped
                && final(self).metrics == spec_inc_dropped(old(self).metrics)
                && final(self).queue@ == old(self).queue@,
    {
        let outcome = resolve_attempt(&self.config, job, succeeded, now);
        match outcome {
            AttemptOutcome::Sent => {
                self.metrics.increment_sent();
                self.in_flight = self.in_flight - 1;
                AttemptOutcome::Sent
            },
            AttemptOutcome::Retry { job: retried, delay } => {
                let echo = ForwardJob {
                    target: retried.target,
                    payload: clone_bytes(&retried.payload),
                    attempt_count: retried.attempt_count,
                    next_eligible_time: retried.next_eligible_time,
                };
                self.queue.push(retried);
                self.in_flight = self.in_flight - 1;
                AttemptOutcome::Retry { job: echo, delay }
            },
            AttemptOutcome::Dropped => {
                self.metrics.increment_dropped();
                self.in_flight = self.in_flight - 1;
                AttemptOutcome::Dropped
            },
        }
    }
}

/// No packet is lost: once the input stream is closed and every job has
/// resolved — the queue is empty and nothing is in flight — the lifetime
/// counters balance exactly: received equals sent plus explicitly dropped.
pub proof fn lemma_all_packets_accounted(r: Relay)
    requires
        r.wf(),
        r.queue@.len() == 0,
        r.in_flight == 0,
    ensures
        r.metrics.received_total == r.metrics.sent_total + r.metrics.dropped_total,
{
}

} // verus!
