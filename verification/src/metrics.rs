//! Throughput counters: packets received, sent, and explicitly dropped, each
//! tracked since startup (never reset) and since the last flush (reset on
//! each flush). A flush atomically takes the window counters, resets them,
//! and stamps the new window's start time: the mutation surface is exactly
//! the three increments and the flush, so no count is lost or doubled.

use vstd::prelude::*;

verus! {

/// What one flush hands to the periodic reporter: both lifetime totals and
/// the counts of the window that just closed, with the window's bounds.
pub struct CounterSnapshot {
    pub update_time: u64,
    pub previous_update_time: u64,
    pub received_since_startup: u64,
    pub sent_since_startup: u64,
    pub dropped_since_startup: u64,
    pub received_since_last_update: u64,
    pub sent_since_last_update: u64,
    pub dropped_since_last_update: u64,
}

/// The live counters, written by the listener and the forwarder and
/// periodically flushed by the reporter.
pub struct Metrics {
    pub received_total: u64,
    pub sent_total: u64,
    pub dropped_total: u64,
    pub received_window: u64,
    pub sent_window: u64,
    pub dropped_window: u64,
    pub last_update_time: u64,
}

/// The counter state after one more received packet.
pub open spec fn spec_inc_received(m: Metrics) -> Metrics
    recommends
        m.received_total < u64::MAX,
        m.received_window < u64::MAX,
{
    Metrics {
        received_total: (m.received_total + 1) as u64,
        received_window: (m.received_window + 1) as u64,
        ..m
    }
}

/// The counter state after one more packet sent onward.
pub open spec fn spec_inc_sent(m: Metrics) -> Metrics
    recommends
        m.sent_total < u64::MAX,
        m.sent_window < u64::MAX,
{
    Metrics { sent_total: (m.sent_total + 1) as u64, sent_window: (m.sent_window + 1) as u64, ..m }
}

/// The counter state after one more packet explicitly dropped.
pub open spec fn spec_inc_dropped(m: Metrics) -> Metrics
    recommends
        m.dropped_total < u64::MAX,
        m.dropped_window < u64::MAX,
{
    Metrics {
        dropped_total: (m.dropped_total + 1) as u64,
        dropped_window: (m.dropped_window + 1) as u64,
        ..m
    }
}

/// The counter state after a flush at time `now`: window counters cleared,
/// lifetime totals untouched, the flush time recorded.
pub open spec fn spec_flushed(m: Metrics, now: u64) -> Metrics {
    Metrics {
        received_window: 0,
        sent_window: 0,
        dropped_window: 0,
        last_update_time: now,
        ..m
    }
}

/// The snapshot a flush at time `now` returns.
pub open spec fn spec_snapshot(m: Metrics, now: u64) -> CounterSnapshot {
    CounterSnapshot {
        update_time: now,
        previous_update_time: m.last_update_time,
        received_since_startup: m.received_total,
        sent_since_startup: m.sent_total,
        dropped_since_startup: m.dropped_total,
        received_since_last_update: m.received_window,
        sent_since_last_update: m.sent_window,
        dropped_since_last_update: m.dropped_window,
    }
}

/// The counter state after `n` consecutive received-packet increments.
pub open spec fn spec_inc_received_n(m: Metrics, n: nat) -> Metrics
    decreases n,
{
    if n == 0 {
        m
    } else {
        spec_inc_received(spec_inc_received_n(m, (n - 1) as nat))
    }
}

impl Metrics {
    /// A window counter never exceeds its lifetime total: both start at zero
    /// and move together, and only the window side is ever reset.
    pub open spec fn wf(&self) -> bool {
        &&& self.received_window <= self.received_total
        &&& self.sent_window <= self.sent_total
        &&& self.dropped_window <= self.dropped_total
    }

    /// Fresh counters, all zero, with the given startup time as the first
    /// window's start.
    pub fn new(startup_time: u64) -> (m: Metrics)
        ensures
            m.wf(),
            m.received_total == 0,
            m.sent_total == 0,
            m.dropped_total == 0,
            m.received_window == 0,
            m.sent_window == 0,
            m.dropped_window == 0,
            m.last_update_time == startup_time,
    {
        Metrics {
            received_total: 0,
            sent_total: 0,
            dropped_total: 0,
            received_window: 0,
            sent_window: 0,
            dropped_window: 0,
            last_update_time: startup_time,
        }
    }

    /// Counts one received packet, in the lifetime total and in the current
    /// window alike.
    pub fn increment_received(&mut self)
        requires
            old(self).wf(),
            old(self).received_total < u64::MAX,
        ensures
            final(self).wf(),
            *final(self) == spec_inc_received(*old(self)),
    {
        self.received_total = self.received_total + 1;
        self.received_window = self.received_window + 1;
    }

    /// Counts one packet sent onward.
    pub fn increment_sent(&mut self)
        requires
            old(self).wf(),
            old(self).sent_total < u64::MAX,
        ensures
            final(self).wf(),
            *final(self) == spec_inc_sent(*old(self)),
    {
        self.sent_total = self.sent_total + 1;
        self.sent_window = self.sent_window + 1;
    }

    /// Counts one packet explicitly dropped.
    pub fn increment_dropped(&mut self)
        requires
            old(self).wf(),
            old(self).dropped_total < u64::MAX,
        ensures
            final(self).wf(),
            *final(self) == spec_inc_dropped(*old(self)),
    {
        self.dropped_total = self.dropped_total + 1;
        self.dropped_window = self.dropped_window + 1;
    }

    /// Takes the window that just closed: returns its counts together with
    /// the lifetime totals, resets the window counters to zero, and records
    /// `now` as the start of the next window. This is the linearization
    /// point between the producers and the reporter.
    pub fn flush(&mut self, now: u64) -> (snapshot: CounterSnapshot)
        requires
            old(self).wf(),
        ensures
            final(self).wf(),
            *final(self) == spec_flushed(*old(self), now),
            snapshot == spec_snapshot(*old(self), now),
    {
        let snapshot = CounterSnapshot {
            update_time: now,
            previous_update_time: self.last_update_time,
            received_since_startup: self.received_total,
            sent_since_startup: self.sent_total,
            dropped_since_startup: self.dropped_total,
            received_since_last_update: self.received_window,
            sent_since_last_update: self.sent_window,
            dropped_since_last_update: self.dropped_window,
        };
        self.received_window = 0;
        self.sent_window = 0;
        self.dropped_window = 0;
        self.last_update_time = now;
        snapshot
    }
}

/// The counter state after `n` sent-packet increments.
pub open spec fn spec_inc_sent_n(m: Metrics, n: nat) -> Metrics
    decreases n,
{
    if n == 0 {
        m
    } else {
        spec_inc_sent(spec_inc_sent_n(m, (n - 1) as nat))
    }
}

/// The counter state after `n` dropped-packet increments.
pub open spec fn spec_inc_dropped_n(m: Metrics, n: nat) -> Metrics
    decreases n,
{
    if n == 0 {
        m
    } else {
        spec_inc_dropped(spec_inc_dropped_n(m, (n - 1) as nat))
    }
}

/// The counter state after `r` received, `s` sent and `d` dropped
/// increments. The three increments touch disjoint counters, so every
/// interleaving of them reaches this same state; one canonical order
/// stands for all of them.
pub open spec fn spec_inc_mixed(m: Metrics, r: nat, s: nat, d: nat) -> Metrics {
    spec_inc_dropped_n(spec_inc_sent_n(spec_inc_received_n(m, r), s), d)
}

/// After `n` received-packet increments both the lifetime total and the
/// window counter have grown by exactly `n`, and nothing else has moved.
pub proof fn lemma_inc_received_n(m: Metrics, n: nat)
    requires
        m.received_total + n <= u64::MAX,
        m.received_window + n <= u64::MAX,
    ensures
        spec_inc_received_n(m, n).received_total == m.received_total + n,
        spec_inc_received_n(m, n).received_window == m.received_window + n,
        spec_inc_received_n(m, n).sent_total == m.sent_total,
        spec_inc_received_n(m, n).dropped_total == m.dropped_total,
        spec_inc_received_n(m, n).sent_window == m.sent_window,
        spec_inc_received_n(m, n).dropped_window == m.dropped_window,
        spec_inc_received_n(m, n).last_update_time == m.last_update_time,
    decreases n,
{
    if n > 0 {
        lemma_inc_received_n(m, (n - 1) as nat);
    }
}

/// After `n` sent-packet increments, in the image of `lemma_inc_received_n`.
pub proof fn lemma_inc_sent_n(m: Metrics, n: nat)
    requires
        m.sent_total + n <= u64::MAX,
        m.sent_window + n <= u64::MAX,
    ensures
        spec_inc_sent_n(m, n).sent_total == m.sent_total + n,
        spec_inc_sent_n(m, n).sent_window == m.sent_window + n,
        spec_inc_sent_n(m, n).received_total == m.received_total,
        spec_inc_sent_n(m, n).dropped_total == m.dropped_total,
        spec_inc_sent_n(m, n).received_window == m.received_window,
        spec_inc_sent_n(m, n).dropped_window == m.dropped_window,
        spec_inc_sent_n(m, n).last_update_time == m.last_update_time,
    decreases n,
{
    if n > 0 {
        lemma_inc_sent_n(m, (n - 1) as nat);
    }
}

/// After `n` dropped-packet increments, in the image of `lemma_inc_received_n`.
pub proof fn lemma_inc_dropped_n(m: Metrics, n: nat)
    requires
        m.dropped_total + n <= u64::MAX,
        m.dropped_window + n <= u64::MAX,
    ensures
        spec_inc_dropped_n(m, n).dropped_total == m.dropped_total + n,
        spec_inc_dropped_n(m, n).dropped_window == m.dropped_window + n,
        spec_inc_dropped_n(m, n).received_total == m.received_total,
        spec_inc_dropped_n(m, n).sent_total == m.sent_total,
        spec_inc_dropped_n(m, n).received_window == m.received_window,
        spec_inc_dropped_n(m, n).sent_window == m.sent_window,
        spec_inc_dropped_n(m, n).last_update_time == m.last_update_time,
    decreases n,
{
    if n > 0 {
        lemma_inc_dropped_n(m, (n - 1) as nat);
    }
}

/// Flushing loses no increment and counts none twice: however a batch of
/// increments — `ra` received, `sa` sent, `da` dropped before the flush and
/// `rb`, `sb`, `db` after it — is split around one flush, the window the
/// flush reports and the window still accumulating afterwards together hold
/// exactly those counts on top of what the previous window already held, and
/// the lifetime totals agree, for each of the three counters.
pub proof fn lemma_flush_conserves_counts(
    m: Metrics,
    ra: nat,
    sa: nat,
    da: nat,
    rb: nat,
    sb: nat,
    db: nat,
    now: u64,
)
    requires
        m.wf(),
        m.received_total + ra + rb <= u64::MAX,
        m.sent_total + sa + sb <= u64::MAX,
        m.dropped_total + da + db <= u64::MAX,
    ensures
        ({
            let before = spec_inc_mixed(m, ra, sa, da);
            let reported = spec_snapshot(before, now);
            let after = spec_inc_mixed(spec_flushed(before, now), rb, sb, db);
            &&& reported.received_since_last_update + after.received_window == m.received_window
                + ra + rb
            &&& reported.sent_since_last_update + after.sent_window == m.sent_window + sa + sb
            &&& reported.dropped_since_last_update + after.dropped_window == m.dropped_window + da
                + db
            &&& after.received_total == m.received_total + ra + rb
            &&& after.sent_total == m.sent_total + sa + sb
            &&& after.dropped_total == m.dropped_total + da + db
        }),
{
    let m1 = spec_inc_received_n(m, ra);
    lemma_inc_received_n(m, ra);
    let m2 = spec_inc_sent_n(m1, sa);
    lemma_inc_sent_n(m1, sa);
    let m3 = spec_inc_dropped_n(m2, da);
    lemma_inc_dropped_n(m2, da);
    let f = spec_flushed(m3, now);
    let n1 = spec_inc_received_n(f, rb);
    lemma_inc_received_n(f, rb);
    let n2 = spec_inc_sent_n(n1, sb);
    lemma_inc_sent_n(n1, sb);
    lemma_inc_dropped_n(n2, db);
}

} // verus!
