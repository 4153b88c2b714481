use mixnode::backoff::backoff_delay;
use mixnode::forwarder::{AttemptOutcome, ForwarderConfig, JobTarget};
use mixnode::guard::{find_duplicate_node, TopologyNode};
use mixnode::lifecycle::{advance, startup_sequence, NodeEvent, NodeState, ServiceKind};
use mixnode::metrics::Metrics;
use mixnode::packet::{
    KeyMaterial, MalformedReason, PacketProcessor, RoutingDecision, DELIVER_TAG, FORWARD_TAG,
    MAX_PACKET_SIZE,
};
use mixnode::pool::ConnectionPool;
use mixnode::relay::Relay;

fn test_key() -> KeyMaterial {
    KeyMaterial::new(vec![0x5a, 0xc3, 0x17], vec![1, 2, 3, 4]).unwrap()
}

/// Applies the keyed transform; it is an involution, so this both builds a
/// raw packet from a plaintext and recovers a plaintext from a raw packet.
fn transform(key: &KeyMaterial, plain: &[u8]) -> Vec<u8> {
    let k = &key.private_key;
    plain
        .iter()
        .enumerate()
        .map(|(i, b)| b ^ k[i % k.len()])
        .collect()
}

fn forward_packet(key: &KeyMaterial, destination: u64, payload: &[u8]) -> Vec<u8> {
    let mut plain = vec![FORWARD_TAG];
    plain.extend_from_slice(&destination.to_be_bytes());
    plain.extend_from_slice(payload);
    transform(key, &plain)
}

fn deliver_packet(key: &KeyMaterial, payload: &[u8]) -> Vec<u8> {
    let mut plain = vec![DELIVER_TAG];
    plain.extend_from_slice(payload);
    transform(key, &plain)
}

fn config(retry_bound: u32) -> ForwarderConfig {
    ForwarderConfig::new(100, 800, 1000, retry_bound)
}

#[test]
fn key_material_rejects_empty_private_key() {
    assert!(KeyMaterial::new(vec![], vec![1]).is_none());
    assert!(KeyMaterial::new(vec![9], vec![]).is_some());
}

#[test]
fn process_forward_packet() {
    let key = test_key();
    let processor = PacketProcessor::new(&key);
    let raw = forward_packet(&key, 0x0102030405060708, &[0xaa, 0xbb, 0xcc]);
    match processor.process(&raw) {
        RoutingDecision::ForwardTo {
            destination,
            payload,
        } => {
            assert_eq!(destination, 0x0102030405060708);
            assert_eq!(payload, vec![0xaa, 0xbb, 0xcc]);
        }
        _ => panic!("expected a forward decision"),
    }
}

#[test]
fn process_deliver_packet() {
    let key = test_key();
    let processor = PacketProcessor::new(&key);
    let raw = deliver_packet(&key, &[1, 2, 3]);
    match processor.process(&raw) {
        RoutingDecision::DeliverLocally { payload } => assert_eq!(payload, vec![1, 2, 3]),
        _ => panic!("expected a deliver decision"),
    }
}

#[test]
fn process_empty_packet_is_malformed() {
    let key = test_key();
    let processor = PacketProcessor::new(&key);
    match processor.process(&vec![]) {
        RoutingDecision::Malformed { reason } => assert_eq!(reason, MalformedReason::Empty),
        _ => panic!("expected a malformed decision"),
    }
}

#[test]
fn process_oversized_packet_is_malformed() {
    let key = test_key();
    let processor = PacketProcessor::new(&key);
    let raw = vec![0u8; MAX_PACKET_SIZE + 1];
    match processor.process(&raw) {
        RoutingDecision::Malformed { reason } => assert_eq!(reason, MalformedReason::Oversized),
        _ => panic!("expected a malformed decision"),
    }
}

#[test]
fn process_truncated_forward_packet_is_malformed() {
    let key = test_key();
    let processor = PacketProcessor::new(&key);
    let raw = transform(&key, &[FORWARD_TAG, 1, 2, 3]);
    match processor.process(&raw) {
        RoutingDecision::Malformed { reason } => assert_eq!(reason, MalformedReason::Truncated),
        _ => panic!("expected a malformed decision"),
    }
}

#[test]
fn process_unrecognized_tag_is_malformed() {
    let key = test_key();
    let processor = PacketProcessor::new(&key);
    let raw = transform(&key, &[0x7f, 1, 2, 3]);
    match processor.process(&raw) {
        RoutingDecision::Malformed { reason } => {
            assert_eq!(reason, MalformedReason::UnrecognizedTag)
        }
        _ => panic!("expected a malformed decision"),
    }
}

#[test]
fn backoff_doubles_and_caps() {
    assert_eq!(backoff_delay(100, 800, 0), 100);
    assert_eq!(backoff_delay(100, 800, 1), 200);
    assert_eq!(backoff_delay(100, 800, 2), 400);
    assert_eq!(backoff_delay(100, 800, 3), 800);
    assert_eq!(backoff_delay(100, 800, 4), 800);
}

#[test]
fn backoff_edge_cases() {
    assert_eq!(backoff_delay(0, 800, 5), 0);
    assert_eq!(backoff_delay(900, 800, 0), 800);
    assert_eq!(backoff_delay(1, 0, 3), 0);
}

#[test]
fn metrics_track_both_windows() {
    let mut m = Metrics::new(10);
    m.increment_received();
    m.increment_received();
    m.increment_sent();
    m.increment_dropped();
    assert_eq!(m.received_total, 2);
    assert_eq!(m.received_window, 2);
    assert_eq!(m.sent_total, 1);
    assert_eq!(m.dropped_total, 1);

    let snapshot = m.flush(25);
    assert_eq!(snapshot.previous_update_time, 10);
    assert_eq!(snapshot.update_time, 25);
    assert_eq!(snapshot.received_since_startup, 2);
    assert_eq!(snapshot.received_since_last_update, 2);
    assert_eq!(snapshot.sent_since_last_update, 1);
    assert_eq!(snapshot.dropped_since_last_update, 1);
    assert_eq!(m.received_window, 0);
    assert_eq!(m.sent_window, 0);
    assert_eq!(m.dropped_window, 0);
    assert_eq!(m.received_total, 2);
    assert_eq!(m.last_update_time, 25);
}

#[test]
fn flush_counts_every_increment_exactly_once() {
    let mut m = Metrics::new(0);
    for _ in 0..3 {
        m.increment_received();
    }
    let snapshot = m.flush(5);
    for _ in 0..2 {
        m.increment_received();
    }
    assert_eq!(
        snapshot.received_since_last_update + m.received_window,
        5
    );
    assert_eq!(m.received_total, 5);
}

#[test]
fn reachable_destination_is_sent_within_one_round() {
    let key = test_key();
    let mut relay = Relay::new(&key, config(3), 0);
    let raw = forward_packet(&key, 42, &[1, 2, 3]);

    relay.accept(&raw);
    assert_eq!(relay.metrics.received_total, 1);
    assert_eq!(relay.queue_len(), 1);

    let job = relay.take_ready_job(0).expect("the job is eligible at once");
    assert_eq!(job.target, JobTarget::Remote(42));
    assert_eq!(job.attempt_count, 0);

    match relay.report_attempt(job, true, 0) {
        AttemptOutcome::Sent => {}
        _ => panic!("a successful attempt resolves the job as sent"),
    }
    assert_eq!(relay.metrics.sent_total, 1);
    assert_eq!(relay.metrics.dropped_total, 0);
    assert_eq!(relay.queue_len(), 0);
}

#[test]
fn unreachable_destination_is_dropped_after_retry_bound() {
    let key = test_key();
    let mut relay = Relay::new(&key, config(3), 0);
    let raw = forward_packet(&key, 42, &[1, 2, 3]);
    relay.accept(&raw);

    let mut now: u64 = 0;
    let mut failures = 0;
    let mut attempts_seen = Vec::new();
    loop {
        // Jump past any backoff delay: every queued job is then eligible.
        now += 10_000;
        let Some(job) = relay.take_ready_job(now) else {
            break;
        };
        attempts_seen.push(job.attempt_count);
        failures += 1;
        relay.report_attempt(job, false, now);
    }

    assert_eq!(failures, 3);
    assert_eq!(attempts_seen, vec![0, 1, 2]);
    assert_eq!(relay.metrics.dropped_total, 1);
    assert_eq!(relay.metrics.sent_total, 0);
    assert_eq!(relay.metrics.received_total, 1);
    assert_eq!(relay.queue_len(), 0);
}

#[test]
fn retried_job_waits_out_its_backoff_delay() {
    let key = test_key();
    let mut relay = Relay::new(&key, config(3), 0);
    let raw = forward_packet(&key, 7, &[9]);
    relay.accept(&raw);

    let job = relay.take_ready_job(0).unwrap();
    let (delay, eligible_at) = match relay.report_attempt(job, false, 50) {
        AttemptOutcome::Retry { job, delay } => (delay, job.next_eligible_time),
        _ => panic!("the first failure re-queues the job"),
    };
    assert_eq!(delay, 100);
    assert_eq!(eligible_at, 150);
    assert!(relay.take_ready_job(149).is_none());
    let retried = relay.take_ready_job(150).expect("eligible once the delay passed");
    assert_eq!(retried.attempt_count, 1);
}

#[test]
fn malformed_packet_is_counted_and_never_enqueued() {
    let key = test_key();
    let mut relay = Relay::new(&key, config(3), 0);
    let raw = transform(&key, &[FORWARD_TAG, 0, 0]);

    match relay.accept(&raw) {
        RoutingDecision::Malformed { reason } => assert_eq!(reason, MalformedReason::Truncated),
        _ => panic!("a truncated packet is malformed"),
    }
    assert_eq!(relay.metrics.received_total, 1);
    assert_eq!(relay.metrics.dropped_total, 1);
    assert_eq!(relay.metrics.sent_total, 0);
    assert_eq!(relay.queue_len(), 0);
}

#[test]
fn deliver_packet_reaches_the_local_path() {
    let key = test_key();
    let mut relay = Relay::new(&key, config(3), 0);
    let raw = deliver_packet(&key, &[5, 6]);
    relay.accept(&raw);
    let job = relay.take_ready_job(0).unwrap();
    assert_eq!(job.target, JobTarget::Local);
    assert_eq!(job.payload, vec![5, 6]);
    relay.report_attempt(job, true, 0);
    assert_eq!(relay.metrics.sent_total, 1);
}

#[test]
fn counters_balance_once_everything_resolved() {
    let key = test_key();
    let mut relay = Relay::new(&key, config(2), 0);
    let packets = vec![
        forward_packet(&key, 1, &[1]),
        forward_packet(&key, 2, &[2]),
        deliver_packet(&key, &[3]),
        transform(&key, &[0x99]),
        vec![],
    ];
    for raw in &packets {
        relay.accept(raw);
    }
    let mut now: u64 = 0;
    let mut toggle = false;
    loop {
        now += 10_000;
        let Some(job) = relay.take_ready_job(now) else {
            break;
        };
        // Alternate success and failure so sends, retries and drops all occur.
        toggle = !toggle;
        relay.report_attempt(job, toggle, now);
    }
    assert_eq!(relay.queue_len(), 0);
    assert_eq!(
        relay.metrics.received_total,
        relay.metrics.sent_total + relay.metrics.dropped_total
    );
    assert_eq!(relay.metrics.received_total, 5);
}

#[test]
fn pool_reuses_one_handle_per_destination() {
    let mut pool = ConnectionPool::new();
    let a = pool.get_or_create(10);
    let b = pool.get_or_create(10);
    assert_eq!(a, b);
    assert_eq!(pool.len(), 1);

    let c = pool.get_or_create(20);
    assert_ne!(a.generation, c.generation);
    assert_eq!(pool.len(), 2);
}

#[test]
fn pool_evicts_and_rebuilds_on_next_use() {
    let mut pool = ConnectionPool::new();
    let first = pool.get_or_create(10);
    pool.evict(10);
    assert_eq!(pool.len(), 0);
    let rebuilt = pool.get_or_create(10);
    assert_eq!(rebuilt.destination, 10);
    assert_ne!(first.generation, rebuilt.generation);

    // Evicting an absent destination changes nothing.
    pool.evict(99);
    assert_eq!(pool.len(), 1);
}

#[test]
fn guard_detects_address_collision() {
    let nodes = vec![
        TopologyNode {
            host: String::from("1.2.3.4:1789"),
            public_key: String::from("othernodekey"),
        },
        TopologyNode {
            host: String::from("5.6.7.8:1789"),
            public_key: String::from("collidingkey"),
        },
    ];
    let own = String::from("5.6.7.8:1789");
    assert_eq!(
        find_duplicate_node(&nodes, &own),
        Some(String::from("collidingkey"))
    );
}

#[test]
fn guard_passes_without_collision() {
    let nodes = vec![TopologyNode {
        host: String::from("1.2.3.4:1789"),
        public_key: String::from("othernodekey"),
    }];
    let own = String::from("9.9.9.9:1789");
    assert_eq!(find_duplicate_node(&nodes, &own), None);
}

#[test]
fn lifecycle_runs_forward_to_stopped() {
    let mut state = NodeState::Uninitialized;
    let happy_path = [
        NodeEvent::KeysRead,
        NodeEvent::GuardPassed,
        NodeEvent::ServicesLaunched,
        NodeEvent::StartupComplete,
        NodeEvent::TerminationSignal,
        NodeEvent::ShutdownComplete,
    ];
    for event in happy_path {
        state = advance(state, event).expect("the happy path is accepted");
    }
    assert_eq!(state, NodeState::Stopped);
}

#[test]
fn lifecycle_aborts_on_collision_or_key_failure() {
    assert_eq!(
        advance(NodeState::KeysLoaded, NodeEvent::GuardCollision),
        Some(NodeState::Stopped)
    );
    assert_eq!(
        advance(NodeState::Uninitialized, NodeEvent::KeyLoadFailed),
        Some(NodeState::Stopped)
    );
    // Nothing leads out of Stopped, and events out of order are refused.
    assert_eq!(advance(NodeState::Stopped, NodeEvent::KeysRead), None);
    assert_eq!(
        advance(NodeState::Uninitialized, NodeEvent::StartupComplete),
        None
    );
}

#[test]
fn startup_order_brings_forwarder_up_before_listener() {
    let order = startup_sequence();
    assert_eq!(
        order,
        vec![
            ServiceKind::Forwarder,
            ServiceKind::MetricsReporter,
            ServiceKind::Listener,
            ServiceKind::PresenceNotifier,
        ]
    );
}
