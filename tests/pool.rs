use gossip_node::pool::{ConnectionPool, GetStep};
use gossip_node::probe::{is_alive, ProbeOutcome};

fn connected(pool: &mut ConnectionPool<u32>, addr: &str, now: u64, handle: u32) {
    assert_eq!(pool.plan_get(addr, now), GetStep::Establish);
    pool.establish_result(addr, now, Some(handle));
}

#[test]
fn unknown_peer_is_established_and_recorded() {
    let mut pool: ConnectionPool<u32> = ConnectionPool::new(10_000);
    assert_eq!(pool.plan_get("a:1", 0), GetStep::Establish);
    assert_eq!(pool.get_all_possible_conections(), vec!["a:1".to_string()]);
    assert_eq!(pool.transport("a:1"), None);
}

#[test]
fn young_transport_is_probed_then_reused() {
    let mut pool: ConnectionPool<u32> = ConnectionPool::new(10_000);
    connected(&mut pool, "a:1", 100, 7);
    assert_eq!(pool.plan_get("a:1", 5_000), GetStep::Probe);
    assert_eq!(pool.probe_result("a:1", true), GetStep::Reuse);
    assert_eq!(pool.transport("a:1"), Some(&7));
}

#[test]
fn transport_at_keep_alive_age_is_replaced() {
    let mut pool: ConnectionPool<u32> = ConnectionPool::new(10_000);
    connected(&mut pool, "a:1", 100, 7);
    assert_eq!(pool.plan_get("a:1", 10_099), GetStep::Probe);
    assert_eq!(pool.plan_get("a:1", 10_100), GetStep::Establish);
    assert_eq!(pool.transport("a:1"), None);
    pool.establish_result("a:1", 10_200, Some(8));
    assert_eq!(pool.transport("a:1"), Some(&8));
}

#[test]
fn dead_probe_forces_fresh_handshake() {
    let mut pool: ConnectionPool<u32> = ConnectionPool::new(10_000);
    connected(&mut pool, "a:1", 0, 1);
    assert_eq!(pool.plan_get("a:1", 500), GetStep::Probe);
    // No Pong within the probe's second.
    let alive = is_alive(ProbeOutcome::TimedOut);
    assert!(!alive);
    assert_eq!(pool.probe_result("a:1", alive), GetStep::Establish);
    assert_eq!(pool.transport("a:1"), None);
    assert_eq!(pool.plan_get("a:1", 600), GetStep::Establish);
}

#[test]
fn failed_establishment_leaves_known_unreachable_peer() {
    let mut pool: ConnectionPool<u32> = ConnectionPool::new(10);
    assert_eq!(pool.plan_get("c:3", 0), GetStep::Establish);
    pool.establish_result("c:3", 0, None);
    assert_eq!(pool.transport("c:3"), None);
    assert_eq!(pool.get_all_possible_conections(), vec!["c:3".to_string()]);
    assert_eq!(pool.plan_get("c:3", 1), GetStep::Establish);
}

#[test]
fn peers_listed_in_first_seen_order_without_duplicates() {
    let mut pool: ConnectionPool<u32> = ConnectionPool::new(10);
    pool.plan_get("b:2", 0);
    pool.plan_get("a:1", 0);
    pool.plan_get("b:2", 1);
    pool.plan_get("localhost:1", 1);
    pool.plan_get("127.0.0.1:1", 1);
    assert_eq!(
        pool.get_all_possible_conections(),
        vec!["b:2".to_string(), "a:1".to_string(), "localhost:1".to_string(), "127.0.0.1:1".to_string()]
    );
    assert_eq!(pool.keep_alive(), 10);
}

#[test]
fn probe_verdicts() {
    assert!(is_alive(ProbeOutcome::Pong));
    assert!(is_alive(ProbeOutcome::Ping));
    assert!(!is_alive(ProbeOutcome::SendFailed));
    assert!(!is_alive(ProbeOutcome::TimedOut));
    assert!(!is_alive(ProbeOutcome::Closed));
    assert!(!is_alive(ProbeOutcome::SocketError));
    assert!(!is_alive(ProbeOutcome::OtherFrame));
}
