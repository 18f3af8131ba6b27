use gossip_node::gossip::{heartbeat_message, next_heartbeat, GossipTick};
use gossip_node::pool::{ConnectionPool, GetStep};

#[test]
fn heartbeat_format() {
    assert_eq!(heartbeat_message(0), "#Random message: 0#");
    assert_eq!(heartbeat_message(1234567890), "#Random message: 1234567890#");
    assert_eq!(heartbeat_message(u64::MAX), "#Random message: 18446744073709551615#");
}

#[test]
fn fresh_heartbeat_is_well_formed() {
    let m = next_heartbeat();
    assert!(m.starts_with("#Random message: "));
    assert!(m.ends_with('#'));
    let digits = &m["#Random message: ".len()..m.len() - 1];
    assert!(digits.parse::<u64>().is_ok());
}

#[test]
fn tick_skips_unreachable_peer() {
    // Pool seeded with A, B, C; C never connects.
    let mut pool: ConnectionPool<u32> = ConnectionPool::new(10_000);
    for p in ["A", "B", "C"] {
        pool.plan_get(p, 0);
    }
    let mut tick = GossipTick::new(pool.get_all_possible_conections());
    let mut visited = Vec::new();
    while let Some(peer) = tick.next_peer().cloned() {
        let step = pool.plan_get(&peer, 1);
        assert_eq!(step, GetStep::Establish);
        let ok = peer != "C";
        pool.establish_result(&peer, 1, if ok { Some(1) } else { None });
        tick.record(ok);
        visited.push(peer);
    }
    assert_eq!(visited, vec!["A", "B", "C"]);
    assert_eq!(tick.report(), "Sended msg to urls: A, B");
}

#[test]
fn tick_with_no_delivery_waits() {
    let mut tick = GossipTick::new(vec!["x:1".to_string()]);
    tick.record(false);
    assert!(tick.next_peer().is_none());
    assert_eq!(tick.report(), "Waiting connections");
    assert_eq!(GossipTick::new(Vec::new()).report(), "Waiting connections");
}

#[test]
fn tick_report_single_peer() {
    let mut tick = GossipTick::new(vec!["x:1".to_string(), "y:2".to_string()]);
    tick.record(false);
    tick.record(true);
    assert_eq!(tick.report(), "Sended msg to urls: y:2");
}
