use gossip_node::config::{parse_peer_list, split_log_path};
use gossip_node::handshake::{connect_address, handshake_request, local_address, request_uri};
use gossip_node::text::same_text;
use gossip_node::uptime::UptimeTimer;

#[test]
fn peer_list_splits_on_commas_and_semicolons() {
    assert_eq!(parse_peer_list("a:1,b:2;c:3"), vec!["a:1", "b:2", "c:3"]);
    assert_eq!(parse_peer_list("a:1"), vec!["a:1"]);
    assert_eq!(parse_peer_list(""), vec![""]);
    assert_eq!(parse_peer_list("a:1,,b:2;"), vec!["a:1", "", "b:2", ""]);
    assert_eq!(parse_peer_list(" a:1 , b:2"), vec![" a:1 ", " b:2"]);
}

#[test]
fn log_path_split() {
    assert_eq!(split_log_path("./p2p_log"), (".".to_string(), "p2p_log".to_string()));
    assert_eq!(split_log_path("/var/log/node"), ("/var/log".to_string(), "node".to_string()));
    assert_eq!(split_log_path("node"), (".".to_string(), "ode".to_string()));
    assert_eq!(split_log_path(""), (".".to_string(), "".to_string()));
}

#[test]
fn handshake_target_and_headers() {
    assert_eq!(request_uri("10.0.0.2:8443"), "ws://10.0.0.2:8443/ws");
    let req = handshake_request("10.0.0.2:8443", "SOME_KEY", "127.0.0.1:9000");
    assert_eq!(req.uri, "ws://10.0.0.2:8443/ws");
    let names: Vec<&str> = req.headers.iter().map(|(n, _)| n.as_str()).collect();
    assert_eq!(names, vec!["Secret-Key", "Host", "Connection", "Upgrade", "Sec-WebSocket-Version", "Sec-WebSocket-Key"]);
    assert_eq!(req.headers[0].1, "SOME_KEY");
    assert_eq!(req.headers[1].1, "127.0.0.1:9000");
    assert_eq!(req.headers[2].1, "Upgrade");
    assert_eq!(req.headers[3].1, "websocket");
    assert_eq!(req.headers[4].1, "13");
    assert_eq!(req.headers[5].1.len(), 24);
    let other = handshake_request("10.0.0.2:8443", "SOME_KEY", "127.0.0.1:9000");
    assert_ne!(req.headers[5].1, other.headers[5].1);
}

#[test]
fn connect_address_defaults() {
    assert_eq!(connect_address(Some("peer.example"), Some(8443)), "peer.example:8443");
    assert_eq!(connect_address(Some("peer.example"), None), "peer.example:443");
    assert_eq!(connect_address(None, None), "localhost:443");
    assert_eq!(local_address(9000), "127.0.0.1:9000");
}

#[test]
fn uptime_stamps() {
    let t = UptimeTimer::new(100);
    assert_eq!(t.format_time(100), "00:00:00");
    assert_eq!(t.format_time(100 + 3 * 3600 + 25 * 60 + 7), "03:25:07");
    assert_eq!(t.format_time(100 + 123 * 3600 + 59 * 60 + 59), "123:59:59");
    assert_eq!(t.format_time(50), "00:00:00");
}

#[test]
fn text_equality() {
    assert!(same_text("a:1", "a:1"));
    assert!(!same_text("a:1", "a:2"));
    assert!(!same_text("localhost:1", "127.0.0.1:1"));
}
