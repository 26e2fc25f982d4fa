use tripwire::handler::{decide, HandlerAction, ReadOutcome};
use tripwire::supervisor::{decimal_string, port_range, BindTarget, ListenerPool, ListenerStatus};

#[test]
fn ports_render_in_decimal() {
    assert_eq!(decimal_string(0), "0");
    assert_eq!(decimal_string(7), "7");
    assert_eq!(decimal_string(10), "10");
    assert_eq!(decimal_string(1000), "1000");
    assert_eq!(decimal_string(65535), "65535");
}

#[test]
fn bind_target_renders_host_and_port() {
    let target = BindTarget::new("172.21.123.251".to_string(), 1000);
    assert_eq!(target.address(), "172.21.123.251:1000");
    let local = BindTarget::new("127.0.0.1".to_string(), 65535);
    assert_eq!(local.address(), "127.0.0.1:65535");
}

#[test]
fn port_range_is_contiguous() {
    let ports = port_range(1000, 5);
    assert_eq!(ports, vec![1000, 1001, 1002, 1003, 1004]);
    let full = port_range(1000, 1000);
    assert_eq!(full.len(), 1000);
    assert_eq!(full[0], 1000);
    assert_eq!(full[999], 1999);
    assert!(port_range(5000, 0).is_empty());
}

#[test]
fn fresh_pool_starts_every_listener() {
    let pool = ListenerPool::new(3);
    assert_eq!(pool.len(), 3);
    for i in 0..3 {
        assert_eq!(pool.status(i), ListenerStatus::Starting);
        assert!(!pool.accepts_new(i));
    }
    assert!(!pool.is_shutdown());
}

#[test]
fn bind_failure_leaves_siblings_accepting() {
    let mut pool = ListenerPool::new(2);
    pool.record_bind(0, true);
    pool.record_bind(1, false);
    assert_eq!(pool.status(0), ListenerStatus::Listening);
    assert!(pool.accepts_new(0));
    assert_eq!(pool.status(1), ListenerStatus::BindFailed);
    assert!(!pool.accepts_new(1));
}

#[test]
fn shutdown_closes_every_accept_gate() {
    let mut pool = ListenerPool::new(4);
    for i in 0..4 {
        pool.record_bind(i, true);
        assert!(pool.accepts_new(i));
    }
    pool.trigger_shutdown();
    assert!(pool.is_shutdown());
    for i in 0..4 {
        assert!(!pool.accepts_new(i));
        assert_eq!(pool.status(i), ListenerStatus::Listening);
    }
    let in_flight = decide(&ReadOutcome::Received("GET / HTTP/1.1\r\n\r\n".to_string()));
    assert_eq!(in_flight, HandlerAction::Respond);
}

#[test]
fn stopped_listener_no_longer_accepts() {
    let mut pool = ListenerPool::new(2);
    pool.record_bind(0, true);
    pool.record_bind(1, true);
    pool.mark_stopped(0);
    assert_eq!(pool.status(0), ListenerStatus::Stopped);
    assert!(!pool.accepts_new(0));
    assert!(pool.accepts_new(1));
}
