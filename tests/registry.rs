use m0n1t0r_proxy::address::{HostIp, SocketAddress};
use m0n1t0r_proxy::registry::{SessionKind, SessionRegistry, SessionSummary};

fn addr(port: u16) -> SocketAddress {
    SocketAddress { ip: HostIp::V4(0x7F00_0001), port }
}

fn socks(port: u16) -> SessionKind {
    SessionKind::Socks5 { listen: addr(port), agent: addr(1) }
}

#[test]
fn ids_are_fresh_and_distinct() {
    let mut r: SessionRegistry<&str> = SessionRegistry::new();
    let a = r.insert(socks(10), "a").unwrap();
    let b = r.insert(socks(11), "b").unwrap();
    assert_ne!(a, b);
    assert_eq!(r.remove(a), Some("a"));
    let c = r.insert(socks(12), "c").unwrap();
    assert_ne!(c, a);
    assert_ne!(c, b);
    let ids: Vec<u64> = r.list().iter().map(|s| s.id).collect();
    assert_eq!(ids, vec![b, c]);
}

#[test]
fn list_is_a_snapshot_of_live_sessions() {
    let mut r: SessionRegistry<u8> = SessionRegistry::new();
    let fwd = SessionKind::Forward { from: addr(80), to: addr(8080), agent: addr(1) };
    let a = r.insert(fwd, 1).unwrap();
    let b = r.insert(socks(1080), 2).unwrap();
    assert_eq!(
        r.list(),
        vec![SessionSummary { id: a, kind: fwd }, SessionSummary { id: b, kind: socks(1080) }]
    );
    assert_eq!(r.len(), 2);
}

#[test]
fn close_twice_is_a_no_op() {
    let mut r: SessionRegistry<u8> = SessionRegistry::new();
    let a = r.insert(socks(10), 7).unwrap();
    let b = r.insert(socks(11), 8).unwrap();
    assert_eq!(r.remove(a), Some(7));
    assert!(!r.contains(a));
    assert_eq!(r.remove(a), None);
    assert_eq!(r.remove(999), None);
    assert_eq!(r.list(), vec![SessionSummary { id: b, kind: socks(11) }]);
}

#[test]
fn empty_registry_lists_nothing() {
    let r: SessionRegistry<u8> = SessionRegistry::new();
    assert!(r.list().is_empty());
    assert_eq!(r.len(), 0);
    assert!(!r.contains(0));
}
