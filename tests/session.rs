use m0n1t0r_proxy::address::{HostIp, SocketAddress};
use m0n1t0r_proxy::registry::{SessionKind, SessionRegistry, SessionSummary};
use m0n1t0r_proxy::session::{
    register, ForwardTunnel, GatewayAction, GatewayEvent, OpenError, Scope, Socks5Gateway,
    TunnelAction, TunnelEvent,
};
use m0n1t0r_proxy::socks5::{Action, AuthConfig, Phase};

fn addr(port: u16) -> SocketAddress {
    SocketAddress { ip: HostIp::V4(0x7F00_0001), port }
}

#[test]
fn failed_setup_registers_nothing() {
    let mut r: SessionRegistry<u8> = SessionRegistry::new();
    let kind = SessionKind::Socks5 { listen: addr(1080), agent: addr(1) };
    assert_eq!(register(&mut r, Err(OpenError::Agent), kind, 0), Err(OpenError::Agent));
    assert!(r.list().is_empty());
    let t = ForwardTunnel::open(&mut r, Err(OpenError::AgentNotFound), addr(1), addr(80), addr(90), 0);
    assert!(matches!(t, Err(OpenError::AgentNotFound)));
    let g = Socks5Gateway::open(&mut r, Err(OpenError::Bind), addr(1), AuthConfig::NoAuth, 0);
    assert!(matches!(g, Err(OpenError::Bind)));
    assert_eq!(r.len(), 0);
}

#[test]
fn forward_tunnel_relays_each_connection() {
    let mut r: SessionRegistry<u8> = SessionRegistry::new();
    let mut t = ForwardTunnel::open(&mut r, Ok(()), addr(1), addr(80), addr(9000), 3).unwrap();
    let kind = SessionKind::Forward { from: addr(80), to: addr(9000), agent: addr(1) };
    assert_eq!(r.list(), vec![SessionSummary { id: t.id(), kind }]);
    assert_eq!(t.on_event(&mut r, TunnelEvent::Forwarded), TunnelAction::Relay(addr(80)));
    assert_eq!(t.on_event(&mut r, TunnelEvent::LocalDialFailed), TunnelAction::Continue);
    assert_eq!(t.on_event(&mut r, TunnelEvent::Forwarded), TunnelAction::Relay(addr(80)));
    assert_eq!(r.len(), 1);
}

#[test]
fn cancelled_tunnel_leaves_the_registry() {
    let mut r: SessionRegistry<u8> = SessionRegistry::new();
    let mut t = ForwardTunnel::open(&mut r, Ok(()), addr(1), addr(80), addr(9000), 3).unwrap();
    let id = t.id();
    let a = t.on_event(&mut r, TunnelEvent::Cancelled(Scope::Connection));
    assert_eq!(a, TunnelAction::Stop { notify_agent: true, cancel_session: false });
    assert!(!r.contains(id));
    // A second stop neither notifies the agent again nor fails.
    let a = t.on_event(&mut r, TunnelEvent::Cancelled(Scope::Session));
    assert_eq!(a, TunnelAction::Stop { notify_agent: false, cancel_session: false });
    assert!(r.list().is_empty());
}

#[test]
fn exhausted_tunnel_cancels_its_session() {
    let mut r: SessionRegistry<u8> = SessionRegistry::new();
    let mut t = ForwardTunnel::open(&mut r, Ok(()), addr(1), addr(80), addr(9000), 3).unwrap();
    let a = t.on_event(&mut r, TunnelEvent::Exhausted);
    assert_eq!(a, TunnelAction::Stop { notify_agent: true, cancel_session: true });
    assert!(!r.contains(t.id()));
}

#[test]
fn closed_by_operator_then_cancelled() {
    let mut r: SessionRegistry<u8> = SessionRegistry::new();
    let mut t = ForwardTunnel::open(&mut r, Ok(()), addr(1), addr(80), addr(9000), 3).unwrap();
    assert_eq!(r.remove(t.id()), Some(3));
    let a = t.on_event(&mut r, TunnelEvent::Cancelled(Scope::Session));
    assert_eq!(a, TunnelAction::Stop { notify_agent: true, cancel_session: false });
    assert!(r.list().is_empty());
}

#[test]
fn gateway_serves_clients_with_its_auth() {
    let mut r: SessionRegistry<u8> = SessionRegistry::new();
    let auth = AuthConfig::UsernamePassword { username: b"u".to_vec(), password: b"p".to_vec() };
    let mut g = Socks5Gateway::open(&mut r, Ok(addr(40000)), addr(1), auth, 5).unwrap();
    assert_eq!(g.listen_address(), addr(40000));
    let kind = SessionKind::Socks5 { listen: addr(40000), agent: addr(1) };
    assert_eq!(r.list(), vec![SessionSummary { id: g.id(), kind }]);
    match g.on_event(&mut r, GatewayEvent::Accepted) {
        GatewayAction::Serve(mut h) => {
            assert_eq!(h.phase, Phase::Greeting);
            assert_eq!(h.on_input(&[5, 1, 2]).0, Action::Send(vec![5, 2]));
            let (a, _) = h.on_input(&[1, 1, b'u', 1, b'p']);
            assert_eq!(a, Action::Send(vec![1, 0]));
        }
        GatewayAction::Stop { .. } => panic!("gateway stopped"),
    }
}

#[test]
fn cancelled_gateway_leaves_the_registry() {
    let mut r: SessionRegistry<u8> = SessionRegistry::new();
    let mut g = Socks5Gateway::open(&mut r, Ok(addr(40000)), addr(1), AuthConfig::NoAuth, 5).unwrap();
    let id = g.id();
    let a = g.on_event(&mut r, GatewayEvent::Cancelled(Scope::Connection));
    assert_eq!(a, GatewayAction::Stop { cancel_session: false });
    assert!(!r.contains(id));
    let a = g.on_event(&mut r, GatewayEvent::Accepted);
    assert_eq!(a, GatewayAction::Stop { cancel_session: false });
}

#[test]
fn listener_failure_stops_the_gateway() {
    let mut r: SessionRegistry<u8> = SessionRegistry::new();
    let mut g = Socks5Gateway::open(&mut r, Ok(addr(40000)), addr(1), AuthConfig::NoAuth, 5).unwrap();
    let a = g.on_event(&mut r, GatewayEvent::ListenerFailed);
    assert_eq!(a, GatewayAction::Stop { cancel_session: true });
    assert_eq!(r.len(), 0);
}
