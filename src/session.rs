use vstd::prelude::*;

use crate::address::SocketAddress;
use crate::registry::{holds_id, without, Entry, SessionKind, SessionRegistry};
use crate::socks5::{AuthConfig, AuthModel, ClientHandshake, Phase};

verus! {

/// The two cancellation scopes a session answers to.
#[derive(Clone, Copy, Debug, PartialEq, Eq, Structural)]
pub enum Scope {
    /// The agent's connection was lost; every session on it stops.
    Connection,
    /// This one session was closed, by the operator or by its own task.
    Session,
}

/// Why a tunnel or a gateway could not be opened. No session exists then.
#[derive(Clone, Copy, Debug, PartialEq, Eq, Structural)]
pub enum OpenError {
    /// No agent is connected under the given id.
    AgentNotFound,
    /// The agent could not be reached, or refused the request.
    Agent,
    /// The local listener could not be bound.
    Bind,
    /// Every session id has been handed out.
    RegistryFull,
}

/// Registers a session of `kind` once its setup came back as `setup`. A
/// failed setup is handed back and leaves the registry as it was: no session
/// is half registered.
pub fn register<H>(
    registry: &mut SessionRegistry<H>,
    setup: Result<(), OpenError>,
    kind: SessionKind,
    cancel: H,
) -> (r: Result<u64, OpenError>)
    requires
        old(registry).wf(),
    ensures
        final(registry).wf(),
        match setup {
            Err(e) => {
                &&& r == Err::<u64, OpenError>(e)
                &&& final(registry).sessions() == old(registry).sessions()
            },
            Ok(()) => if old(registry).next_id() == u64::MAX {
                r == Err::<u64, OpenError>(OpenError::RegistryFull) && final(registry).sessions()
                    == old(registry).sessions()
            } else {
                &&& r == Ok::<u64, OpenError>(old(registry).next_id())
                &&& final(registry).sessions() == old(registry).sessions().push(
                    Entry { id: old(registry).next_id(), kind, cancel },
                )
            },
        },
{
    match setup {
        Err(e) => Err(e),
        Ok(()) => match registry.insert(kind, cancel) {
            Some(id) => Ok(id),
            None => Err(OpenError::RegistryFull),
        },
    }
}

/// What the top-level loop of a forward tunnel saw.
#[derive(Clone, Copy, Debug, PartialEq, Eq, Structural)]
pub enum TunnelEvent {
    /// The agent accepted a connection on `to` and handed over its channels.
    Forwarded,
    /// Dialing the local target for one forwarded connection failed.
    LocalDialFailed,
    /// The agent's stream of connections ended or failed.
    Exhausted,
    Cancelled(Scope),
}

/// What the top-level loop of a forward tunnel does next.
#[derive(Clone, Copy, Debug, PartialEq, Eq, Structural)]
pub enum TunnelAction {
    /// Dial this local address and splice it with the forwarded channels, in
    /// a task of its own.
    Relay(SocketAddress),
    /// Go on waiting for the next connection.
    Continue,
    /// Leave the loop. `notify_agent`: send the completion signal that makes
    /// the agent stop listening. `cancel_session`: fire the session scope,
    /// so that everything spliced under it stops too.
    Stop { notify_agent: bool, cancel_session: bool },
}

/// A reverse port-forward: the agent listens on `to`, and each connection it
/// accepts is relayed to the local `from`.
pub struct ForwardTunnel {
    id: u64,
    from: SocketAddress,
    to: SocketAddress,
    agent: SocketAddress,
    running: bool,
}

impl ForwardTunnel {
    pub closed spec fn is_running(&self) -> bool {
        self.running
    }

    pub closed spec fn session_id(&self) -> u64 {
        self.id
    }

    /// The local address that forwarded connections are relayed to.
    pub closed spec fn local_target(&self) -> SocketAddress {
        self.from
    }

    pub fn id(&self) -> (r: u64)
        ensures
            r == self.session_id(),
    {
        self.id
    }

    pub closed spec fn kind(&self) -> SessionKind {
        SessionKind::Forward { from: self.from, to: self.to, agent: self.agent }
    }

    /// Opens the tunnel once the agent answered the request to listen on `to`
    /// with `agent_reply`; the session is registered only if it succeeded.
    pub fn open<H>(
        registry: &mut SessionRegistry<H>,
        agent_reply: Result<(), OpenError>,
        agent: SocketAddress,
        from: SocketAddress,
        to: SocketAddress,
        cancel: H,
    ) -> (r: Result<ForwardTunnel, OpenError>)
        requires
            old(registry).wf(),
        ensures
            final(registry).wf(),
            match r {
                Ok(t) => {
                    &&& agent_reply is Ok
                    &&& old(registry).next_id() < u64::MAX
                    &&& t.session_id() == old(registry).next_id()
                    &&& t.local_target() == from
                    &&& t.kind() == (SessionKind::Forward { from, to, agent })
                    &&& t.is_running()
                    &&& final(registry).sessions() == old(registry).sessions().push(
                        Entry { id: t.session_id(), kind: t.kind(), cancel },
                    )
                },
                Err(e) => {
                    &&& final(registry).sessions() == old(registry).sessions()
                    &&& match agent_reply {
                        Err(a) => e == a,
                        Ok(()) => e == OpenError::RegistryFull && old(registry).next_id()
                            == u64::MAX,
                    }
                },
            },
    {
        let kind = SessionKind::Forward { from, to, agent };
        match register(registry, agent_reply, kind, cancel) {
            Ok(id) => Ok(ForwardTunnel { id, from, to, agent, running: true }),
            Err(e) => Err(e),
        }
    }

    /// Decides what the loop does with `event`. A forwarded connection is
    /// relayed to `from`; a failed local dial costs only that connection.
    /// When the agent's stream ends or a cancellation fires, the tunnel
    /// stops, tells the agent once, and takes itself out of the registry.
    pub fn on_event<H>(&mut self, registry: &mut SessionRegistry<H>, event: TunnelEvent) -> (r:
        TunnelAction)
        requires
            old(registry).wf(),
        ensures
            final(registry).wf(),
            final(self).session_id() == old(self).session_id(),
            final(self).kind() == old(self).kind(),
            final(self).local_target() == old(self).local_target(),
            match event {
                TunnelEvent::Forwarded => if old(self).is_running() {
                    r == TunnelAction::Relay(old(self).local_target()) && final(self).is_running()
                        && final(registry).sessions() == old(registry).sessions()
                } else {
                    r == (TunnelAction::Stop { notify_agent: false, cancel_session: false })
                        && !final(self).is_running() && final(registry).sessions() == without(
                        old(registry).sessions(),
                        old(self).session_id(),
                    )
                },
                TunnelEvent::LocalDialFailed => {
                    &&& r == TunnelAction::Continue
                    &&& final(self).is_running() == old(self).is_running()
                    &&& final(registry).sessions() == old(registry).sessions()
                },
                TunnelEvent::Exhausted => {
                    &&& r == (TunnelAction::Stop {
                        notify_agent: old(self).is_running(),
                        cancel_session: old(self).is_running(),
                    })
                    &&& !final(self).is_running()
                    &&& final(registry).sessions() == without(old(registry).sessions(), old(self).session_id())
                },
                TunnelEvent::Cancelled(_) => {
                    &&& r == (TunnelAction::Stop {
                        notify_agent: old(self).is_running(),
                        cancel_session: false,
                    })
                    &&& !final(self).is_running()
                    &&& final(registry).sessions() == without(old(registry).sessions(), old(self).session_id())
                    &&& !holds_id(final(registry).sessions(), old(self).session_id())
                },
            },
    {
        match event {
            TunnelEvent::Forwarded => {
                if self.running {
                    TunnelAction::Relay(self.from)
                } else {
                    let _ = registry.remove(self.id);
                    TunnelAction::Stop { notify_agent: false, cancel_session: false }
                }
            },
            TunnelEvent::LocalDialFailed => TunnelAction::Continue,
            TunnelEvent::Exhausted => {
                let was = self.running;
                self.running = false;
                let _ = registry.remove(self.id);
                TunnelAction::Stop { notify_agent: was, cancel_session: was }
            },
            TunnelEvent::Cancelled(_) => {
                let was = self.running;
                self.running = false;
                let _ = registry.remove(self.id);
                TunnelAction::Stop { notify_agent: was, cancel_session: false }
            },
        }
    }
}

/// What the accept loop of a SOCKS5 gateway saw.
#[derive(Clone, Copy, Debug, PartialEq, Eq, Structural)]
pub enum GatewayEvent {
    /// A client connected.
    Accepted,
    /// The listener failed.
    ListenerFailed,
    Cancelled(Scope),
}

/// What the accept loop of a SOCKS5 gateway does next.
#[derive(Debug, PartialEq, Eq)]
pub enum GatewayAction {
    /// Run this handshake with the new client, in a task of its own.
    Serve(ClientHandshake),
    /// Leave the loop; `cancel_session` as for a tunnel.
    Stop { cancel_session: bool },
}

/// A local SOCKS5 listener whose clients are relayed out through the agent.
pub struct Socks5Gateway {
    id: u64,
    listen: SocketAddress,
    agent: SocketAddress,
    auth: AuthConfig,
    running: bool,
}

fn clone_bytes(v: &Vec<u8>) -> (r: Vec<u8>)
    ensures
        r@ == v@,
{
    let mut r: Vec<u8> = Vec::new();
    let mut i: usize = 0;
    while i < v.len()
        invariant
            i <= v@.len(),
            r@ == v@.subrange(0, i as int),
        decreases v@.len() - i,
    {
        r.push(v[i]);
        i = i + 1;
        assert(r@ =~= v@.subrange(0, i as int));
    }
    assert(v@.subrange(0, i as int) =~= v@);
    r
}

impl Socks5Gateway {
    pub closed spec fn is_running(&self) -> bool {
        self.running
    }

    pub closed spec fn auth_model(&self) -> AuthModel {
        self.auth@
    }

    pub closed spec fn session_id(&self) -> u64 {
        self.id
    }

    pub fn id(&self) -> (r: u64)
        ensures
            r == self.session_id(),
    {
        self.id
    }

    /// The address the listener is bound to.
    pub fn listen_address(&self) -> (r: SocketAddress)
        ensures
            self.kind() matches SessionKind::Socks5 { listen, .. } && r == listen,
    {
        self.listen
    }

    pub closed spec fn kind(&self) -> SessionKind {
        SessionKind::Socks5 { listen: self.listen, agent: self.agent }
    }

    /// Opens the gateway once binding its listener gave `bound` (the address
    /// actually bound); the session is registered only if it succeeded.
    pub fn open<H>(
        registry: &mut SessionRegistry<H>,
        bound: Result<SocketAddress, OpenError>,
        agent: SocketAddress,
        auth: AuthConfig,
        cancel: H,
    ) -> (r: Result<Socks5Gateway, OpenError>)
        requires
            old(registry).wf(),
        ensures
            final(registry).wf(),
            match r {
                Ok(g) => {
                    &&& bound is Ok
                    &&& old(registry).next_id() < u64::MAX
                    &&& g.session_id() == old(registry).next_id()
                    &&& g.kind() == (SessionKind::Socks5 { listen: bound->Ok_0, agent })
                    &&& g.auth_model() == auth@
                    &&& g.is_running()
                    &&& final(registry).sessions() == old(registry).sessions().push(
                        Entry { id: g.session_id(), kind: g.kind(), cancel },
                    )
                },
                Err(e) => {
                    &&& final(registry).sessions() == old(registry).sessions()
                    &&& match bound {
                        Err(b) => e == b,
                        Ok(_) => e == OpenError::RegistryFull && old(registry).next_id()
                            == u64::MAX,
                    }
                },
            },
    {
        match bound {
            Err(e) => Err(e),
            Ok(listen) => {
                let kind = SessionKind::Socks5 { listen, agent };
                match register(registry, Ok(()), kind, cancel) {
                    Ok(id) => Ok(Socks5Gateway { id, listen, agent, auth, running: true }),
                    Err(e) => Err(e),
                }
            },
        }
    }

    /// Decides what the accept loop does with `event`. Each client gets a
    /// fresh handshake under the gateway's authentication; a listener
    /// failure or a cancellation stops the gateway and takes it out of the
    /// registry.
    pub fn on_event<H>(&mut self, registry: &mut SessionRegistry<H>, event: GatewayEvent) -> (r:
        GatewayAction)
        requires
            old(registry).wf(),
        ensures
            final(registry).wf(),
            final(self).session_id() == old(self).session_id(),
            final(self).kind() == old(self).kind(),
            final(self).auth_model() == old(self).auth_model(),
            match event {
                GatewayEvent::Accepted => if old(self).is_running() {
                    &&& r matches GatewayAction::Serve(h) && h.phase == Phase::Greeting
                        && h.auth@ == old(self).auth_model()
                    &&& final(self).is_running()
                    &&& final(registry).sessions() == old(registry).sessions()
                } else {
                    &&& r == (GatewayAction::Stop { cancel_session: false })
                    &&& final(registry).sessions() == without(old(registry).sessions(), old(self).session_id())
                },
                GatewayEvent::ListenerFailed => {
                    &&& r == (GatewayAction::Stop { cancel_session: old(self).is_running() })
                    &&& !final(self).is_running()
                    &&& final(registry).sessions() == without(old(registry).sessions(), old(self).session_id())
                },
                GatewayEvent::Cancelled(_) => {
                    &&& r == (GatewayAction::Stop { cancel_session: false })
                    &&& !final(self).is_running()
                    &&& final(registry).sessions() == without(old(registry).sessions(), old(self).session_id())
                    &&& !holds_id(final(registry).sessions(), old(self).session_id())
                },
            },
    {
        match event {
            GatewayEvent::Accepted => {
                if self.running {
                    let auth = match &self.auth {
                        AuthConfig::NoAuth => AuthConfig::NoAuth,
                        AuthConfig::UsernamePassword { username, password } => {
                            AuthConfig::UsernamePassword {
                                username: clone_bytes(username),
                                password: clone_bytes(password),
                            }
                        },
                    };
                    GatewayAction::Serve(ClientHandshake::new(auth))
                } else {
                    let _ = registry.remove(self.id);
                    GatewayAction::Stop { cancel_session: false }
                }
            },
            GatewayEvent::ListenerFailed => {
                let was = self.running;
                self.running = false;
                let _ = registry.remove(self.id);
                GatewayAction::Stop { cancel_session: was }
            },
            GatewayEvent::Cancelled(_) => {
                self.running = false;
                let _ = registry.remove(self.id);
                GatewayAction::Stop { cancel_session: false }
            },
        }
    }
}

} // verus!
