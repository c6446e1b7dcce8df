use vstd::prelude::*;

use crate::address::{be_value, read_be, HostIp, SocketAddress};

verus! {

/// Protocol version byte of every greeting and request.
pub const VERSION: u8 = 5;

/// Version byte of the username/password sub-negotiation.
pub const AUTH_VERSION: u8 = 1;

pub const METHOD_NO_AUTH: u8 = 0;

pub const METHOD_USER_PASS: u8 = 2;

pub const METHOD_NONE_ACCEPTABLE: u8 = 0xFF;

pub const ATYP_V4: u8 = 1;

pub const ATYP_DOMAIN: u8 = 3;

pub const ATYP_V6: u8 = 4;

/// The outcome of reading one message from the front of a buffer.
#[derive(Debug, PartialEq, Eq)]
pub enum Parsed<T> {
    /// The buffer holds a proper prefix of a message: read more.
    Incomplete,
    /// The buffer does not start with a message of the expected shape.
    Invalid,
    /// A message, and the number of bytes it took.
    Done(T, usize),
}

impl<T: View> View for Parsed<T> {
    type V = Parsed<T::V>;

    open spec fn view(&self) -> Parsed<T::V> {
        match self {
            Parsed::Incomplete => Parsed::Incomplete,
            Parsed::Invalid => Parsed::Invalid,
            Parsed::Done(v, n) => Parsed::Done(v@, *n),
        }
    }
}

/// How clients of a gateway authenticate.
#[derive(Debug, PartialEq, Eq)]
pub enum AuthConfig {
    NoAuth,
    UsernamePassword { username: Vec<u8>, password: Vec<u8> },
}

pub enum AuthModel {
    NoAuth,
    UsernamePassword(Seq<u8>, Seq<u8>),
}

impl View for AuthConfig {
    type V = AuthModel;

    open spec fn view(&self) -> AuthModel {
        match self {
            AuthConfig::NoAuth => AuthModel::NoAuth,
            AuthConfig::UsernamePassword { username, password } => AuthModel::UsernamePassword(
                username@,
                password@,
            ),
        }
    }
}

/// The method byte that a gateway configured with `auth` offers.
pub open spec fn method_of(auth: AuthModel) -> u8 {
    match auth {
        AuthModel::NoAuth => METHOD_NO_AUTH,
        AuthModel::UsernamePassword(_, _) => METHOD_USER_PASS,
    }
}

#[derive(Clone, Copy, Debug, PartialEq, Eq, Structural)]
pub enum Command {
    Connect,
    Bind,
    UdpAssociate,
}

pub open spec fn command_of(b: u8) -> Option<Command> {
    if b == 1 {
        Some(Command::Connect)
    } else if b == 2 {
        Some(Command::Bind)
    } else if b == 3 {
        Some(Command::UdpAssociate)
    } else {
        None
    }
}

/// Where a client asks to be connected.
#[derive(Debug, PartialEq, Eq)]
pub enum Target {
    Socket(SocketAddress),
    Domain(Vec<u8>, u16),
}

pub enum TargetModel {
    Socket(SocketAddress),
    Domain(Seq<u8>, u16),
}

impl View for Target {
    type V = TargetModel;

    open spec fn view(&self) -> TargetModel {
        match self {
            Target::Socket(a) => TargetModel::Socket(*a),
            Target::Domain(d, p) => TargetModel::Domain(d@, *p),
        }
    }
}

#[derive(Debug, PartialEq, Eq)]
pub struct Request {
    pub command: Command,
    pub target: Target,
}

pub struct RequestModel {
    pub command: Command,
    pub target: TargetModel,
}

impl View for Request {
    type V = RequestModel;

    open spec fn view(&self) -> RequestModel {
        RequestModel { command: self.command, target: self.target@ }
    }
}

/// The status codes of a reply.
#[derive(Clone, Copy, Debug, PartialEq, Eq, Structural)]
pub enum ReplyCode {
    Succeeded,
    GeneralFailure,
    ConnectionNotAllowed,
    NetworkUnreachable,
    HostUnreachable,
    ConnectionRefused,
    TtlExpired,
    CommandNotSupported,
    AddressTypeNotSupported,
}

pub open spec fn spec_reply_byte(c: ReplyCode) -> u8 {
    match c {
        ReplyCode::Succeeded => 0,
        ReplyCode::GeneralFailure => 1,
        ReplyCode::ConnectionNotAllowed => 2,
        ReplyCode::NetworkUnreachable => 3,
        ReplyCode::HostUnreachable => 4,
        ReplyCode::ConnectionRefused => 5,
        ReplyCode::TtlExpired => 6,
        ReplyCode::CommandNotSupported => 7,
        ReplyCode::AddressTypeNotSupported => 8,
    }
}

pub fn reply_byte(c: ReplyCode) -> (r: u8)
    ensures
        r == spec_reply_byte(c),
{
    match c {
        ReplyCode::Succeeded => 0,
        ReplyCode::GeneralFailure => 1,
        ReplyCode::ConnectionNotAllowed => 2,
        ReplyCode::NetworkUnreachable => 3,
        ReplyCode::HostUnreachable => 4,
        ReplyCode::ConnectionRefused => 5,
        ReplyCode::TtlExpired => 6,
        ReplyCode::CommandNotSupported => 7,
        ReplyCode::AddressTypeNotSupported => 8,
    }
}

/// A reply carrying `code` and the unspecified bound address `0.0.0.0:0`.
pub open spec fn reply_bytes(code: ReplyCode) -> Seq<u8> {
    seq![VERSION, spec_reply_byte(code), 0, ATYP_V4, 0, 0, 0, 0, 0, 0]
}

pub fn encode_reply(code: ReplyCode) -> (r: Vec<u8>)
    ensures
        r@ == reply_bytes(code),
{
    let r = vec![VERSION, reply_byte(code), 0, ATYP_V4, 0, 0, 0, 0, 0, 0];
    assert(r@ =~= reply_bytes(code));
    r
}

/// The answer to a greeting: the version and the chosen method.
pub open spec fn method_reply(method: u8) -> Seq<u8> {
    seq![VERSION, method]
}

/// The answer to a username/password sub-negotiation.
pub open spec fn auth_status_reply(ok: bool) -> Seq<u8> {
    seq![AUTH_VERSION, if ok { 0u8 } else { 1u8 }]
}

/// Reads a greeting (version, method count, methods) and picks the method:
/// the one that `auth` calls for if the client lists it, else "none acceptable".
pub open spec fn spec_choose_method(auth: AuthModel, s: Seq<u8>) -> Parsed<u8> {
    if s.len() < 1 {
        Parsed::Incomplete
    } else if s[0] != VERSION {
        Parsed::Invalid
    } else if s.len() < 2 || s.len() < 2 + s[1] {
        Parsed::Incomplete
    } else {
        let offered = s.subrange(2, 2 + s[1]);
        Parsed::Done(
            if offered.contains(method_of(auth)) {
                method_of(auth)
            } else {
                METHOD_NONE_ACCEPTABLE
            },
            (2 + s[1]) as usize,
        )
    }
}

pub fn choose_method(auth: &AuthConfig, buf: &[u8]) -> (r: Parsed<u8>)
    ensures
        r@ == spec_choose_method(auth@, buf@),
{
    let len = buf.len();
    if len < 1 {
        return Parsed::Incomplete;
    }
    if buf[0] != VERSION {
        return Parsed::Invalid;
    }
    if len < 2 || len < 2 + buf[1] as usize {
        return Parsed::Incomplete;
    }
    let n = buf[1] as usize;
    let want = match auth {
        AuthConfig::NoAuth => METHOD_NO_AUTH,
        AuthConfig::UsernamePassword { .. } => METHOD_USER_PASS,
    };
    let ghost offered = buf@.subrange(2, 2 + n);
    let mut found = false;
    let mut i: usize = 0;
    while i < n
        invariant
            n + 2 <= len,
            len == buf@.len(),
            offered == buf@.subrange(2, 2 + n),
            i <= n,
            found <==> exists|j: int| 0 <= j < i && offered[j] == want,
        decreases n - i,
    {
        assert(offered[i as int] == buf@[2 + i]);
        if buf[2 + i] == want {
            found = true;
        }
        i = i + 1;
        assert(found ==> exists|j: int| 0 <= j < i && offered[j] == want);
    }
    assert(found <==> offered.contains(want));
    Parsed::Done(
        if found {
            want
        } else {
            METHOD_NONE_ACCEPTABLE
        },
        2 + n,
    )
}


/// Whether the `n` bytes of `buf` from `start` are `expect`.
fn bytes_equal(buf: &[u8], start: usize, n: usize, expect: &Vec<u8>) -> (r: bool)
    requires
        start + n <= buf@.len(),
    ensures
        r == (buf@.subrange(start as int, start + n) == expect@),
{
    let len = buf.len();
    if n != expect.len() {
        return false;
    }
    let mut i: usize = 0;
    while i < n
        invariant
            start + n <= len,
            len == buf@.len(),
            n == expect@.len(),
            i <= n,
            forall|j: int| 0 <= j < i ==> buf@[start + j] == expect@[j],
        decreases n - i,
    {
        if buf[start + i] != expect[i] {
            assert(buf@.subrange(start as int, start + n)[i as int] != expect@[i as int]);
            return false;
        }
        i = i + 1;
    }
    assert(buf@.subrange(start as int, start + n) =~= expect@);
    true
}

/// A copy of the `n` bytes of `buf` from `start`.
fn copy_bytes(buf: &[u8], start: usize, n: usize) -> (r: Vec<u8>)
    requires
        start + n <= buf@.len(),
    ensures
        r@ == buf@.subrange(start as int, start + n),
{
    let len = buf.len();
    let mut r: Vec<u8> = Vec::new();
    let mut i: usize = 0;
    while i < n
        invariant
            start + n <= len,
            len == buf@.len(),
            i <= n,
            r@ == buf@.subrange(start as int, start + i),
        decreases n - i,
    {
        r.push(buf[start + i]);
        i = i + 1;
        assert(r@ =~= buf@.subrange(start as int, start + i));
    }
    r
}

/// Reads a username/password sub-negotiation (version, name length, name,
/// password length, password) and tells whether the pair is `(user, pass)`.
pub open spec fn spec_check_credentials(user: Seq<u8>, pass: Seq<u8>, s: Seq<u8>) -> Parsed<bool> {
    if s.len() < 1 {
        Parsed::Incomplete
    } else if s[0] != AUTH_VERSION {
        Parsed::Invalid
    } else if s.len() < 2 || s.len() < 3 + s[1] {
        Parsed::Incomplete
    } else if s.len() < 3 + s[1] + s[2 + s[1]] {
        Parsed::Incomplete
    } else {
        let ul = s[1] as int;
        let pl = s[2 + ul] as int;
        Parsed::Done(
            s.subrange(2, 2 + ul) == user && s.subrange(3 + ul, 3 + ul + pl) == pass,
            (3 + ul + pl) as usize,
        )
    }
}

pub fn check_credentials(username: &Vec<u8>, password: &Vec<u8>, buf: &[u8]) -> (r: Parsed<bool>)
    ensures
        r@ == spec_check_credentials(username@, password@, buf@),
{
    let len = buf.len();
    if len < 1 {
        return Parsed::Incomplete;
    }
    if buf[0] != AUTH_VERSION {
        return Parsed::Invalid;
    }
    if len < 2 || len < 3 + buf[1] as usize {
        return Parsed::Incomplete;
    }
    let ul = buf[1] as usize;
    let pl = buf[2 + ul] as usize;
    if len < 3 + ul + pl {
        return Parsed::Incomplete;
    }
    let user_ok = bytes_equal(buf, 2, ul, username);
    let pass_ok = bytes_equal(buf, 3 + ul, pl, password);
    Parsed::Done(user_ok && pass_ok, 3 + ul + pl)
}

/// The port that the two bytes of `s` from `at` spell.
pub open spec fn port_at(s: Seq<u8>, at: int) -> u16 {
    be_value(s.subrange(at, at + 2)) as u16
}

/// Reads a request: version, command, a reserved byte, then the target as an
/// IPv4 address, a length-prefixed domain name or an IPv6 address, each
/// followed by a port.
pub open spec fn spec_parse_request(s: Seq<u8>) -> Parsed<RequestModel> {
    if s.len() < 1 {
        Parsed::Incomplete
    } else if s[0] != VERSION {
        Parsed::Invalid
    } else if s.len() < 2 {
        Parsed::Incomplete
    } else if command_of(s[1]).is_none() {
        Parsed::Invalid
    } else if s.len() < 4 {
        Parsed::Incomplete
    } else {
        let command = command_of(s[1]).unwrap();
        if s[3] == ATYP_V4 {
            if s.len() < 10 {
                Parsed::Incomplete
            } else {
                let ip = HostIp::V4(be_value(s.subrange(4, 8)) as u32);
                Parsed::Done(
                    RequestModel {
                        command,
                        target: TargetModel::Socket(SocketAddress { ip, port: port_at(s, 8) }),
                    },
                    10,
                )
            }
        } else if s[3] == ATYP_V6 {
            if s.len() < 22 {
                Parsed::Incomplete
            } else {
                let ip = HostIp::V6(be_value(s.subrange(4, 20)) as u128);
                Parsed::Done(
                    RequestModel {
                        command,
                        target: TargetModel::Socket(SocketAddress { ip, port: port_at(s, 20) }),
                    },
                    22,
                )
            }
        } else if s[3] == ATYP_DOMAIN {
            if s.len() < 5 || s.len() < 7 + s[4] {
                Parsed::Incomplete
            } else {
                let dl = s[4] as int;
                Parsed::Done(
                    RequestModel {
                        command,
                        target: TargetModel::Domain(s.subrange(5, 5 + dl), port_at(s, 5 + dl)),
                    },
                    (7 + dl) as usize,
                )
            }
        } else {
            Parsed::Invalid
        }
    }
}

pub fn parse_request(buf: &[u8]) -> (r: Parsed<Request>)
    ensures
        r@ == spec_parse_request(buf@),
{
    let len = buf.len();
    if len < 1 {
        return Parsed::Incomplete;
    }
    if buf[0] != VERSION {
        return Parsed::Invalid;
    }
    if len < 2 {
        return Parsed::Incomplete;
    }
    let command = if buf[1] == 1 {
        Command::Connect
    } else if buf[1] == 2 {
        Command::Bind
    } else if buf[1] == 3 {
        Command::UdpAssociate
    } else {
        return Parsed::Invalid;
    };
    if len < 4 {
        return Parsed::Incomplete;
    }
    let atyp = buf[3];
    if atyp == ATYP_V4 {
        if len < 10 {
            return Parsed::Incomplete;
        }
        let ip = HostIp::V4(read_be(buf, 4, 4) as u32);
        let port = read_be(buf, 8, 2) as u16;
        Parsed::Done(Request { command, target: Target::Socket(SocketAddress { ip, port }) }, 10)
    } else if atyp == ATYP_V6 {
        if len < 22 {
            return Parsed::Incomplete;
        }
        let ip = HostIp::V6(read_be(buf, 4, 16));
        let port = read_be(buf, 20, 2) as u16;
        Parsed::Done(Request { command, target: Target::Socket(SocketAddress { ip, port }) }, 22)
    } else if atyp == ATYP_DOMAIN {
        if len < 5 || len < 7 + buf[4] as usize {
            return Parsed::Incomplete;
        }
        let dl = buf[4] as usize;
        let domain = copy_bytes(buf, 5, dl);
        let port = read_be(buf, 5 + dl, 2) as u16;
        Parsed::Done(Request { command, target: Target::Domain(domain, port) }, 7 + dl)
    } else {
        Parsed::Invalid
    }
}


/// Where a client connection stands.
#[derive(Clone, Copy, Debug, PartialEq, Eq, Structural)]
pub enum Phase {
    /// Waiting for the greeting that offers methods.
    Greeting,
    /// Waiting for the username and password.
    Credentials,
    /// Waiting for the request.
    Request,
    /// A domain name is being looked up.
    Resolving,
    /// The agent is dialing the target.
    Connecting,
    /// Bytes flow between the client and the agent.
    Relaying,
    Closed,
}

/// What the connection's driver does next.
#[derive(Debug, PartialEq, Eq)]
pub enum Action {
    /// Read more bytes and offer them again.
    NeedMore,
    /// Write these bytes to the client and go on reading.
    Send(Vec<u8>),
    /// Write this negative reply, then close the connection.
    Refuse(Vec<u8>),
    /// Write this failed authentication status, then close the connection;
    /// the connection fails as forbidden. Comes of credentials that do not
    /// match and of a malformed credentials message.
    Forbidden(Vec<u8>),
    /// Close the connection without a reply: the input was malformed or
    /// came when none was expected.
    Drop,
    /// Look up this domain name; report the first address found.
    Resolve(Vec<u8>, u16),
    /// Ask the agent to dial this address; report whether it could.
    Dial(SocketAddress),
    /// Write this reply, then splice the client with the agent's channel.
    Relay(Vec<u8>),
}

pub enum ActionModel {
    NeedMore,
    Send(Seq<u8>),
    Refuse(Seq<u8>),
    Forbidden(Seq<u8>),
    Drop,
    Resolve(Seq<u8>, u16),
    Dial(SocketAddress),
    Relay(Seq<u8>),
}

impl View for Action {
    type V = ActionModel;

    open spec fn view(&self) -> ActionModel {
        match self {
            Action::NeedMore => ActionModel::NeedMore,
            Action::Send(b) => ActionModel::Send(b@),
            Action::Refuse(b) => ActionModel::Refuse(b@),
            Action::Forbidden(b) => ActionModel::Forbidden(b@),
            Action::Drop => ActionModel::Drop,
            Action::Resolve(d, p) => ActionModel::Resolve(d@, *p),
            Action::Dial(a) => ActionModel::Dial(*a),
            Action::Relay(b) => ActionModel::Relay(b@),
        }
    }
}

/// The next phase, the action, and how many input bytes were used.
pub struct Step {
    pub phase: Phase,
    pub action: ActionModel,
    pub consumed: nat,
}

/// What a connection in `phase` does with the bytes `s` that the client sent.
pub open spec fn spec_on_input(phase: Phase, auth: AuthModel, s: Seq<u8>) -> Step {
    match phase {
        Phase::Greeting => match spec_choose_method(auth, s) {
            Parsed::Incomplete => Step { phase, action: ActionModel::NeedMore, consumed: 0 },
            Parsed::Invalid => Step { phase: Phase::Closed, action: ActionModel::Drop, consumed: 0 },
            Parsed::Done(m, n) => if m == METHOD_NONE_ACCEPTABLE {
                Step {
                    phase: Phase::Closed,
                    action: ActionModel::Refuse(method_reply(m)),
                    consumed: n as nat,
                }
            } else if m == METHOD_USER_PASS {
                Step {
                    phase: Phase::Credentials,
                    action: ActionModel::Send(method_reply(m)),
                    consumed: n as nat,
                }
            } else {
                Step {
                    phase: Phase::Request,
                    action: ActionModel::Send(method_reply(m)),
                    consumed: n as nat,
                }
            },
        },
        Phase::Credentials => match auth {
            AuthModel::UsernamePassword(user, pass) => match spec_check_credentials(user, pass, s) {
                Parsed::Incomplete => Step { phase, action: ActionModel::NeedMore, consumed: 0 },
                Parsed::Invalid => Step {
                    phase: Phase::Closed,
                    action: ActionModel::Forbidden(auth_status_reply(false)),
                    consumed: 0,
                },
                Parsed::Done(ok, n) => if ok {
                    Step {
                        phase: Phase::Request,
                        action: ActionModel::Send(auth_status_reply(true)),
                        consumed: n as nat,
                    }
                } else {
                    Step {
                        phase: Phase::Closed,
                        action: ActionModel::Forbidden(auth_status_reply(false)),
                        consumed: n as nat,
                    }
                },
            },
            AuthModel::NoAuth => Step { phase: Phase::Closed, action: ActionModel::Drop, consumed: 0 },
        },
        Phase::Request => match spec_parse_request(s) {
            Parsed::Incomplete => Step { phase, action: ActionModel::NeedMore, consumed: 0 },
            Parsed::Invalid => Step { phase: Phase::Closed, action: ActionModel::Drop, consumed: 0 },
            Parsed::Done(req, n) => match req.command {
                Command::Connect => match req.target {
                    TargetModel::Socket(a) => Step {
                        phase: Phase::Connecting,
                        action: ActionModel::Dial(a),
                        consumed: n as nat,
                    },
                    TargetModel::Domain(d, p) => Step {
                        phase: Phase::Resolving,
                        action: ActionModel::Resolve(d, p),
                        consumed: n as nat,
                    },
                },
                _ => Step {
                    phase: Phase::Closed,
                    action: ActionModel::Refuse(reply_bytes(ReplyCode::CommandNotSupported)),
                    consumed: n as nat,
                },
            },
        },
        _ => Step { phase: Phase::Closed, action: ActionModel::Drop, consumed: 0 },
    }
}

/// What a connection in `phase` does when the lookup of its target's name
/// gave `found` (the first address, if any).
pub open spec fn spec_on_resolved(phase: Phase, found: Option<SocketAddress>) -> (Phase, ActionModel) {
    if phase == Phase::Resolving {
        match found {
            Some(a) => (Phase::Connecting, ActionModel::Dial(a)),
            None => (Phase::Closed, ActionModel::Refuse(reply_bytes(ReplyCode::ConnectionRefused))),
        }
    } else {
        (Phase::Closed, ActionModel::Drop)
    }
}

/// What a connection in `phase` does once the agent has dialed (or failed to).
pub open spec fn spec_on_dialed(phase: Phase, ok: bool) -> (Phase, ActionModel) {
    if phase == Phase::Connecting {
        if ok {
            (Phase::Relaying, ActionModel::Relay(reply_bytes(ReplyCode::Succeeded)))
        } else {
            (Phase::Closed, ActionModel::Refuse(reply_bytes(ReplyCode::GeneralFailure)))
        }
    } else {
        (Phase::Closed, ActionModel::Drop)
    }
}

/// One client connection of a SOCKS5 gateway, from its greeting to the
/// start of the relay.
#[derive(Debug, PartialEq, Eq)]
pub struct ClientHandshake {
    pub phase: Phase,
    pub auth: AuthConfig,
}

fn method_reply_vec(m: u8) -> (r: Vec<u8>)
    ensures
        r@ == method_reply(m),
{
    let r = vec![VERSION, m];
    assert(r@ =~= method_reply(m));
    r
}

fn auth_status_vec(ok: bool) -> (r: Vec<u8>)
    ensures
        r@ == auth_status_reply(ok),
{
    let r = vec![AUTH_VERSION, if ok { 0u8 } else { 1u8 }];
    assert(r@ =~= auth_status_reply(ok));
    r
}

impl ClientHandshake {
    pub fn new(auth: AuthConfig) -> (r: ClientHandshake)
        ensures
            r.phase == Phase::Greeting,
            r.auth@ == auth@,
    {
        ClientHandshake { phase: Phase::Greeting, auth }
    }

    /// Takes the bytes the client has sent so far and not yet consumed.
    /// Returns the action and how many of the bytes it used.
    pub fn on_input(&mut self, buf: &[u8]) -> (r: (Action, usize))
        ensures
            final(self).auth@ == old(self).auth@,
            final(self).phase == spec_on_input(old(self).phase, old(self).auth@, buf@).phase,
            r.0@ == spec_on_input(old(self).phase, old(self).auth@, buf@).action,
            r.1 as nat == spec_on_input(old(self).phase, old(self).auth@, buf@).consumed,
            r.1 <= buf@.len(),
    {
        match self.phase {
            Phase::Greeting => match choose_method(&self.auth, buf) {
                Parsed::Incomplete => (Action::NeedMore, 0),
                Parsed::Invalid => {
                    self.phase = Phase::Closed;
                    (Action::Drop, 0)
                },
                Parsed::Done(m, n) => {
                    if m == METHOD_NONE_ACCEPTABLE {
                        self.phase = Phase::Closed;
                        (Action::Refuse(method_reply_vec(m)), n)
                    } else if m == METHOD_USER_PASS {
                        self.phase = Phase::Credentials;
                        (Action::Send(method_reply_vec(m)), n)
                    } else {
                        self.phase = Phase::Request;
                        (Action::Send(method_reply_vec(m)), n)
                    }
                },
            },
            Phase::Credentials => {
                let checked = match &self.auth {
                    AuthConfig::UsernamePassword { username, password } => check_credentials(
                        username,
                        password,
                        buf,
                    ),
                    AuthConfig::NoAuth => {
                        self.phase = Phase::Closed;
                        return (Action::Drop, 0);
                    },
                };
                match checked {
                    Parsed::Incomplete => (Action::NeedMore, 0),
                    Parsed::Invalid => {
                        self.phase = Phase::Closed;
                        (Action::Forbidden(auth_status_vec(false)), 0)
                    },
                    Parsed::Done(ok, n) => {
                        if ok {
                            self.phase = Phase::Request;
                            (Action::Send(auth_status_vec(true)), n)
                        } else {
                            self.phase = Phase::Closed;
                            (Action::Forbidden(auth_status_vec(false)), n)
                        }
                    },
                }
            },
            Phase::Request => match parse_request(buf) {
                Parsed::Incomplete => (Action::NeedMore, 0),
                Parsed::Invalid => {
                    self.phase = Phase::Closed;
                    (Action::Drop, 0)
                },
                Parsed::Done(req, n) => match req.command {
                    Command::Connect => match req.target {
                        Target::Socket(a) => {
                            self.phase = Phase::Connecting;
                            (Action::Dial(a), n)
                        },
                        Target::Domain(d, p) => {
                            self.phase = Phase::Resolving;
                            (Action::Resolve(d, p), n)
                        },
                    },
                    _ => {
                        self.phase = Phase::Closed;
                        (Action::Refuse(encode_reply(ReplyCode::CommandNotSupported)), n)
                    },
                },
            },
            _ => {
                self.phase = Phase::Closed;
                (Action::Drop, 0)
            },
        }
    }

    /// Takes the outcome of the name lookup that `Resolve` asked for.
    pub fn on_resolved(&mut self, found: Option<SocketAddress>) -> (r: Action)
        ensures
            final(self).auth@ == old(self).auth@,
            final(self).phase == spec_on_resolved(old(self).phase, found).0,
            r@ == spec_on_resolved(old(self).phase, found).1,
    {
        if self.phase == Phase::Resolving {
            match found {
                Some(a) => {
                    self.phase = Phase::Connecting;
                    Action::Dial(a)
                },
                None => {
                    self.phase = Phase::Closed;
                    Action::Refuse(encode_reply(ReplyCode::ConnectionRefused))
                },
            }
        } else {
            self.phase = Phase::Closed;
            Action::Drop
        }
    }

    /// Takes the outcome of the dial that `Dial` asked for.
    pub fn on_dialed(&mut self, ok: bool) -> (r: Action)
        ensures
            final(self).auth@ == old(self).auth@,
            final(self).phase == spec_on_dialed(old(self).phase, ok).0,
            r@ == spec_on_dialed(old(self).phase, ok).1,
    {
        if self.phase == Phase::Connecting {
            if ok {
                self.phase = Phase::Relaying;
                Action::Relay(encode_reply(ReplyCode::Succeeded))
            } else {
                self.phase = Phase::Closed;
                Action::Refuse(encode_reply(ReplyCode::GeneralFailure))
            }
        } else {
            self.phase = Phase::Closed;
            Action::Drop
        }
    }
}


/// A closed connection stays closed: whatever comes after, it neither reads
/// a request nor asks for a lookup or a dial.
pub proof fn lemma_closed_is_final(auth: AuthModel, s: Seq<u8>, found: Option<SocketAddress>, ok: bool)
    ensures
        spec_on_input(Phase::Closed, auth, s) == (Step {
            phase: Phase::Closed,
            action: ActionModel::Drop,
            consumed: 0,
        }),
        spec_on_resolved(Phase::Closed, found) == (Phase::Closed, ActionModel::Drop),
        spec_on_dialed(Phase::Closed, ok) == (Phase::Closed, ActionModel::Drop),
{
}

/// A request to bind or to associate UDP is answered with "command not
/// supported" and the connection closes, without a dial.
pub proof fn lemma_unsupported_command_refused(auth: AuthModel, s: Seq<u8>)
    requires
        spec_parse_request(s) is Done,
        spec_parse_request(s)->Done_0.command != Command::Connect,
    ensures
        spec_on_input(Phase::Request, auth, s).action == ActionModel::Refuse(
            reply_bytes(ReplyCode::CommandNotSupported),
        ),
        spec_on_input(Phase::Request, auth, s).phase == Phase::Closed,
        reply_bytes(ReplyCode::CommandNotSupported)[1] == 7,
{
}

/// A connect request naming a domain is looked up first; when the lookup
/// finds nothing the client is told "connection refused" and the
/// connection closes, without a dial.
pub proof fn lemma_unresolved_domain_refused(auth: AuthModel, s: Seq<u8>)
    requires
        spec_parse_request(s) is Done,
        spec_parse_request(s)->Done_0.command == Command::Connect,
        spec_parse_request(s)->Done_0.target is Domain,
    ensures
        spec_on_input(Phase::Request, auth, s).phase == Phase::Resolving,
        spec_on_input(Phase::Request, auth, s).action is Resolve,
        spec_on_resolved(Phase::Resolving, None) == (
            Phase::Closed,
            ActionModel::Refuse(reply_bytes(ReplyCode::ConnectionRefused)),
        ),
        reply_bytes(ReplyCode::ConnectionRefused)[1] == 5,
{
}

/// With username/password authentication, credentials that do not match,
/// or a credentials message that is malformed, fail the connection as
/// forbidden; it closes and no request is read.
pub proof fn lemma_credentials_mismatch_forbidden(user: Seq<u8>, pass: Seq<u8>, s: Seq<u8>, later: Seq<u8>)
    requires
        match spec_check_credentials(user, pass, s) {
            Parsed::Incomplete => false,
            Parsed::Invalid => true,
            Parsed::Done(ok, _) => !ok,
        },
    ensures
        spec_on_input(Phase::Credentials, AuthModel::UsernamePassword(user, pass), s).action
            == ActionModel::Forbidden(auth_status_reply(false)),
        spec_on_input(Phase::Credentials, AuthModel::UsernamePassword(user, pass), s).phase
            == Phase::Closed,
        spec_on_input(Phase::Closed, AuthModel::UsernamePassword(user, pass), later).action
            == ActionModel::Drop,
{
}

} // verus!
