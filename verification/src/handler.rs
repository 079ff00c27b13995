//! The per-connection protocol state machine: greeting, method
//! negotiation, optional username/password subnegotiation, request
//! parsing, resolve/connect, and relay — as a pure transition function
//! from state and event to next state, bytes owed to the client, and the
//! next action. An unverified driver performs the actions (reads, writes,
//! DNS lookups, connects, relaying) and feeds the outcomes back in.

use vstd::prelude::*;

use crate::codec::{spec_port_of, spec_reply_bytes, merge_port, SocksReply};
use crate::negotiate::{authed, available_methods, select_method, spec_available, spec_creds_ok,
    spec_select, NO_AUTH, NO_METHODS, USER_PASS};
use crate::resolver::{domain_text, endpoints_from_ips, spec_v4_of, spec_v6_of, v4_endpoints,
    v6_endpoints, Endpoint, IpAddress};
use crate::text::{lossy_text, utf8_text};
use crate::types::{AddrType, ResponseCode, SockCommand, User};
use crate::SOCKS_VERSION;
use vstd::slice::slice_subrange;

verus! {

/// Immutable server-wide configuration, shared read-only by every
/// connection: the ordered auth-method list, the credential set, and the
/// outbound-connect timeout in milliseconds.
pub struct Config {
    pub auth_methods: Vec<u8>,
    pub users: Vec<User>,
    pub timeout_ms: u64,
}

impl Config {
    /// Configuration with the given methods, credentials, and timeout.
    pub fn new(auth_methods: Vec<u8>, users: Vec<User>, timeout_ms: u64) -> (c: Config)
        ensures
            c.auth_methods@ == auth_methods@,
            c.users@ == users@,
            c.timeout_ms == timeout_ms,
    {
        Config { auth_methods, users, timeout_ms }
    }

    /// Configuration that accepts only unauthenticated clients.
    pub fn new_no_auth(timeout_ms: u64) -> (c: Config)
        ensures
            c.auth_methods@ =~= seq![NO_AUTH],
            c.users@.len() == 0,
            c.timeout_ms == timeout_ms,
    {
        let mut auth_methods: Vec<u8> = Vec::new();
        auth_methods.push(NO_AUTH);
        Config { auth_methods, users: Vec::new(), timeout_ms }
    }
}

/// Protocol state of one connection. Each state that awaits bytes records
/// how many it expects; the driver reads exactly that many and hands them
/// back as an event.
#[derive(Debug, PartialEq, Eq)]
pub enum HandlerState {
    /// Awaiting the two-byte greeting header: version and method count.
    AwaitGreeting,
    /// Awaiting the client's offered method bytes.
    AwaitMethods { nmethods: u8 },
    /// Awaiting the two-byte subnegotiation header: version and username length.
    AwaitAuthHeader,
    /// Awaiting the username bytes.
    AwaitAuthUsername { ulen: u8 },
    /// Awaiting the one-byte password length.
    AwaitAuthPasswordLen { username: Vec<u8> },
    /// Awaiting the password bytes.
    AwaitAuthPassword { username: Vec<u8>, plen: u8 },
    /// Awaiting the four-byte request header.
    AwaitRequestHeader,
    /// Awaiting the one-byte domain-name length.
    AwaitDomainLength { command: SockCommand },
    /// Awaiting the address bytes: four for IPv4, sixteen for IPv6, the
    /// declared length for a domain name.
    AwaitAddress { command: SockCommand, address_type: AddrType, domain_len: u8 },
    /// Awaiting the two-byte big-endian port. For domain names
    /// `raw_address` keeps the length prefix followed by the name bytes.
    AwaitPort { command: SockCommand, address_type: AddrType, raw_address: Vec<u8> },
    /// A DNS lookup is in flight for the requested name.
    ResolvingDomain { port: u16 },
    /// An outbound connect attempt is in flight.
    Connecting,
    /// Bytes are being relayed in both directions.
    Relaying,
    /// The connection is torn down; `code` is the reply sent at close, if
    /// one was owed.
    Closed { code: Option<ResponseCode> },
}

/// How one relay phase ended.
#[derive(Debug, PartialEq, Eq)]
pub enum RelayResult {
    /// Both directions reached end-of-stream; `to_client` counts the bytes
    /// copied from the target to the client.
    Done { to_client: u64 },
    /// A shutdown hit an already-closed stream: a normal end of relay.
    NotConnected,
    /// Any other relay error.
    Failed,
}

/// What the driver observed while performing the last directive.
#[derive(Debug, PartialEq, Eq)]
pub enum Event {
    /// A read completed with exactly the requested bytes.
    Bytes(Vec<u8>),
    /// A read or write failed, or the stream ended early.
    ReadFailed,
    /// DNS resolution answered with these addresses (unordered).
    Resolved(Vec<IpAddress>),
    /// DNS resolution failed: NXDOMAIN, timeout, or network error.
    ResolveFailed,
    /// The outbound connect succeeded.
    Connected,
    /// Every connect attempt failed or the configured timeout elapsed.
    ConnectFailed,
    /// The relay phase ended.
    RelayEnded(RelayResult),
}

/// The next action the driver must perform.
#[derive(Debug, PartialEq, Eq)]
pub enum Directive {
    /// Read exactly this many bytes from the client.
    ReadBytes(u16),
    /// Look the name up with the DNS resolver.
    ResolveDomain(String),
    /// Try the candidate endpoints in order; first success wins, bounded
    /// by the configured timeout.
    ConnectTo(Vec<Endpoint>),
    /// Relay bytes in both directions until natural closure.
    RelayTraffic,
    /// Close the client stream.
    CloseConn,
}

/// One transition's result: the bytes owed to the client, written before
/// the directive is performed, and the next action.
#[derive(Debug)]
pub struct StepResult {
    pub output: Vec<u8>,
    pub directive: Directive,
}

/// How many bytes a state awaits, if it awaits bytes at all.
pub open spec fn expected_len(s: HandlerState) -> Option<int> {
    match s {
        HandlerState::AwaitGreeting => Some(2),
        HandlerState::AwaitMethods { nmethods } => Some(nmethods as int),
        HandlerState::AwaitAuthHeader => Some(2),
        HandlerState::AwaitAuthUsername { ulen } => Some(ulen as int),
        HandlerState::AwaitAuthPasswordLen { .. } => Some(1),
        HandlerState::AwaitAuthPassword { plen, .. } => Some(plen as int),
        HandlerState::AwaitRequestHeader => Some(4),
        HandlerState::AwaitDomainLength { .. } => Some(1),
        HandlerState::AwaitAddress { address_type, domain_len, .. } => Some(
            match address_type {
                AddrType::V4 => 4,
                AddrType::V6 => 16,
                AddrType::Domain => domain_len as int,
            },
        ),
        HandlerState::AwaitPort { .. } => Some(2),
        _ => None,
    }
}

/// The address bytes a state carries are as long as its address type
/// declares. States the machine itself produces always satisfy this.
pub open spec fn state_wf(s: HandlerState) -> bool {
    match s {
        HandlerState::AwaitPort { address_type, raw_address, .. } => match address_type {
            AddrType::V4 => raw_address@.len() == 4,
            AddrType::V6 => raw_address@.len() == 16,
            AddrType::Domain => raw_address@.len() >= 1,
        },
        _ => true,
    }
}

/// Whether an event is the one the state awaits.
pub open spec fn fits(s: HandlerState, e: Event) -> bool {
    match e {
        Event::Bytes(b) => expected_len(s) == Some(b@.len() as int),
        Event::ReadFailed => false,
        Event::Resolved(_) => s is ResolvingDomain,
        Event::ResolveFailed => s is ResolvingDomain,
        Event::Connected => s is Connecting,
        Event::ConnectFailed => s is Connecting,
        Event::RelayEnded(_) => s is Relaying,
    }
}

/// The connection closes after this reply frame is sent to the client.
pub open spec fn reply_close(
    code: ResponseCode,
    post: HandlerState,
    out: Seq<u8>,
    d: Directive,
) -> bool {
    &&& post matches HandlerState::Closed { code: c } && c == Some(code)
    &&& out =~= spec_reply_bytes(code)
    &&& d is CloseConn
}

/// The connection closes without any further byte sent.
pub open spec fn silent_close(post: HandlerState, out: Seq<u8>, d: Directive) -> bool {
    &&& post matches HandlerState::Closed { code: c } && c is None
    &&& out.len() == 0
    &&& d is CloseConn
}

/// What the transition from the greeting header yields: an unsupported
/// version closes silently; otherwise the offered methods are read next.
pub open spec fn greeting_post(b: Seq<u8>, post: HandlerState, out: Seq<u8>, d: Directive) -> bool {
    if b[0] != SOCKS_VERSION {
        silent_close(post, out, d)
    } else {
        &&& post matches HandlerState::AwaitMethods { nmethods } && nmethods == b[1]
        &&& out.len() == 0
        &&& d matches Directive::ReadBytes(n) && n == b[1] as u16
    }
}

/// What method negotiation yields: username/password is preferred
/// unconditionally; otherwise no-auth; otherwise the no-acceptable-methods
/// sentinel is sent and the connection closes.
pub open spec fn methods_post(
    ms: Seq<u8>,
    cfg_methods: Seq<u8>,
    post: HandlerState,
    out: Seq<u8>,
    d: Directive,
) -> bool {
    let sel = spec_select(spec_available(ms, cfg_methods));
    if sel == USER_PASS {
        &&& post is AwaitAuthHeader
        &&& out =~= seq![SOCKS_VERSION, USER_PASS]
        &&& d matches Directive::ReadBytes(n) && n == 2
    } else if sel == NO_AUTH {
        &&& post is AwaitRequestHeader
        &&& out =~= seq![SOCKS_VERSION, NO_AUTH]
        &&& d matches Directive::ReadBytes(n) && n == 4
    } else {
        &&& post matches HandlerState::Closed { code: c } && c == Some(ResponseCode::Failure)
        &&& out =~= seq![SOCKS_VERSION, NO_METHODS]
        &&& d is CloseConn
    }
}

/// What a password submission yields: a pair in the credential set is
/// answered with the success byte and the request is read next; any other
/// pair is answered with the failure byte and the connection closes.
pub open spec fn auth_post(
    username: Seq<u8>,
    password: Seq<u8>,
    users: Seq<User>,
    post: HandlerState,
    out: Seq<u8>,
    d: Directive,
) -> bool {
    if spec_creds_ok(users, lossy_text(username), lossy_text(password)) {
        &&& post is AwaitRequestHeader
        &&& out =~= seq![1u8, 0u8]
        &&& d matches Directive::ReadBytes(n) && n == 4
    } else {
        &&& post matches HandlerState::Closed { code: c } && c == Some(ResponseCode::Failure)
        &&& out =~= seq![1u8, 1u8]
        &&& d is CloseConn
    }
}

/// What the request header yields: a version mismatch aborts without a
/// reply; an unknown command or address-type byte is answered with its
/// reply code; otherwise the address bytes (for domain names, first the
/// length) are read next.
pub open spec fn request_header_post(
    b: Seq<u8>,
    post: HandlerState,
    out: Seq<u8>,
    d: Directive,
) -> bool {
    if b[0] != SOCKS_VERSION {
        silent_close(post, out, d)
    } else if SockCommand::spec_from(b[1] as usize) is None {
        reply_close(ResponseCode::CommandNotSupported, post, out, d)
    } else if AddrType::spec_from(b[3] as usize) is None {
        reply_close(ResponseCode::AddrTypeNotSupported, post, out, d)
    } else {
        let cmd = SockCommand::spec_from(b[1] as usize)->Some_0;
        match AddrType::spec_from(b[3] as usize)->Some_0 {
            AddrType::Domain => {
                &&& post matches HandlerState::AwaitDomainLength { command } && command == cmd
                &&& out.len() == 0
                &&& d matches Directive::ReadBytes(n) && n == 1
            },
            AddrType::V4 => {
                &&& (post matches HandlerState::AwaitAddress { command, address_type, .. }
                    && command == cmd && address_type is V4)
                &&& out.len() == 0
                &&& d matches Directive::ReadBytes(n) && n == 4
            },
            AddrType::V6 => {
                &&& (post matches HandlerState::AwaitAddress { command, address_type, .. }
                    && command == cmd && address_type is V6)
                &&& out.len() == 0
                &&& d matches Directive::ReadBytes(n) && n == 16
            },
        }
    }
}

/// What the completed request yields once the port arrives: BIND and UDP
/// ASSOCIATE are answered as unsupported commands; a CONNECT to a literal
/// address goes straight to the connect attempt with its single candidate
/// endpoint; a CONNECT to a domain name is looked up if its bytes are
/// valid text and is otherwise an address-type failure raised before any
/// DNS lookup.
pub open spec fn port_post(
    command: SockCommand,
    address_type: AddrType,
    raw: Seq<u8>,
    b: Seq<u8>,
    post: HandlerState,
    out: Seq<u8>,
    d: Directive,
) -> bool {
    let port = spec_port_of(b[0], b[1]);
    if !(command is Connect) {
        reply_close(ResponseCode::CommandNotSupported, post, out, d)
    } else {
        match address_type {
            AddrType::V4 => {
                &&& post is Connecting
                &&& out.len() == 0
                &&& (d matches Directive::ConnectTo(eps) && eps@ =~= seq![
                    (Endpoint { ip: spec_v4_of(raw), port }),
                ])
            },
            AddrType::V6 => {
                &&& post is Connecting
                &&& out.len() == 0
                &&& (d matches Directive::ConnectTo(eps) && eps@ =~= seq![
                    (Endpoint { ip: spec_v6_of(raw), port }),
                ])
            },
            AddrType::Domain => match utf8_text(raw.skip(1)) {
                None => reply_close(ResponseCode::AddrTypeNotSupported, post, out, d),
                Some(t) => {
                    &&& post matches HandlerState::ResolvingDomain { port: p } && p == port
                    &&& out.len() == 0
                    &&& d matches Directive::ResolveDomain(s) && s@ == t
                },
            },
        }
    }
}

/// What a resolution answer yields: every returned address is paired with
/// the requested port, in order, and the connect attempt starts.
pub open spec fn resolved_post(
    ips: Seq<IpAddress>,
    port: u16,
    post: HandlerState,
    out: Seq<u8>,
    d: Directive,
) -> bool {
    &&& post is Connecting
    &&& out.len() == 0
    &&& (d matches Directive::ConnectTo(eps) && eps@.len() == ips.len() && (forall|i: int|
        0 <= i < ips.len() ==> eps@[i] == (Endpoint { ip: ips[i], port })))
}

/// The complete transition relation of the protocol: what the next state,
/// the bytes owed to the client, and the next action are, for every state
/// and event. An event that does not fit the state is answered like any
/// stream failure: a best-effort general-failure reply, then close.
pub open spec fn step_post(
    pre: HandlerState,
    cfg: Config,
    e: Event,
    post: HandlerState,
    out: Seq<u8>,
    d: Directive,
) -> bool {
    if !(fits(pre, e) && state_wf(pre)) {
        reply_close(ResponseCode::Failure, post, out, d)
    } else {
        match (pre, e) {
            (HandlerState::AwaitGreeting, Event::Bytes(b)) => greeting_post(b@, post, out, d),
            (HandlerState::AwaitMethods { .. }, Event::Bytes(ms)) => methods_post(
                ms@,
                cfg.auth_methods@,
                post,
                out,
                d,
            ),
            (HandlerState::AwaitAuthHeader, Event::Bytes(b)) => {
                &&& post matches HandlerState::AwaitAuthUsername { ulen } && ulen == b@[1]
                &&& out.len() == 0
                &&& d matches Directive::ReadBytes(n) && n == b@[1] as u16
            },
            (HandlerState::AwaitAuthUsername { .. }, Event::Bytes(u)) => {
                &&& (post matches HandlerState::AwaitAuthPasswordLen { username }
                    && username@ == u@)
                &&& out.len() == 0
                &&& d matches Directive::ReadBytes(n) && n == 1
            },
            (HandlerState::AwaitAuthPasswordLen { username }, Event::Bytes(b)) => {
                &&& (post matches HandlerState::AwaitAuthPassword { username: u2, plen }
                    && u2@ == username@ && plen == b@[0])
                &&& out.len() == 0
                &&& d matches Directive::ReadBytes(n) && n == b@[0] as u16
            },
            (HandlerState::AwaitAuthPassword { username, .. }, Event::Bytes(p)) => auth_post(
                username@,
                p@,
                cfg.users@,
                post,
                out,
                d,
            ),
            (HandlerState::AwaitRequestHeader, Event::Bytes(b)) => request_header_post(
                b@,
                post,
                out,
                d,
            ),
            (HandlerState::AwaitDomainLength { command }, Event::Bytes(b)) => {
                &&& (post matches HandlerState::AwaitAddress {
                    command: c2,
                    address_type,
                    domain_len,
                } && c2 == command && address_type is Domain && domain_len == b@[0])
                &&& out.len() == 0
                &&& d matches Directive::ReadBytes(n) && n == b@[0] as u16
            },
            (
                HandlerState::AwaitAddress { command, address_type, domain_len },
                Event::Bytes(a),
            ) => {
                let raw = if address_type is Domain {
                    seq![domain_len] + a@
                } else {
                    a@
                };
                &&& (post matches HandlerState::AwaitPort {
                    command: c2,
                    address_type: at2,
                    raw_address,
                } && c2 == command && at2 == address_type && raw_address@ == raw)
                &&& out.len() == 0
                &&& d matches Directive::ReadBytes(n) && n == 2
            },
            (
                HandlerState::AwaitPort { command, address_type, raw_address },
                Event::Bytes(b),
            ) => port_post(command, address_type, raw_address@, b@, post, out, d),
            (HandlerState::ResolvingDomain { port }, Event::Resolved(ips)) => resolved_post(
                ips@,
                port,
                post,
                out,
                d,
            ),
            (HandlerState::ResolvingDomain { .. }, Event::ResolveFailed) => reply_close(
                ResponseCode::HostUnreachable,
                post,
                out,
                d,
            ),
            (HandlerState::Connecting, Event::Connected) => {
                &&& post is Relaying
                &&& out =~= spec_reply_bytes(ResponseCode::Success)
                &&& d is RelayTraffic
            },
            (HandlerState::Connecting, Event::ConnectFailed) => reply_close(
                ResponseCode::ConnectionRefused,
                post,
                out,
                d,
            ),
            (HandlerState::Relaying, Event::RelayEnded(rr)) => {
                if rr is Failed {
                    reply_close(ResponseCode::Failure, post, out, d)
                } else {
                    silent_close(post, out, d)
                }
            },
            _ => reply_close(ResponseCode::Failure, post, out, d),
        }
    }
}

/// Preference law: whenever the client's greeting offers username/password
/// and the server is configured with it, the machine selects
/// username/password — whatever else either side offers — and runs the
/// subnegotiation next.
pub proof fn lemma_step_prefers_userpass(
    nmethods: u8,
    ms: Vec<u8>,
    cfg: Config,
    post: HandlerState,
    out: Seq<u8>,
    d: Directive,
)
    requires
        ms@.len() == nmethods as int,
        ms@.contains(USER_PASS),
        cfg.auth_methods@.contains(USER_PASS),
        step_post(HandlerState::AwaitMethods { nmethods }, cfg, Event::Bytes(ms), post, out, d),
    ensures
        out =~= seq![SOCKS_VERSION, USER_PASS],
        post is AwaitAuthHeader,
{
    crate::negotiate::lemma_userpass_preferred(ms@, cfg.auth_methods@);
}

/// Sentinel law: whenever no offered method is one the server accepts,
/// the machine answers with the no-acceptable-methods sentinel and closes
/// without asking for any request bytes.
pub proof fn lemma_step_no_acceptable_closes(
    nmethods: u8,
    ms: Vec<u8>,
    cfg: Config,
    post: HandlerState,
    out: Seq<u8>,
    d: Directive,
)
    requires
        ms@.len() == nmethods as int,
        forall|m: u8| ms@.contains(m) ==> !cfg.auth_methods@.contains(m),
        step_post(HandlerState::AwaitMethods { nmethods }, cfg, Event::Bytes(ms), post, out, d),
    ensures
        out =~= seq![SOCKS_VERSION, NO_METHODS],
        post matches HandlerState::Closed { .. },
        d is CloseConn,
{
    crate::negotiate::lemma_no_common_method(ms@, cfg.auth_methods@);
}

/// Authentication law: a submitted pair in the configured credential set
/// is answered with the success byte and the request is read next; any
/// other pair is answered with the failure byte and the connection closes
/// at once, before any request byte is read.
pub proof fn lemma_step_auth_decides(
    username: Vec<u8>,
    plen: u8,
    p: Vec<u8>,
    cfg: Config,
    post: HandlerState,
    out: Seq<u8>,
    d: Directive,
)
    requires
        p@.len() == plen as int,
        step_post(
            HandlerState::AwaitAuthPassword { username, plen },
            cfg,
            Event::Bytes(p),
            post,
            out,
            d,
        ),
    ensures
        spec_creds_ok(cfg.users@, lossy_text(username@), lossy_text(p@)) ==> (out =~= seq![
            1u8,
            0u8,
        ] && post is AwaitRequestHeader),
        !spec_creds_ok(cfg.users@, lossy_text(username@), lossy_text(p@)) ==> (out =~= seq![
            1u8,
            1u8,
        ] && (post matches HandlerState::Closed { .. }) && d is CloseConn),
{
}

/// Command law: a completed request whose command is BIND or UDP
/// ASSOCIATE is answered with the unsupported-command reply and the
/// connection closes — it never reaches the relay stage, so zero relay
/// bytes flow.
pub proof fn lemma_step_rejects_bind_udp(
    command: SockCommand,
    address_type: AddrType,
    raw_address: Vec<u8>,
    b: Vec<u8>,
    cfg: Config,
    post: HandlerState,
    out: Seq<u8>,
    d: Directive,
)
    requires
        !(command is Connect),
        b@.len() == 2,
        state_wf(HandlerState::AwaitPort { command, address_type, raw_address }),
        step_post(
            HandlerState::AwaitPort { command, address_type, raw_address },
            cfg,
            Event::Bytes(b),
            post,
            out,
            d,
        ),
    ensures
        reply_close(ResponseCode::CommandNotSupported, post, out, d),
        post matches HandlerState::Closed { .. },
{
}

/// Resolution law: a CONNECT to a domain name whose bytes are not valid
/// text is answered with the address-type failure and closed before any
/// DNS lookup is issued.
pub proof fn lemma_step_invalid_domain_no_lookup(
    command: SockCommand,
    raw_address: Vec<u8>,
    b: Vec<u8>,
    cfg: Config,
    post: HandlerState,
    out: Seq<u8>,
    d: Directive,
)
    requires
        command is Connect,
        raw_address@.len() >= 1,
        utf8_text(raw_address@.skip(1)) is None,
        b@.len() == 2,
        step_post(
            HandlerState::AwaitPort { command, address_type: AddrType::Domain, raw_address },
            cfg,
            Event::Bytes(b),
            post,
            out,
            d,
        ),
    ensures
        reply_close(ResponseCode::AddrTypeNotSupported, post, out, d),
        !(d matches Directive::ResolveDomain(_)),
{
}

/// Ordering law: the only transition that starts the relay phase is a
/// successful connect, and it writes the success reply in the same step —
/// so the client never receives a relayed byte before the status reply.
pub proof fn lemma_step_relay_follows_success_reply(
    pre: HandlerState,
    cfg: Config,
    e: Event,
    post: HandlerState,
    out: Seq<u8>,
    d: Directive,
)
    requires
        step_post(pre, cfg, e, post, out, d),
        post is Relaying,
    ensures
        pre is Connecting,
        e is Connected,
        out =~= spec_reply_bytes(ResponseCode::Success),
        d is RelayTraffic,
{
}

/// Codec agreement, literal addresses: feeding the machine the header and
/// address bytes of an encoded IPv4 or IPv6 request, in the pieces it asks
/// for, brings it to the port state carrying exactly the request's
/// command, address type, and address bytes, with nothing written.
pub proof fn lemma_machine_parses_encoded_literal(
    r: crate::types::ReqView,
    cfg: Config,
    header: Vec<u8>,
    s1: HandlerState,
    o1: Seq<u8>,
    d1: Directive,
    addr: Vec<u8>,
    s2: HandlerState,
    o2: Seq<u8>,
    d2: Directive,
)
    requires
        r.wf(),
        r.version == SOCKS_VERSION,
        !(r.address_type is Domain),
        header@ == crate::codec::spec_encode_request(r).subrange(0, 4),
        addr@ == r.raw_address,
        step_post(HandlerState::AwaitRequestHeader, cfg, Event::Bytes(header), s1, o1, d1),
        step_post(s1, cfg, Event::Bytes(addr), s2, o2, d2),
    ensures
        (s2 matches HandlerState::AwaitPort { command, address_type, raw_address } && command
            == r.command && address_type == r.address_type && raw_address@ == r.raw_address),
        o1.len() == 0,
        o2.len() == 0,
        d2 matches Directive::ReadBytes(n) && n == 2,
{
    let enc = crate::codec::spec_encode_request(r);
    assert(header@[0] == r.version);
    assert(header@[1] == r.command.spec_wire_byte());
    assert(header@[3] == r.address_type.spec_wire_byte());
    assert(SockCommand::spec_from(header@[1] as usize) == Some(r.command));
    assert(AddrType::spec_from(header@[3] as usize) == Some(r.address_type));
}

/// Codec agreement, domain names: feeding the machine the header, the
/// length byte, and the name bytes of an encoded domain-name request, in
/// the pieces it asks for, brings it to the port state carrying exactly
/// the request's command and length-prefixed address bytes, with nothing
/// written.
pub proof fn lemma_machine_parses_encoded_domain(
    r: crate::types::ReqView,
    cfg: Config,
    header: Vec<u8>,
    s1: HandlerState,
    o1: Seq<u8>,
    d1: Directive,
    dlen: Vec<u8>,
    s2: HandlerState,
    o2: Seq<u8>,
    d2: Directive,
    name: Vec<u8>,
    s3: HandlerState,
    o3: Seq<u8>,
    d3: Directive,
)
    requires
        r.wf(),
        r.version == SOCKS_VERSION,
        r.address_type is Domain,
        header@ == crate::codec::spec_encode_request(r).subrange(0, 4),
        dlen@ == seq![r.raw_address[0]],
        name@ == r.raw_address.skip(1),
        step_post(HandlerState::AwaitRequestHeader, cfg, Event::Bytes(header), s1, o1, d1),
        step_post(s1, cfg, Event::Bytes(dlen), s2, o2, d2),
        step_post(s2, cfg, Event::Bytes(name), s3, o3, d3),
    ensures
        (s3 matches HandlerState::AwaitPort { command, address_type, raw_address } && command
            == r.command && address_type is Domain && raw_address@ == r.raw_address),
        o1.len() == 0,
        o2.len() == 0,
        o3.len() == 0,
        d3 matches Directive::ReadBytes(n) && n == 2,
{
    let enc = crate::codec::spec_encode_request(r);
    assert(header@[0] == r.version);
    assert(header@[1] == r.command.spec_wire_byte());
    assert(header@[3] == r.address_type.spec_wire_byte());
    assert(SockCommand::spec_from(header@[1] as usize) == Some(r.command));
    assert(AddrType::spec_from(header@[3] as usize) == Some(r.address_type));
    assert(s1 matches HandlerState::AwaitDomainLength { command } && command == r.command);
    assert(name@.len() == r.raw_address[0]);
    match s3 {
        HandlerState::AwaitPort { raw_address, .. } => {
            assert(raw_address@ =~= seq![r.raw_address[0]] + r.raw_address.skip(1));
            assert(raw_address@ =~= r.raw_address);
        },
        _ => {
        },
    }
}

/// The two bytes the state machine reads first: the greeting header.
pub fn initial_directive() -> (d: Directive)
    ensures
        d matches Directive::ReadBytes(n) && n == 2,
{
    Directive::ReadBytes(2)
}

/// The state a fresh connection starts in.
pub fn initial_state() -> (s: HandlerState)
    ensures
        s is AwaitGreeting,
{
    HandlerState::AwaitGreeting
}

fn close_with_reply(code: ResponseCode) -> (r: (HandlerState, StepResult))
    ensures
        reply_close(code, r.0, r.1.output@, r.1.directive),
{
    let reply = SocksReply::new(code);
    (
        HandlerState::Closed { code: Some(code) },
        StepResult { output: reply.into_bytes(), directive: Directive::CloseConn },
    )
}

fn close_silent() -> (r: (HandlerState, StepResult))
    ensures
        silent_close(r.0, r.1.output@, r.1.directive),
{
    (
        HandlerState::Closed { code: None },
        StepResult { output: Vec::new(), directive: Directive::CloseConn },
    )
}

fn two_bytes(x: u8, y: u8) -> (r: Vec<u8>)
    ensures
        r@ =~= seq![x, y],
{
    let mut r: Vec<u8> = Vec::new();
    r.push(x);
    r.push(y);
    r
}

/// Drive the connection one transition: consume the event the driver
/// observed, and return the bytes owed to the client together with the
/// next action. Total over all states and events; see [`step_post`] for
/// what each transition yields.
#[verifier::rlimit(80)]
pub fn step(state: HandlerState, config: &Config, event: Event) -> (r: (
    HandlerState,
    StepResult,
))
    ensures
        step_post(state, *config, event, r.0, r.1.output@, r.1.directive),
{
    match (state, event) {
        (HandlerState::AwaitGreeting, Event::Bytes(b)) => {
            if b.len() != 2 {
                close_with_reply(ResponseCode::Failure)
            } else if b[0] != SOCKS_VERSION {
                close_silent()
            } else {
                let n = b[1];
                (
                    HandlerState::AwaitMethods { nmethods: n },
                    StepResult { output: Vec::new(), directive: Directive::ReadBytes(n as u16) },
                )
            }
        },
        (HandlerState::AwaitMethods { nmethods }, Event::Bytes(ms)) => {
            if ms.len() != nmethods as usize {
                close_with_reply(ResponseCode::Failure)
            } else {
                let avail = available_methods(&ms, &config.auth_methods);
                let sel = select_method(&avail);
                if sel == USER_PASS {
                    (
                        HandlerState::AwaitAuthHeader,
                        StepResult {
                            output: two_bytes(SOCKS_VERSION, USER_PASS),
                            directive: Directive::ReadBytes(2),
                        },
                    )
                } else if sel == NO_AUTH {
                    (
                        HandlerState::AwaitRequestHeader,
                        StepResult {
                            output: two_bytes(SOCKS_VERSION, NO_AUTH),
                            directive: Directive::ReadBytes(4),
                        },
                    )
                } else {
                    (
                        HandlerState::Closed { code: Some(ResponseCode::Failure) },
                        StepResult {
                            output: two_bytes(SOCKS_VERSION, NO_METHODS),
                            directive: Directive::CloseConn,
                        },
                    )
                }
            }
        },
        (HandlerState::AwaitAuthHeader, Event::Bytes(b)) => {
            if b.len() != 2 {
                close_with_reply(ResponseCode::Failure)
            } else {
                let ulen = b[1];
                (
                    HandlerState::AwaitAuthUsername { ulen },
                    StepResult {
                        output: Vec::new(),
                        directive: Directive::ReadBytes(ulen as u16),
                    },
                )
            }
        },
        (HandlerState::AwaitAuthUsername { ulen }, Event::Bytes(u)) => {
            if u.len() != ulen as usize {
                close_with_reply(ResponseCode::Failure)
            } else {
                (
                    HandlerState::AwaitAuthPasswordLen { username: u },
                    StepResult { output: Vec::new(), directive: Directive::ReadBytes(1) },
                )
            }
        },
        (HandlerState::AwaitAuthPasswordLen { username }, Event::Bytes(b)) => {
            if b.len() != 1 {
                close_with_reply(ResponseCode::Failure)
            } else {
                let plen = b[0];
                (
                    HandlerState::AwaitAuthPassword { username, plen },
                    StepResult {
                        output: Vec::new(),
                        directive: Directive::ReadBytes(plen as u16),
                    },
                )
            }
        },
        (HandlerState::AwaitAuthPassword { username, plen }, Event::Bytes(p)) => {
            if p.len() != plen as usize {
                close_with_reply(ResponseCode::Failure)
            } else {
                let uname = crate::text::decode_lossy(username.as_slice());
                let pword = crate::text::decode_lossy(p.as_slice());
                let user = User { username: uname, password: pword };
                if authed(&config.users, &user) {
                    (
                        HandlerState::AwaitRequestHeader,
                        StepResult {
                            output: two_bytes(1, 0),
                            directive: Directive::ReadBytes(4),
                        },
                    )
                } else {
                    (
                        HandlerState::Closed { code: Some(ResponseCode::Failure) },
                        StepResult { output: two_bytes(1, 1), directive: Directive::CloseConn },
                    )
                }
            }
        },
        (HandlerState::AwaitRequestHeader, Event::Bytes(b)) => {
            if b.len() != 4 {
                close_with_reply(ResponseCode::Failure)
            } else if b[0] != SOCKS_VERSION {
                close_silent()
            } else {
                match SockCommand::from(b[1] as usize) {
                    None => close_with_reply(ResponseCode::CommandNotSupported),
                    Some(command) => match AddrType::from(b[3] as usize) {
                        None => close_with_reply(ResponseCode::AddrTypeNotSupported),
                        Some(AddrType::Domain) => (
                            HandlerState::AwaitDomainLength { command },
                            StepResult {
                                output: Vec::new(),
                                directive: Directive::ReadBytes(1),
                            },
                        ),
                        Some(AddrType::V4) => (
                            HandlerState::AwaitAddress {
                                command,
                                address_type: AddrType::V4,
                                domain_len: 0,
                            },
                            StepResult {
                                output: Vec::new(),
                                directive: Directive::ReadBytes(4),
                            },
                        ),
                        Some(AddrType::V6) => (
                            HandlerState::AwaitAddress {
                                command,
                                address_type: AddrType::V6,
                                domain_len: 0,
                            },
                            StepResult {
                                output: Vec::new(),
                                directive: Directive::ReadBytes(16),
                            },
                        ),
                    },
                }
            }
        },
        (HandlerState::AwaitDomainLength { command }, Event::Bytes(b)) => {
            if b.len() != 1 {
                close_with_reply(ResponseCode::Failure)
            } else {
                let domain_len = b[0];
                (
                    HandlerState::AwaitAddress {
                        command,
                        address_type: AddrType::Domain,
                        domain_len,
                    },
                    StepResult {
                        output: Vec::new(),
                        directive: Directive::ReadBytes(domain_len as u16),
                    },
                )
            }
        },
        (HandlerState::AwaitAddress { command, address_type, domain_len }, Event::Bytes(a)) => {
            let expect: usize = match address_type {
                AddrType::V4 => 4,
                AddrType::V6 => 16,
                AddrType::Domain => domain_len as usize,
            };
            if a.len() != expect {
                close_with_reply(ResponseCode::Failure)
            } else {
                let raw_address: Vec<u8> = if matches!(address_type, AddrType::Domain) {
                    let mut raw: Vec<u8> = Vec::new();
                    raw.push(domain_len);
                    let mut i: usize = 0;
                    while i < a.len()
                        invariant
                            i <= a@.len(),
                            raw@ =~= seq![domain_len] + a@.subrange(0, i as int),
                        decreases a@.len() - i,
                    {
                        raw.push(a[i]);
                        i = i + 1;
                    }
                    proof {
                        assert(a@.subrange(0, a@.len() as int) =~= a@);
                    }
                    raw
                } else {
                    a
                };
                (
                    HandlerState::AwaitPort { command, address_type, raw_address },
                    StepResult { output: Vec::new(), directive: Directive::ReadBytes(2) },
                )
            }
        },
        (HandlerState::AwaitPort { command, address_type, raw_address }, Event::Bytes(b)) => {
            let len_ok: bool = match address_type {
                AddrType::V4 => raw_address.len() == 4,
                AddrType::V6 => raw_address.len() == 16,
                AddrType::Domain => raw_address.len() >= 1,
            };
            if b.len() != 2 || !len_ok {
                close_with_reply(ResponseCode::Failure)
            } else {
                let port = merge_port(b[0], b[1]);
                if !matches!(command, SockCommand::Connect) {
                    close_with_reply(ResponseCode::CommandNotSupported)
                } else {
                    match address_type {
                        AddrType::V4 => (
                            HandlerState::Connecting,
                            StepResult {
                                output: Vec::new(),
                                directive: Directive::ConnectTo(
                                    v4_endpoints(raw_address.as_slice(), port),
                                ),
                            },
                        ),
                        AddrType::V6 => (
                            HandlerState::Connecting,
                            StepResult {
                                output: Vec::new(),
                                directive: Directive::ConnectTo(
                                    v6_endpoints(raw_address.as_slice(), port),
                                ),
                            },
                        ),
                        AddrType::Domain => {
                            let name = slice_subrange(
                                raw_address.as_slice(),
                                1,
                                raw_address.len(),
                            );
                            proof {
                                assert(name@ =~= raw_address@.skip(1));
                            }
                            match domain_text(name) {
                                Err(_) => close_with_reply(ResponseCode::AddrTypeNotSupported),
                                Ok(s) => (
                                    HandlerState::ResolvingDomain { port },
                                    StepResult {
                                        output: Vec::new(),
                                        directive: Directive::ResolveDomain(s),
                                    },
                                ),
                            }
                        },
                    }
                }
            }
        },
        (HandlerState::ResolvingDomain { port }, Event::Resolved(ips)) => (
            HandlerState::Connecting,
            StepResult {
                output: Vec::new(),
                directive: Directive::ConnectTo(endpoints_from_ips(&ips, port)),
            },
        ),
        (HandlerState::ResolvingDomain { .. }, Event::ResolveFailed) => close_with_reply(
            ResponseCode::HostUnreachable,
        ),
        (HandlerState::Connecting, Event::Connected) => {
            let reply = SocksReply::new(ResponseCode::Success);
            (
                HandlerState::Relaying,
                StepResult { output: reply.into_bytes(), directive: Directive::RelayTraffic },
            )
        },
        (HandlerState::Connecting, Event::ConnectFailed) => close_with_reply(
            ResponseCode::ConnectionRefused,
        ),
        (HandlerState::Relaying, Event::RelayEnded(rr)) => {
            if matches!(rr, RelayResult::Failed) {
                close_with_reply(ResponseCode::Failure)
            } else {
                close_silent()
            }
        },
        (_, _) => close_with_reply(ResponseCode::Failure),
    }
}

} // verus!
