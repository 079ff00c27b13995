//! Core data types of the SOCKS5 protocol: reply codes, authentication
//! methods, address types, commands, credentials, errors, and the parsed
//! connection request.

use vstd::prelude::*;

verus! {

/// Possible SOCKS5 response codes, plus an internal timeout code that is
/// never transmitted verbatim (it maps to a general failure on the wire).
#[derive(Clone, Copy, Debug, PartialEq, Eq, Structural)]
pub enum ResponseCode {
    Success,
    Failure,
    RuleFailure,
    NetworkUnreachable,
    HostUnreachable,
    ConnectionRefused,
    TtlExpired,
    CommandNotSupported,
    AddrTypeNotSupported,
    Timeout,
}

impl ResponseCode {
    /// The byte sent on the wire for this code. The internal `Timeout`
    /// code is mapped to the general-failure byte.
    pub open spec fn spec_wire_byte(self) -> u8 {
        match self {
            ResponseCode::Success => 0x00,
            ResponseCode::Failure => 0x01,
            ResponseCode::RuleFailure => 0x02,
            ResponseCode::NetworkUnreachable => 0x03,
            ResponseCode::HostUnreachable => 0x04,
            ResponseCode::ConnectionRefused => 0x05,
            ResponseCode::TtlExpired => 0x06,
            ResponseCode::CommandNotSupported => 0x07,
            ResponseCode::AddrTypeNotSupported => 0x08,
            ResponseCode::Timeout => 0x01,
        }
    }

    /// Executable form of [`Self::spec_wire_byte`].
    #[verifier::when_used_as_spec(spec_wire_byte)]
    pub fn wire_byte(self) -> (b: u8)
        ensures
            b == self.spec_wire_byte(),
    {
        match self {
            ResponseCode::Success => 0x00,
            ResponseCode::Failure => 0x01,
            ResponseCode::RuleFailure => 0x02,
            ResponseCode::NetworkUnreachable => 0x03,
            ResponseCode::HostUnreachable => 0x04,
            ResponseCode::ConnectionRefused => 0x05,
            ResponseCode::TtlExpired => 0x06,
            ResponseCode::CommandNotSupported => 0x07,
            ResponseCode::AddrTypeNotSupported => 0x08,
            ResponseCode::Timeout => 0x01,
        }
    }

    /// A short description of this code, for log lines.
    pub fn message(self) -> (r: &'static str)
        ensures
            self is Success ==> r@ == "success"@,
            self is Failure ==> r@ == "SOCKS5 Server Failure"@,
            self is RuleFailure ==> r@ == "SOCKS5 Rule failure"@,
            self is NetworkUnreachable ==> r@ == "network unreachable"@,
            self is HostUnreachable ==> r@ == "host unreachable"@,
            self is ConnectionRefused ==> r@ == "connection refused"@,
            self is TtlExpired ==> r@ == "TTL expired"@,
            self is CommandNotSupported ==> r@ == "command not supported"@,
            self is AddrTypeNotSupported ==> r@ == "addr type not supported"@,
            self is Timeout ==> r@ == "timeout"@,
    {
        match self {
            ResponseCode::Success => "success",
            ResponseCode::Failure => "SOCKS5 Server Failure",
            ResponseCode::RuleFailure => "SOCKS5 Rule failure",
            ResponseCode::NetworkUnreachable => "network unreachable",
            ResponseCode::HostUnreachable => "host unreachable",
            ResponseCode::ConnectionRefused => "connection refused",
            ResponseCode::TtlExpired => "TTL expired",
            ResponseCode::CommandNotSupported => "command not supported",
            ResponseCode::AddrTypeNotSupported => "addr type not supported",
            ResponseCode::Timeout => "timeout",
        }
    }
}

/// Client authentication methods.
#[derive(Clone, Copy, Debug, PartialEq, Eq, Structural)]
pub enum AuthMethods {
    /// No authentication (wire byte 0x00).
    NoAuth,
    /// Authenticate with a username / password pair (wire byte 0x02).
    UserPass,
    /// No acceptable methods (wire byte 0xFF).
    NoMethods,
}

impl AuthMethods {
    /// The byte for this method in greetings and method-selection replies.
    pub open spec fn spec_wire_byte(self) -> u8 {
        match self {
            AuthMethods::NoAuth => 0x00,
            AuthMethods::UserPass => 0x02,
            AuthMethods::NoMethods => 0xFF,
        }
    }

    /// Executable form of [`Self::spec_wire_byte`].
    #[verifier::when_used_as_spec(spec_wire_byte)]
    pub fn wire_byte(self) -> (b: u8)
        ensures
            b == self.spec_wire_byte(),
    {
        match self {
            AuthMethods::NoAuth => 0x00,
            AuthMethods::UserPass => 0x02,
            AuthMethods::NoMethods => 0xFF,
        }
    }
}

/// Destination address variants of a SOCKS5 request.
#[derive(Clone, Copy, Debug, PartialEq, Eq, Structural)]
pub enum AddrType {
    /// IPv4 address (wire byte 0x01): four raw octets follow.
    V4,
    /// Domain name (wire byte 0x03): a length prefix and that many bytes.
    Domain,
    /// IPv6 address (wire byte 0x04): sixteen raw octets follow.
    V6,
}

impl AddrType {
    /// Which address type, if any, the given wire value denotes.
    pub open spec fn spec_from(n: usize) -> Option<AddrType> {
        if n == 1 {
            Some(AddrType::V4)
        } else if n == 3 {
            Some(AddrType::Domain)
        } else if n == 4 {
            Some(AddrType::V6)
        } else {
            None
        }
    }

    /// Parse a wire value into an address type.
    #[verifier::when_used_as_spec(spec_from)]
    pub fn from(n: usize) -> (r: Option<AddrType>)
        ensures
            r == AddrType::spec_from(n),
    {
        match n {
            1 => Some(AddrType::V4),
            3 => Some(AddrType::Domain),
            4 => Some(AddrType::V6),
            _ => None,
        }
    }

    /// The wire byte of this address type.
    pub open spec fn spec_wire_byte(self) -> u8 {
        match self {
            AddrType::V4 => 0x01,
            AddrType::Domain => 0x03,
            AddrType::V6 => 0x04,
        }
    }

    /// Executable form of [`Self::spec_wire_byte`].
    #[verifier::when_used_as_spec(spec_wire_byte)]
    pub fn wire_byte(self) -> (b: u8)
        ensures
            b == self.spec_wire_byte(),
    {
        match self {
            AddrType::V4 => 0x01,
            AddrType::Domain => 0x03,
            AddrType::V6 => 0x04,
        }
    }
}

/// SOCKS5 command of a request. Only `Connect` is serviceable; the other
/// two are valid on the wire but always rejected.
#[derive(Clone, Copy, Debug, PartialEq, Eq, Structural)]
pub enum SockCommand {
    /// CONNECT (wire byte 0x01).
    Connect,
    /// BIND (wire byte 0x02) — never serviced.
    Bind,
    /// UDP ASSOCIATE (wire byte 0x03) — never serviced.
    UdpAssosiate,
}

impl SockCommand {
    /// Which command, if any, the given wire value denotes.
    pub open spec fn spec_from(n: usize) -> Option<SockCommand> {
        if n == 1 {
            Some(SockCommand::Connect)
        } else if n == 2 {
            Some(SockCommand::Bind)
        } else if n == 3 {
            Some(SockCommand::UdpAssosiate)
        } else {
            None
        }
    }

    /// Parse a wire value into a command.
    #[verifier::when_used_as_spec(spec_from)]
    pub fn from(n: usize) -> (r: Option<SockCommand>)
        ensures
            r == SockCommand::spec_from(n),
    {
        match n {
            1 => Some(SockCommand::Connect),
            2 => Some(SockCommand::Bind),
            3 => Some(SockCommand::UdpAssosiate),
            _ => None,
        }
    }

    /// The wire byte of this command.
    pub open spec fn spec_wire_byte(self) -> u8 {
        match self {
            SockCommand::Connect => 0x01,
            SockCommand::Bind => 0x02,
            SockCommand::UdpAssosiate => 0x03,
        }
    }

    /// Executable form of [`Self::spec_wire_byte`].
    #[verifier::when_used_as_spec(spec_wire_byte)]
    pub fn wire_byte(self) -> (b: u8)
        ensures
            b == self.spec_wire_byte(),
    {
        match self {
            SockCommand::Connect => 0x01,
            SockCommand::Bind => 0x02,
            SockCommand::UdpAssosiate => 0x03,
        }
    }
}

/// Mathematical model of a credential pair.
pub ghost struct UserView {
    pub username: Seq<char>,
    pub password: Seq<char>,
}

/// A username/password credential pair, compared by exact equality
/// against an authenticating client's submission.
#[derive(Clone, Debug)]
pub struct User {
    pub username: String,
    pub password: String,
}

impl View for User {
    type V = UserView;

    open spec fn view(&self) -> UserView {
        UserView { username: self.username@, password: self.password@ }
    }
}

impl PartialEq for User {
    fn eq(&self, other: &User) -> (r: bool) {
        self.username == other.username && self.password == other.password
    }
}

impl Eq for User {

}

impl vstd::std_specs::cmp::PartialEqSpecImpl for User {
    open spec fn obeys_eq_spec() -> bool {
        true
    }

    open spec fn eq_spec(&self, other: &User) -> bool {
        self@ == other@
    }
}

impl User {
    /// Construct a credential pair.
    pub fn new(username: String, password: String) -> (u: User)
        ensures
            u@.username == username@,
            u@.password == password@,
    {
        User { username, password }
    }
}

/// Kinds of I/O failure that the protocol logic distinguishes.
#[derive(Clone, Copy, Debug, PartialEq, Eq, Structural)]
pub enum IoKind {
    /// The stream ended or a read/write failed.
    ReadWrite,
    /// Malformed input handed to a parse.
    InvalidInput,
}

/// Errors raised while servicing one connection.
#[derive(Clone, Copy, Debug, PartialEq, Eq, Structural)]
pub enum MerinoError {
    /// Stream-level failure.
    Io(IoKind),
    /// Protocol-level failure carrying the reply code owed to the client.
    Socks(ResponseCode),
}

impl From<MerinoError> for ResponseCode {
    fn from(e: MerinoError) -> (r: ResponseCode) {
        match e {
            MerinoError::Socks(c) => c,
            MerinoError::Io(_) => ResponseCode::Failure,
        }
    }
}

impl vstd::std_specs::convert::FromSpecImpl<MerinoError> for ResponseCode {
    open spec fn obeys_from_spec() -> bool {
        true
    }

    open spec fn from_spec(e: MerinoError) -> ResponseCode {
        match e {
            MerinoError::Socks(c) => c,
            MerinoError::Io(_) => ResponseCode::Failure,
        }
    }
}

/// Mathematical model of a parsed connection request.
pub ghost struct ReqView {
    pub version: u8,
    pub command: SockCommand,
    pub address_type: AddrType,
    pub raw_address: Seq<u8>,
    pub port: u16,
}

impl ReqView {
    /// The address bytes are exactly as long as the address type declares:
    /// four octets for IPv4, sixteen for IPv6, and a length prefix followed
    /// by that many bytes for a domain name.
    pub open spec fn wf(self) -> bool {
        match self.address_type {
            AddrType::V4 => self.raw_address.len() == 4,
            AddrType::V6 => self.raw_address.len() == 16,
            AddrType::Domain => self.raw_address.len() >= 1
                && self.raw_address.len() == 1 + self.raw_address[0],
        }
    }
}

/// A parsed SOCKS5 request: parsed once per connection, immutable
/// thereafter. For domain names, `raw_address` keeps the one-byte length
/// prefix followed by the name's bytes.
#[derive(Debug)]
pub struct ConnectionRequest {
    pub version: u8,
    pub command: SockCommand,
    pub address_type: AddrType,
    pub raw_address: Vec<u8>,
    pub port: u16,
}

impl View for ConnectionRequest {
    type V = ReqView;

    open spec fn view(&self) -> ReqView {
        ReqView {
            version: self.version,
            command: self.command,
            address_type: self.address_type,
            raw_address: self.raw_address@,
            port: self.port,
        }
    }
}

} // verus!
