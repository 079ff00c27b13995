//! Wire codec: translation between in-memory request/reply structures and
//! the exact SOCKS5 byte layout (RFC 1928). Pure framing, no I/O policy.
//! All multi-byte integers are big-endian.

use vstd::prelude::*;

use crate::types::{AddrType, ConnectionRequest, IoKind, MerinoError, ReqView, ResponseCode,
    SockCommand};
use crate::{RESERVED, SOCKS_VERSION};

verus! {

/// High byte of a big-endian port.
pub open spec fn spec_port_hi(port: u16) -> u8 {
    (port / 256) as u8
}

/// Low byte of a big-endian port.
pub open spec fn spec_port_lo(port: u16) -> u8 {
    (port % 256) as u8
}

/// The port denoted by two big-endian bytes.
pub open spec fn spec_port_of(hi: u8, lo: u8) -> u16 {
    (hi * 256 + lo) as u16
}

/// Merge two big-endian bytes into a port number.
pub fn merge_port(hi: u8, lo: u8) -> (port: u16)
    ensures
        port == spec_port_of(hi, lo),
        spec_port_hi(port) == hi,
        spec_port_lo(port) == lo,
{
    let port: u16 = (hi as u16) * 256 + (lo as u16);
    port
}

/// Split a port number into its two big-endian bytes.
pub fn split_port(port: u16) -> (r: (u8, u8))
    ensures
        r.0 == spec_port_hi(port),
        r.1 == spec_port_lo(port),
        spec_port_of(r.0, r.1) == port,
{
    let hi: u8 = (port / 256) as u8;
    let lo: u8 = (port % 256) as u8;
    (hi, lo)
}

/// The ten bytes of a SOCKS5 reply carrying the given code: version,
/// reply byte, reserved, IPv4 address type, and the fixed bound
/// address/port `0.0.0.0:0`.
pub open spec fn spec_reply_bytes(status: ResponseCode) -> Seq<u8> {
    seq![5u8, status.spec_wire_byte(), 0u8, 1u8, 0u8, 0u8, 0u8, 0u8, 0u8, 0u8]
}

/// A serialized SOCKS5 reply frame. The bound address and port are always
/// reported as the fixed value `0.0.0.0:0`, never the real local endpoint
/// of the outbound socket; clients must not rely on them.
pub struct SocksReply {
    buf: Vec<u8>,
}

impl View for SocksReply {
    type V = Seq<u8>;

    closed spec fn view(&self) -> Seq<u8> {
        self.buf@
    }
}

impl SocksReply {
    /// Build the reply frame for a status code.
    pub fn new(status: ResponseCode) -> (r: SocksReply)
        ensures
            r@ == spec_reply_bytes(status),
    {
        let mut buf: Vec<u8> = Vec::new();
        buf.push(SOCKS_VERSION);
        buf.push(status.wire_byte());
        buf.push(RESERVED);
        buf.push(1);
        buf.push(0);
        buf.push(0);
        buf.push(0);
        buf.push(0);
        buf.push(0);
        buf.push(0);
        proof {
            assert(buf@ =~= spec_reply_bytes(status));
        }
        SocksReply { buf }
    }

    /// The frame's bytes, ready to be written to the client stream.
    pub fn bytes(&self) -> (r: &Vec<u8>)
        ensures
            r@ == self@,
    {
        &self.buf
    }

    /// The frame's bytes, by value.
    pub fn into_bytes(self) -> (r: Vec<u8>)
        ensures
            r@ == self@,
    {
        self.buf
    }
}

/// The exact byte encoding of a connection request: version, command,
/// reserved, address type, address bytes (for domain names including the
/// length prefix), and the big-endian port.
pub open spec fn spec_encode_request(r: ReqView) -> Seq<u8> {
    seq![
        r.version,
        r.command.spec_wire_byte(),
        0u8,
        r.address_type.spec_wire_byte(),
    ] + r.raw_address + seq![spec_port_hi(r.port), spec_port_lo(r.port)]
}

/// What decoding a byte sequence as a connection request yields: the
/// parsed request, or the exact error owed for each malformed shape.
/// The sequence must hold exactly one frame; short input is a read
/// error, an unknown command or address-type byte is the corresponding
/// protocol error, and a version other than 5 or trailing bytes are
/// invalid input.
pub open spec fn spec_decode_request(b: Seq<u8>) -> Result<ReqView, MerinoError> {
    if b.len() < 4 {
        Err(MerinoError::Io(IoKind::ReadWrite))
    } else if b[0] != SOCKS_VERSION {
        Err(MerinoError::Io(IoKind::InvalidInput))
    } else if SockCommand::spec_from(b[1] as usize) is None {
        Err(MerinoError::Socks(ResponseCode::CommandNotSupported))
    } else if AddrType::spec_from(b[3] as usize) is None {
        Err(MerinoError::Socks(ResponseCode::AddrTypeNotSupported))
    } else {
        let command = SockCommand::spec_from(b[1] as usize)->Some_0;
        let address_type = AddrType::spec_from(b[3] as usize)->Some_0;
        let alen: int = match address_type {
            AddrType::V4 => 4,
            AddrType::V6 => 16,
            AddrType::Domain => if b.len() >= 5 { 1 + b[4] } else { 1 },
        };
        if b.len() < 4 + alen + 2 {
            Err(MerinoError::Io(IoKind::ReadWrite))
        } else if b.len() != 4 + alen + 2 {
            Err(MerinoError::Io(IoKind::InvalidInput))
        } else {
            Ok(ReqView {
                version: b[0],
                command,
                address_type,
                raw_address: b.subrange(4, 4 + alen),
                port: spec_port_of(b[4 + alen], b[5 + alen]),
            })
        }
    }
}

/// Encode a connection request into its exact wire bytes.
pub fn encode_request(req: &ConnectionRequest) -> (out: Vec<u8>)
    ensures
        out@ == spec_encode_request(req@),
{
    let mut out: Vec<u8> = Vec::new();
    out.push(req.version);
    out.push(req.command.wire_byte());
    out.push(0);
    out.push(req.address_type.wire_byte());
    let mut i: usize = 0;
    while i < req.raw_address.len()
        invariant
            i <= req.raw_address.len(),
            out@ =~= seq![
                req@.version,
                req@.command.spec_wire_byte(),
                0u8,
                req@.address_type.spec_wire_byte(),
            ] + req@.raw_address.subrange(0, i as int),
        decreases req.raw_address.len() - i,
    {
        out.push(req.raw_address[i]);
        i = i + 1;
    }
    let (hi, lo) = split_port(req.port);
    out.push(hi);
    out.push(lo);
    proof {
        assert(req@.raw_address.subrange(0, req@.raw_address.len() as int) =~= req@.raw_address);
        assert(out@ =~= spec_encode_request(req@));
    }
    out
}

/// Decode one connection-request frame. Returns `Ok` exactly on byte
/// sequences that hold one whole well-formed frame, and the error that
/// [`spec_decode_request`] owes for every other input.
pub fn decode_request(b: &Vec<u8>) -> (r: Result<ConnectionRequest, MerinoError>)
    ensures
        match r {
            Ok(req) => spec_decode_request(b@) == Ok::<ReqView, MerinoError>(req@) && req@.wf(),
            Err(e) => spec_decode_request(b@) == Err::<ReqView, MerinoError>(e),
        },
{
    if b.len() < 4 {
        return Err(MerinoError::Io(IoKind::ReadWrite));
    }
    if b[0] != SOCKS_VERSION {
        return Err(MerinoError::Io(IoKind::InvalidInput));
    }
    let command = match SockCommand::from(b[1] as usize) {
        Some(c) => c,
        None => {
            return Err(MerinoError::Socks(ResponseCode::CommandNotSupported));
        },
    };
    let address_type = match AddrType::from(b[3] as usize) {
        Some(t) => t,
        None => {
            return Err(MerinoError::Socks(ResponseCode::AddrTypeNotSupported));
        },
    };
    let alen: usize = match address_type {
        AddrType::V4 => 4,
        AddrType::V6 => 16,
        AddrType::Domain => {
            if b.len() >= 5 {
                1 + b[4] as usize
            } else {
                1
            }
        },
    };
    if b.len() < 4 + alen + 2 {
        return Err(MerinoError::Io(IoKind::ReadWrite));
    }
    if b.len() != 4 + alen + 2 {
        return Err(MerinoError::Io(IoKind::InvalidInput));
    }
    let mut raw_address: Vec<u8> = Vec::new();
    let mut i: usize = 0;
    while i < alen
        invariant
            i <= alen,
            alen <= 256,
            4 + alen + 2 == b@.len(),
            raw_address@ =~= b@.subrange(4, 4 + i as int),
        decreases alen - i,
    {
        raw_address.push(b[4 + i]);
        i = i + 1;
    }
    let port = merge_port(b[4 + alen], b[5 + alen]);
    let req = ConnectionRequest { version: b[0], command, address_type, raw_address, port };
    proof {
        assert(req@.raw_address =~= b@.subrange(4, 4 + alen as int));
        assert(spec_decode_request(b@) == Ok::<ReqView, MerinoError>(req@));
    }
    Ok(req)
}

/// Round-trip law: encoding a well-formed connection request and decoding
/// the resulting bytes reproduces the original structure exactly, for all
/// three address types and all commands.
pub proof fn lemma_request_round_trip(r: ReqView)
    requires
        r.wf(),
        r.version == SOCKS_VERSION,
    ensures
        spec_decode_request(spec_encode_request(r)) == Ok::<ReqView, MerinoError>(r),
{
    let b = spec_encode_request(r);
    let alen = r.raw_address.len() as int;
    assert(b.len() == 4 + alen + 2);
    assert(b[0] == r.version);
    assert(b[1] == r.command.spec_wire_byte());
    assert(b[3] == r.address_type.spec_wire_byte());
    assert(SockCommand::spec_from(b[1] as usize) == Some(r.command));
    assert(AddrType::spec_from(b[3] as usize) == Some(r.address_type));
    if r.address_type is Domain {
        assert(b[4] == r.raw_address[0]);
    }
    assert(b.subrange(4, 4 + alen) =~= r.raw_address);
    assert(b[4 + alen] == spec_port_hi(r.port));
    assert(b[5 + alen] == spec_port_lo(r.port));
    lemma_port_round_trip(r.port);
    let decoded = spec_decode_request(b);
    assert(decoded is Ok);
    assert(decoded->Ok_0 =~= r);
}

/// Splitting a port into big-endian bytes and merging them again gives
/// the original port back.
pub proof fn lemma_port_round_trip(port: u16)
    ensures
        spec_port_of(spec_port_hi(port), spec_port_lo(port)) == port,
{
    assert(spec_port_of(spec_port_hi(port), spec_port_lo(port)) == port) by {
        vstd::arithmetic::div_mod::lemma_fundamental_div_mod(port as int, 256);
    };
}

} // verus!
