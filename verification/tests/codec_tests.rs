use merino::codec::{decode_request, encode_request, merge_port, split_port, SocksReply};
use merino::types::{AddrType, ConnectionRequest, IoKind, MerinoError, ResponseCode, SockCommand};

#[test]
fn reply_frame_success() {
    let r = SocksReply::new(ResponseCode::Success);
    assert_eq!(r.bytes().as_slice(), &[5u8, 0, 0, 1, 0, 0, 0, 0, 0, 0]);
}

#[test]
fn reply_frame_each_code_byte() {
    let cases = [
        (ResponseCode::Success, 0x00u8),
        (ResponseCode::Failure, 0x01),
        (ResponseCode::RuleFailure, 0x02),
        (ResponseCode::NetworkUnreachable, 0x03),
        (ResponseCode::HostUnreachable, 0x04),
        (ResponseCode::ConnectionRefused, 0x05),
        (ResponseCode::TtlExpired, 0x06),
        (ResponseCode::CommandNotSupported, 0x07),
        (ResponseCode::AddrTypeNotSupported, 0x08),
    ];
    for (code, byte) in cases {
        let r = SocksReply::new(code);
        assert_eq!(r.bytes()[1], byte);
        assert_eq!(r.bytes().len(), 10);
    }
}

#[test]
fn reply_frame_timeout_maps_to_general_failure() {
    let r = SocksReply::new(ResponseCode::Timeout);
    assert_eq!(r.bytes()[1], 0x01);
}

#[test]
fn port_split_and_merge() {
    assert_eq!(merge_port(0x23, 0x28), 9000);
    assert_eq!(split_port(9000), (0x23, 0x28));
    assert_eq!(split_port(0), (0, 0));
    assert_eq!(split_port(65535), (0xff, 0xff));
    assert_eq!(merge_port(0xff, 0xff), 65535);
}

#[test]
fn encode_v4_request_exact_bytes() {
    let req = ConnectionRequest {
        version: 5,
        command: SockCommand::Connect,
        address_type: AddrType::V4,
        raw_address: vec![127, 0, 0, 1],
        port: 9000,
    };
    let bytes = encode_request(&req);
    assert_eq!(bytes, vec![0x05, 0x01, 0x00, 0x01, 127, 0, 0, 1, 0x23, 0x28]);
}

#[test]
fn round_trip_v4() {
    let req = ConnectionRequest {
        version: 5,
        command: SockCommand::Connect,
        address_type: AddrType::V4,
        raw_address: vec![10, 20, 30, 40],
        port: 80,
    };
    let bytes = encode_request(&req);
    let back = decode_request(&bytes).unwrap();
    assert_eq!(back.version, req.version);
    assert_eq!(back.command, req.command);
    assert_eq!(back.address_type, req.address_type);
    assert_eq!(back.raw_address, req.raw_address);
    assert_eq!(back.port, req.port);
}

#[test]
fn round_trip_v6_bind() {
    let req = ConnectionRequest {
        version: 5,
        command: SockCommand::Bind,
        address_type: AddrType::V6,
        raw_address: vec![0, 1, 2, 3, 4, 5, 6, 7, 8, 9, 10, 11, 12, 13, 14, 15],
        port: 65535,
    };
    let bytes = encode_request(&req);
    let back = decode_request(&bytes).unwrap();
    assert_eq!(back.command, SockCommand::Bind);
    assert_eq!(back.address_type, AddrType::V6);
    assert_eq!(back.raw_address, req.raw_address);
    assert_eq!(back.port, 65535);
}

#[test]
fn round_trip_domain() {
    let name = b"example.com";
    let mut raw = vec![name.len() as u8];
    raw.extend_from_slice(name);
    let req = ConnectionRequest {
        version: 5,
        command: SockCommand::Connect,
        address_type: AddrType::Domain,
        raw_address: raw.clone(),
        port: 443,
    };
    let bytes = encode_request(&req);
    let back = decode_request(&bytes).unwrap();
    assert_eq!(back.address_type, AddrType::Domain);
    assert_eq!(back.raw_address, raw);
    assert_eq!(back.port, 443);
}

#[test]
fn round_trip_udp_associate() {
    let req = ConnectionRequest {
        version: 5,
        command: SockCommand::UdpAssosiate,
        address_type: AddrType::V4,
        raw_address: vec![192, 168, 0, 1],
        port: 1,
    };
    let bytes = encode_request(&req);
    let back = decode_request(&bytes).unwrap();
    assert_eq!(back.command, SockCommand::UdpAssosiate);
}

#[test]
fn decode_truncated_is_read_error() {
    let r = decode_request(&vec![5, 1, 0]);
    assert_eq!(r.unwrap_err(), MerinoError::Io(IoKind::ReadWrite));
    let r = decode_request(&vec![5, 1, 0, 1, 127, 0]);
    assert_eq!(r.unwrap_err(), MerinoError::Io(IoKind::ReadWrite));
}

#[test]
fn decode_bad_version_is_invalid_input() {
    let r = decode_request(&vec![4, 1, 0, 1, 127, 0, 0, 1, 0, 80]);
    assert_eq!(r.unwrap_err(), MerinoError::Io(IoKind::InvalidInput));
}

#[test]
fn decode_bad_command_byte() {
    let r = decode_request(&vec![5, 9, 0, 1, 127, 0, 0, 1, 0, 80]);
    assert_eq!(
        r.unwrap_err(),
        MerinoError::Socks(ResponseCode::CommandNotSupported)
    );
}

#[test]
fn decode_bad_address_type_byte() {
    let r = decode_request(&vec![5, 1, 0, 2, 127, 0, 0, 1, 0, 80]);
    assert_eq!(
        r.unwrap_err(),
        MerinoError::Socks(ResponseCode::AddrTypeNotSupported)
    );
}

#[test]
fn decode_trailing_bytes_rejected() {
    let r = decode_request(&vec![5, 1, 0, 1, 127, 0, 0, 1, 0, 80, 99]);
    assert_eq!(r.unwrap_err(), MerinoError::Io(IoKind::InvalidInput));
}

#[test]
fn response_code_from_error() {
    assert_eq!(
        ResponseCode::from(MerinoError::Socks(ResponseCode::HostUnreachable)),
        ResponseCode::HostUnreachable
    );
    assert_eq!(
        ResponseCode::from(MerinoError::Io(IoKind::ReadWrite)),
        ResponseCode::Failure
    );
}
