use merino::types::{AddrType, AuthMethods, ResponseCode, SockCommand, User};

#[test]
fn auth_method_wire_bytes() {
    assert_eq!(AuthMethods::NoAuth.wire_byte(), 0x00);
    assert_eq!(AuthMethods::UserPass.wire_byte(), 0x02);
    assert_eq!(AuthMethods::NoMethods.wire_byte(), 0xff);
}

#[test]
fn addr_type_parses_only_defined_bytes() {
    assert_eq!(AddrType::from(1), Some(AddrType::V4));
    assert_eq!(AddrType::from(3), Some(AddrType::Domain));
    assert_eq!(AddrType::from(4), Some(AddrType::V6));
    assert_eq!(AddrType::from(0), None);
    assert_eq!(AddrType::from(2), None);
    assert_eq!(AddrType::from(5), None);
}

#[test]
fn command_parses_only_defined_bytes() {
    assert_eq!(SockCommand::from(1), Some(SockCommand::Connect));
    assert_eq!(SockCommand::from(2), Some(SockCommand::Bind));
    assert_eq!(SockCommand::from(3), Some(SockCommand::UdpAssosiate));
    assert_eq!(SockCommand::from(0), None);
    assert_eq!(SockCommand::from(4), None);
}

#[test]
fn wire_bytes_invert_parsing() {
    for t in [AddrType::V4, AddrType::Domain, AddrType::V6] {
        assert_eq!(AddrType::from(t.wire_byte() as usize), Some(t));
    }
    for c in [SockCommand::Connect, SockCommand::Bind, SockCommand::UdpAssosiate] {
        assert_eq!(SockCommand::from(c.wire_byte() as usize), Some(c));
    }
}

#[test]
fn response_code_wire_bytes() {
    assert_eq!(ResponseCode::Success.wire_byte(), 0x00);
    assert_eq!(ResponseCode::CommandNotSupported.wire_byte(), 0x07);
    assert_eq!(ResponseCode::AddrTypeNotSupported.wire_byte(), 0x08);
    assert_eq!(ResponseCode::Timeout.wire_byte(), 0x01);
}

#[test]
fn response_code_messages() {
    assert_eq!(ResponseCode::Success.message(), "success");
    assert_eq!(ResponseCode::ConnectionRefused.message(), "connection refused");
    assert_eq!(ResponseCode::Timeout.message(), "timeout");
}

#[test]
fn user_equality_is_exact_on_both_fields() {
    let u = User::new("alice".to_string(), "secret".to_string());
    assert_eq!(u, User::new("alice".to_string(), "secret".to_string()));
    assert_ne!(u, User::new("alice".to_string(), "Secret".to_string()));
    assert_ne!(u, User::new("Alice".to_string(), "secret".to_string()));
}
