use merino::handler::{initial_directive, initial_state, step, Config, Directive, Event,
    HandlerState, RelayResult};
use merino::resolver::{Endpoint, IpAddress, Ipv4Parts};
use merino::types::{ResponseCode, User};

fn no_auth_config() -> Config {
    Config::new_no_auth(500)
}

fn user_pass_config() -> Config {
    Config::new(
        vec![0x02],
        vec![User::new("alice".to_string(), "secret".to_string())],
        500,
    )
}

const CONNECTION_REFUSED_REPLY: [u8; 10] = [5, 5, 0, 1, 0, 0, 0, 0, 0, 0];
const COMMAND_NOT_SUPPORTED_REPLY: [u8; 10] = [5, 7, 0, 1, 0, 0, 0, 0, 0, 0];
const ADDR_TYPE_NOT_SUPPORTED_REPLY: [u8; 10] = [5, 8, 0, 1, 0, 0, 0, 0, 0, 0];
const SUCCESS_REPLY: [u8; 10] = [5, 0, 0, 1, 0, 0, 0, 0, 0, 0];

#[test]
fn scenario_connect_success_and_relay() {
    // Greeting [5, 1, 0]: version 5, one method, no-auth.
    let cfg = no_auth_config();
    let st = initial_state();
    assert_eq!(initial_directive(), Directive::ReadBytes(2));

    let (st, r) = step(st, &cfg, Event::Bytes(vec![5, 1]));
    assert!(r.output.is_empty());
    assert_eq!(r.directive, Directive::ReadBytes(1));

    // Server replies [5, 0]: no-auth selected.
    let (st, r) = step(st, &cfg, Event::Bytes(vec![0x00]));
    assert_eq!(r.output, vec![5, 0]);
    assert_eq!(r.directive, Directive::ReadBytes(4));

    // Request: CONNECT to 127.0.0.1:9000.
    let (st, r) = step(st, &cfg, Event::Bytes(vec![5, 1, 0, 1]));
    assert!(r.output.is_empty());
    assert_eq!(r.directive, Directive::ReadBytes(4));
    let (st, r) = step(st, &cfg, Event::Bytes(vec![127, 0, 0, 1]));
    assert_eq!(r.directive, Directive::ReadBytes(2));
    let (st, r) = step(st, &cfg, Event::Bytes(vec![0x23, 0x28]));
    assert!(r.output.is_empty());
    assert_eq!(
        r.directive,
        Directive::ConnectTo(vec![Endpoint {
            ip: IpAddress::V4(Ipv4Parts { a: 127, b: 0, c: 0, d: 1 }),
            port: 9000,
        }])
    );

    // A listener answers: success reply precedes any relayed byte.
    let (st, r) = step(st, &cfg, Event::Connected);
    assert_eq!(r.output, SUCCESS_REPLY.to_vec());
    assert_eq!(r.directive, Directive::RelayTraffic);
    assert_eq!(st, HandlerState::Relaying);

    // Natural closure of the relay.
    let (st, r) = step(
        st,
        &cfg,
        Event::RelayEnded(RelayResult::Done { to_client: 42 }),
    );
    assert!(r.output.is_empty());
    assert_eq!(r.directive, Directive::CloseConn);
    assert_eq!(st, HandlerState::Closed { code: None });
}

#[test]
fn scenario_connect_refused() {
    let cfg = no_auth_config();
    let st = initial_state();
    let (st, _) = step(st, &cfg, Event::Bytes(vec![5, 1]));
    let (st, _) = step(st, &cfg, Event::Bytes(vec![0x00]));
    let (st, _) = step(st, &cfg, Event::Bytes(vec![5, 1, 0, 1]));
    let (st, _) = step(st, &cfg, Event::Bytes(vec![127, 0, 0, 1]));
    let (st, _) = step(st, &cfg, Event::Bytes(vec![0x23, 0x28]));

    // No listener on the target port: connection-refused reply, close,
    // zero relay bytes.
    let (st, r) = step(st, &cfg, Event::ConnectFailed);
    assert_eq!(r.output, CONNECTION_REFUSED_REPLY.to_vec());
    assert_eq!(r.directive, Directive::CloseConn);
    assert_eq!(
        st,
        HandlerState::Closed { code: Some(ResponseCode::ConnectionRefused) }
    );
}

#[test]
fn scenario_bad_credentials_close_before_request() {
    let cfg = user_pass_config();
    let st = initial_state();

    // Client offers only username/password.
    let (st, r) = step(st, &cfg, Event::Bytes(vec![5, 1]));
    assert_eq!(r.directive, Directive::ReadBytes(1));
    let (st, r) = step(st, &cfg, Event::Bytes(vec![0x02]));
    assert_eq!(r.output, vec![5, 2]);
    assert_eq!(r.directive, Directive::ReadBytes(2));

    // Subnegotiation: username "mallory", password "secret".
    let (st, r) = step(st, &cfg, Event::Bytes(vec![1, 7]));
    assert_eq!(r.directive, Directive::ReadBytes(7));
    let (st, r) = step(st, &cfg, Event::Bytes(b"mallory".to_vec()));
    assert_eq!(r.directive, Directive::ReadBytes(1));
    let (st, r) = step(st, &cfg, Event::Bytes(vec![6]));
    assert_eq!(r.directive, Directive::ReadBytes(6));
    let (st, r) = step(st, &cfg, Event::Bytes(b"secret".to_vec()));

    // Failure byte, then close: no request frame is ever asked for.
    assert_eq!(r.output, vec![1, 1]);
    assert_eq!(r.directive, Directive::CloseConn);
    assert_eq!(st, HandlerState::Closed { code: Some(ResponseCode::Failure) });
}

#[test]
fn scenario_good_credentials_proceed_to_request() {
    let cfg = user_pass_config();
    let st = initial_state();
    let (st, _) = step(st, &cfg, Event::Bytes(vec![5, 2]));
    let (st, r) = step(st, &cfg, Event::Bytes(vec![0x00, 0x02]));
    assert_eq!(r.output, vec![5, 2]);
    let (st, _) = step(st, &cfg, Event::Bytes(vec![1, 5]));
    let (st, _) = step(st, &cfg, Event::Bytes(b"alice".to_vec()));
    let (st, r) = step(st, &cfg, Event::Bytes(vec![6]));
    assert_eq!(r.directive, Directive::ReadBytes(6));
    let (st, r) = step(st, &cfg, Event::Bytes(b"secret".to_vec()));
    assert_eq!(r.output, vec![1, 0]);
    assert_eq!(r.directive, Directive::ReadBytes(4));
    assert_eq!(st, HandlerState::AwaitRequestHeader);
}

#[test]
fn userpass_preferred_over_noauth_when_both_offered() {
    let cfg = Config::new(
        vec![0x00, 0x02],
        vec![User::new("alice".to_string(), "secret".to_string())],
        500,
    );
    let st = initial_state();
    let (st, _) = step(st, &cfg, Event::Bytes(vec![5, 2]));
    let (st, r) = step(st, &cfg, Event::Bytes(vec![0x00, 0x02]));
    assert_eq!(r.output, vec![5, 2]);
    assert_eq!(st, HandlerState::AwaitAuthHeader);
}

#[test]
fn no_acceptable_methods_sentinel_and_close() {
    let cfg = no_auth_config();
    let st = initial_state();
    let (st, _) = step(st, &cfg, Event::Bytes(vec![5, 2]));
    // Client offers GSSAPI and username/password; server accepts neither.
    let (st, r) = step(st, &cfg, Event::Bytes(vec![0x01, 0x02]));
    assert_eq!(r.output, vec![5, 0xff]);
    assert_eq!(r.directive, Directive::CloseConn);
    assert!(matches!(st, HandlerState::Closed { .. }));
}

#[test]
fn unsupported_version_closes_silently() {
    let cfg = no_auth_config();
    let (st, r) = step(initial_state(), &cfg, Event::Bytes(vec![4, 1]));
    assert!(r.output.is_empty());
    assert_eq!(r.directive, Directive::CloseConn);
    assert_eq!(st, HandlerState::Closed { code: None });
}

#[test]
fn bind_and_udp_associate_are_rejected() {
    for cmd in [0x02u8, 0x03] {
        let cfg = no_auth_config();
        let st = initial_state();
        let (st, _) = step(st, &cfg, Event::Bytes(vec![5, 1]));
        let (st, _) = step(st, &cfg, Event::Bytes(vec![0x00]));
        let (st, _) = step(st, &cfg, Event::Bytes(vec![5, cmd, 0, 1]));
        let (st, _) = step(st, &cfg, Event::Bytes(vec![127, 0, 0, 1]));
        let (st, r) = step(st, &cfg, Event::Bytes(vec![0x23, 0x28]));
        assert_eq!(r.output, COMMAND_NOT_SUPPORTED_REPLY.to_vec());
        assert_eq!(r.directive, Directive::CloseConn);
        assert_eq!(
            st,
            HandlerState::Closed { code: Some(ResponseCode::CommandNotSupported) }
        );
    }
}

#[test]
fn unknown_command_byte_rejected_at_header() {
    let cfg = no_auth_config();
    let st = initial_state();
    let (st, _) = step(st, &cfg, Event::Bytes(vec![5, 1]));
    let (st, _) = step(st, &cfg, Event::Bytes(vec![0x00]));
    let (_, r) = step(st, &cfg, Event::Bytes(vec![5, 9, 0, 1]));
    assert_eq!(r.output, COMMAND_NOT_SUPPORTED_REPLY.to_vec());
    assert_eq!(r.directive, Directive::CloseConn);
}

#[test]
fn unknown_address_type_byte_rejected_at_header() {
    let cfg = no_auth_config();
    let st = initial_state();
    let (st, _) = step(st, &cfg, Event::Bytes(vec![5, 1]));
    let (st, _) = step(st, &cfg, Event::Bytes(vec![0x00]));
    let (_, r) = step(st, &cfg, Event::Bytes(vec![5, 1, 0, 2]));
    assert_eq!(r.output, ADDR_TYPE_NOT_SUPPORTED_REPLY.to_vec());
    assert_eq!(r.directive, Directive::CloseConn);
}

fn run_to_domain_port(cfg: &Config, name: &[u8]) -> HandlerState {
    let st = initial_state();
    let (st, _) = step(st, cfg, Event::Bytes(vec![5, 1]));
    let (st, _) = step(st, cfg, Event::Bytes(vec![0x00]));
    let (st, r) = step(st, cfg, Event::Bytes(vec![5, 1, 0, 3]));
    assert_eq!(r.directive, Directive::ReadBytes(1));
    let (st, r) = step(st, cfg, Event::Bytes(vec![name.len() as u8]));
    assert_eq!(r.directive, Directive::ReadBytes(name.len() as u16));
    let (st, r) = step(st, cfg, Event::Bytes(name.to_vec()));
    assert_eq!(r.directive, Directive::ReadBytes(2));
    st
}

#[test]
fn domain_request_resolves_then_connects() {
    let cfg = no_auth_config();
    let st = run_to_domain_port(&cfg, b"example.com");
    let (st, r) = step(st, &cfg, Event::Bytes(vec![0x01, 0xbb]));
    assert_eq!(r.directive, Directive::ResolveDomain("example.com".to_string()));
    assert!(r.output.is_empty());

    let ip = IpAddress::V4(Ipv4Parts { a: 93, b: 184, c: 216, d: 34 });
    let (st, r) = step(st, &cfg, Event::Resolved(vec![ip]));
    assert_eq!(
        r.directive,
        Directive::ConnectTo(vec![Endpoint { ip, port: 443 }])
    );
    assert_eq!(st, HandlerState::Connecting);
}

#[test]
fn domain_resolution_failure_is_host_unreachable() {
    let cfg = no_auth_config();
    let st = run_to_domain_port(&cfg, b"nxdomain.invalid");
    let (st, _) = step(st, &cfg, Event::Bytes(vec![0x01, 0xbb]));
    let (st, r) = step(st, &cfg, Event::ResolveFailed);
    assert_eq!(r.output, vec![5, 4, 0, 1, 0, 0, 0, 0, 0, 0]);
    assert_eq!(r.directive, Directive::CloseConn);
    assert_eq!(
        st,
        HandlerState::Closed { code: Some(ResponseCode::HostUnreachable) }
    );
}

#[test]
fn invalid_domain_bytes_fail_before_any_lookup() {
    let cfg = no_auth_config();
    let st = run_to_domain_port(&cfg, &[0xff, 0xfe]);
    let (st, r) = step(st, &cfg, Event::Bytes(vec![0x01, 0xbb]));
    assert_eq!(r.output, ADDR_TYPE_NOT_SUPPORTED_REPLY.to_vec());
    assert_eq!(r.directive, Directive::CloseConn);
    assert!(!matches!(r.directive, Directive::ResolveDomain(_)));
    assert_eq!(
        st,
        HandlerState::Closed { code: Some(ResponseCode::AddrTypeNotSupported) }
    );
}

#[test]
fn read_failure_answers_general_failure_and_closes() {
    let cfg = no_auth_config();
    let (st, r) = step(initial_state(), &cfg, Event::ReadFailed);
    assert_eq!(r.output, vec![5, 1, 0, 1, 0, 0, 0, 0, 0, 0]);
    assert_eq!(r.directive, Directive::CloseConn);
    assert_eq!(st, HandlerState::Closed { code: Some(ResponseCode::Failure) });
}

#[test]
fn relay_not_connected_is_normal_closure() {
    let cfg = no_auth_config();
    let (st, r) = step(
        HandlerState::Relaying,
        &cfg,
        Event::RelayEnded(RelayResult::NotConnected),
    );
    assert!(r.output.is_empty());
    assert_eq!(st, HandlerState::Closed { code: None });
    let (st2, r2) = step(
        HandlerState::Relaying,
        &cfg,
        Event::RelayEnded(RelayResult::Failed),
    );
    assert_eq!(r2.output, vec![5, 1, 0, 1, 0, 0, 0, 0, 0, 0]);
    assert_eq!(st2, HandlerState::Closed { code: Some(ResponseCode::Failure) });
}

#[test]
fn zero_methods_greeting_gets_sentinel() {
    let cfg = no_auth_config();
    let (st, r) = step(initial_state(), &cfg, Event::Bytes(vec![5, 0]));
    assert_eq!(r.directive, Directive::ReadBytes(0));
    let (_, r) = step(st, &cfg, Event::Bytes(Vec::new()));
    assert_eq!(r.output, vec![5, 0xff]);
    assert_eq!(r.directive, Directive::CloseConn);
}
