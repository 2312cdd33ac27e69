use udp_over_tcp::tcp2udp::Tcp2UdpErrorKind;
use udp_over_tcp::udp2tcp::Udp2TcpErrorKind;
use std::convert::Infallible;
use udp_over_tcp::logging::{redact_logs_setting, Redact};
use udp_over_tcp::runtime::{runtime_flavor, RuntimeFlavor};
use udp_over_tcp::tcp2udp::{plan_run, IpFamily, RunOptionsError, UdpBindIp};
use udp_over_tcp::tcp_options::{
    apply_plan, duration_secs_from_str, set_nodelay_plan, IntegerErrorKind, SocketOptionOp,
};
use udp_over_tcp::{ApplyTcpOptionsError, ApplyTcpOptionsErrorKind, Delay, NeverOkResult, TcpOptions};

#[test]
fn default_options_only_read_back() {
    let options = TcpOptions::default();
    assert!(!options.nodelay);
    assert_eq!(options.recv_timeout, None);
    assert_eq!(
        apply_plan(&options, true),
        vec![
            SocketOptionOp::GetRecvBufferSize,
            SocketOptionOp::GetSendBufferSize,
            SocketOptionOp::GetMark,
        ]
    );
}

#[test]
fn given_options_are_set_then_read_back() {
    let mut options = TcpOptions::default();
    options.recv_buffer_size = Some(1024);
    options.send_buffer_size = Some(2048);
    options.fwmark = Some(7);
    assert_eq!(
        apply_plan(&options, true),
        vec![
            SocketOptionOp::SetRecvBufferSize(1024),
            SocketOptionOp::GetRecvBufferSize,
            SocketOptionOp::SetSendBufferSize(2048),
            SocketOptionOp::GetSendBufferSize,
            SocketOptionOp::SetMark(7),
            SocketOptionOp::GetMark,
        ]
    );
    assert_eq!(
        apply_plan(&options, false),
        vec![
            SocketOptionOp::SetRecvBufferSize(1024),
            SocketOptionOp::GetRecvBufferSize,
            SocketOptionOp::SetSendBufferSize(2048),
            SocketOptionOp::GetSendBufferSize,
        ]
    );
    assert_eq!(
        set_nodelay_plan(true),
        vec![SocketOptionOp::SetNoDelay(true), SocketOptionOp::GetNoDelay]
    );
}

#[test]
fn error_kinds_and_messages() {
    assert_eq!(SocketOptionOp::SetRecvBufferSize(1).error_kind(), ApplyTcpOptionsErrorKind::RecvBuffer);
    assert_eq!(SocketOptionOp::GetSendBufferSize.error_kind(), ApplyTcpOptionsErrorKind::SendBuffer);
    assert_eq!(SocketOptionOp::GetMark.error_kind(), ApplyTcpOptionsErrorKind::Mark);
    assert_eq!(SocketOptionOp::SetNoDelay(false).error_kind(), ApplyTcpOptionsErrorKind::TcpNoDelay);
    assert_eq!(ApplyTcpOptionsErrorKind::RecvBuffer.message(), "Failed to get/set TCP_RCVBUF");
    assert_eq!(ApplyTcpOptionsErrorKind::SendBuffer.message(), "Failed to get/set TCP_SNDBUF");
    assert_eq!(ApplyTcpOptionsErrorKind::Mark.message(), "Failed to get/set SO_MARK");
    assert_eq!(ApplyTcpOptionsErrorKind::TcpNoDelay.message(), "Failed to get/set TCP_NODELAY");
    let error = ApplyTcpOptionsError::new(ApplyTcpOptionsErrorKind::Mark, "Operation not permitted".to_string());
    assert_eq!(error.error_kind(), ApplyTcpOptionsErrorKind::Mark);
    assert_eq!(error.message(), "Failed to get/set SO_MARK");
    assert_eq!(error.source_description(), "Operation not permitted");
}

#[test]
fn recv_timeout_parses_whole_seconds() {
    assert_eq!(duration_secs_from_str("30").unwrap(), Delay::from_secs(30));
    assert_eq!(duration_secs_from_str("+7").unwrap(), Delay::from_secs(7));
    assert_eq!(duration_secs_from_str("0").unwrap(), Delay::from_secs(0));
    assert_eq!(
        duration_secs_from_str("18446744073709551615").unwrap(),
        Delay::from_secs(u64::MAX)
    );
    let kind = |s: &str| duration_secs_from_str(s).unwrap_err().error_kind();
    assert_eq!(kind("18446744073709551616"), IntegerErrorKind::PosOverflow);
    assert_eq!(kind(""), IntegerErrorKind::Empty);
    assert_eq!(kind("+"), IntegerErrorKind::InvalidDigit);
    assert_eq!(kind("-"), IntegerErrorKind::InvalidDigit);
    assert_eq!(kind("-1"), IntegerErrorKind::InvalidDigit);
    assert_eq!(kind(" 5"), IntegerErrorKind::InvalidDigit);
    assert_eq!(kind("1.5"), IntegerErrorKind::InvalidDigit);
    assert_eq!(
        duration_secs_from_str("x").unwrap_err().into_source().to_string(),
        "invalid digit found in string"
    );
}

#[test]
fn recv_timeout_reads_back_rendered_seconds() {
    for n in [0u64, 7, 10, 99, 1000, 4_294_967_296, u64::MAX] {
        assert_eq!(duration_secs_from_str(&n.to_string()).unwrap(), Delay::from_secs(n));
    }
}

#[test]
fn redaction_follows_environment() {
    assert!(!redact_logs_setting(None));
    assert!(!redact_logs_setting(Some("0".to_string())));
    assert!(redact_logs_setting(Some("1".to_string())));
    assert!(redact_logs_setting(Some("".to_string())));
    assert!(redact_logs_setting(Some("00".to_string())));
    let peer = Redact("10.0.0.1:5001");
    assert_eq!(peer.shown(true), None);
    assert_eq!(peer.shown(false), Some(&"10.0.0.1:5001"));
}

#[test]
fn udp_bind_ip_follows_forward_family() {
    assert_eq!(plan_run::<u8>(0, Some(1), IpFamily::V4), Err(RunOptionsError::NoTcpListenAddrs));
    assert_eq!(plan_run::<u8>(1, None, IpFamily::V4), Ok(UdpBindIp::Unspecified(IpFamily::V4)));
    assert_eq!(plan_run::<u8>(2, None, IpFamily::V6), Ok(UdpBindIp::Unspecified(IpFamily::V6)));
    assert_eq!(plan_run::<u8>(1, Some(9), IpFamily::V6), Ok(UdpBindIp::Given(9)));
}

#[test]
fn runtime_flavor_from_threads() {
    assert_eq!(runtime_flavor(None), RuntimeFlavor::MultiThread(None));
    assert_eq!(runtime_flavor(Some(1)), RuntimeFlavor::CurrentThread);
    assert_eq!(runtime_flavor(Some(4)), RuntimeFlavor::MultiThread(Some(4)));
}

#[test]
fn never_ok_result_gives_the_error() {
    let result: Result<Infallible, &str> = Err("boom");
    assert_eq!(result.into_error(), "boom");
}

#[test]
fn server_and_client_error_messages() {
    assert_eq!(Tcp2UdpErrorKind::NoTcpListenAddrs.message(), "Invalid options, no TCP listen addresses");
    assert_eq!(Tcp2UdpErrorKind::BindTcpSocket.message(), "Failed to bind TCP socket to");
    assert_eq!(
        Tcp2UdpErrorKind::ListenTcpSocket.message(),
        "Failed to start listening on TCP socket bound to"
    );
    assert_eq!(Tcp2UdpErrorKind::CreateStatsdClient.message(), "Failed to init metrics client");
    assert_eq!(Udp2TcpErrorKind::ApplyTcpOptions.message(), None);
    assert_eq!(Udp2TcpErrorKind::ReadUdp.message(), Some("Failed receiving the first UDP datagram"));
    assert_eq!(Udp2TcpErrorKind::ConnectTcp.message(), Some("Failed to connect to TCP forward address"));
}
