//! The failures of the client that listens on UDP and forwards the data in incoming
//! datagrams to a TCP stream.

use vstd::prelude::*;

verus! {

/// Which step of setting up or running the forwarding failed.
#[derive(Debug, Clone, Copy, PartialEq, Eq)]
pub enum Udp2TcpErrorKind {
    /// Failed to create the TCP socket.
    CreateTcpSocket,
    /// Failed to apply the given TCP socket options.
    ApplyTcpOptions,
    /// Failed to bind UDP socket locally.
    BindUdp,
    /// Failed to read from UDP socket.
    ReadUdp,
    /// Failed to connect UDP socket to the incoming address.
    ConnectUdp,
    /// Failed to connect TCP socket to forward address.
    ConnectTcp,
}

/// The message that describes a failure of the given kind; `None` for a failure to apply
/// the TCP options, which is described by the message of the option that failed.
pub open spec fn udp2tcp_error_message(kind: Udp2TcpErrorKind) -> Option<Seq<char>> {
    match kind {
        Udp2TcpErrorKind::CreateTcpSocket => Some("Failed to create the TCP socket"@),
        Udp2TcpErrorKind::ApplyTcpOptions => None,
        Udp2TcpErrorKind::BindUdp => Some("Failed to bind UDP socket locally"@),
        Udp2TcpErrorKind::ReadUdp => Some("Failed receiving the first UDP datagram"@),
        Udp2TcpErrorKind::ConnectUdp => Some("Failed to connect UDP socket to peer"@),
        Udp2TcpErrorKind::ConnectTcp => Some("Failed to connect to TCP forward address"@),
    }
}

impl Udp2TcpErrorKind {
    /// The message that describes a failure of this kind (see `udp2tcp_error_message`).
    pub fn message(&self) -> (message: Option<&'static str>)
        ensures
            message is Some <==> udp2tcp_error_message(*self) is Some,
            message matches Some(m) ==> udp2tcp_error_message(*self) == Some(m@),
    {
        match self {
            Udp2TcpErrorKind::CreateTcpSocket => Some("Failed to create the TCP socket"),
            Udp2TcpErrorKind::ApplyTcpOptions => None,
            Udp2TcpErrorKind::BindUdp => Some("Failed to bind UDP socket locally"),
            Udp2TcpErrorKind::ReadUdp => Some("Failed receiving the first UDP datagram"),
            Udp2TcpErrorKind::ConnectUdp => Some("Failed to connect UDP socket to peer"),
            Udp2TcpErrorKind::ConnectTcp => Some("Failed to connect to TCP forward address"),
        }
    }
}

} // verus!
