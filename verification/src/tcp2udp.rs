//! The decisions of the server that listens on TCP and forwards the data in incoming
//! connections to UDP.

use vstd::prelude::*;
use crate::delay::{Delay, NANOS_PER_MILLI};
use crate::exponential_backoff::{backoff_delay, ExponentialBackoff};

verus! {

/// The family of an IP address.
#[derive(Debug, Clone, Copy, PartialEq, Eq)]
pub enum IpFamily {
    V4,
    V6,
}

/// The local IP that the UDP socket of each connection binds to.
#[derive(Debug, Clone, Copy, PartialEq, Eq)]
pub enum UdpBindIp<A> {
    /// The IP given in the options.
    Given(A),
    /// The unspecified address (`0.0.0.0` or `::`) of the given family.
    Unspecified(IpFamily),
}

/// Options that `run` refuses.
#[derive(Debug, Clone, Copy, PartialEq, Eq)]
pub enum RunOptionsError {
    /// No TCP listen addresses given in the options.
    NoTcpListenAddrs,
}

/// Checks the options of `run` and picks the IP to bind the UDP sockets to: the IP given
/// in the options, or else the unspecified address of the same family as the address
/// that the traffic is forwarded to.
pub fn plan_run<A>(
    num_tcp_listen_addrs: usize,
    udp_bind_ip: Option<A>,
    udp_forward_family: IpFamily,
) -> (plan: Result<UdpBindIp<A>, RunOptionsError>)
    ensures
        num_tcp_listen_addrs == 0 ==> plan == Err::<UdpBindIp<A>, RunOptionsError>(
            RunOptionsError::NoTcpListenAddrs,
        ),
        num_tcp_listen_addrs > 0 ==> plan == Ok::<UdpBindIp<A>, RunOptionsError>(
            match udp_bind_ip {
                Some(ip) => UdpBindIp::Given(ip),
                None => UdpBindIp::Unspecified(udp_forward_family),
            },
        ),
{
    if num_tcp_listen_addrs == 0 {
        return Err(RunOptionsError::NoTcpListenAddrs);
    }
    match udp_bind_ip {
        Some(ip) => Ok(UdpBindIp::Given(ip)),
        None => Ok(UdpBindIp::Unspecified(udp_forward_family)),
    }
}

/// The pause after the first failed accept, in milliseconds.
pub const ACCEPT_COOLDOWN_START_MILLIS: u64 = 50;

/// The longest pause between failed accepts, in milliseconds.
pub const ACCEPT_COOLDOWN_MAX_MILLIS: u64 = 5000;

/// The pause after the first failed accept, in nanoseconds.
pub open spec fn accept_cooldown_start() -> nat {
    (ACCEPT_COOLDOWN_START_MILLIS as nat) * (NANOS_PER_MILLI as nat)
}

/// The longest pause between failed accepts, in nanoseconds.
pub open spec fn accept_cooldown_max() -> nat {
    (ACCEPT_COOLDOWN_MAX_MILLIS as nat) * (NANOS_PER_MILLI as nat)
}

/// What the listener does after an accept.
#[derive(Debug, Clone, Copy, PartialEq, Eq)]
pub enum AcceptAction {
    /// Serve the accepted connection.
    ServeConnection,
    /// Report the failed accept and sleep this long before accepting again.
    ReportErrorAndPause(Delay),
}

/// The state of a TCP listener between accepts. If the process runs out of file
/// descriptors, it will fail to accept a socket, and that socket will remain in the
/// queue and fail again immediately. To not busy loop, failed accepts are followed by
/// a pause that doubles with each failure in a row, up to a maximum; a successful accept
/// resets it.
pub struct AcceptCooldown {
    /// Its steps are the accepts that failed since the last one that succeeded.
    cooldown: ExponentialBackoff,
}

impl AcceptCooldown {
    /// The cooldown's internal invariant.
    pub closed spec fn wf(&self) -> bool {
        &&& self.cooldown.start() == accept_cooldown_start()
        &&& self.cooldown.max() == accept_cooldown_max()
        &&& self.cooldown.on_sequence()
    }

    /// Accepts that failed since the last one that succeeded (or since the start).
    pub closed spec fn failures_in_row(&self) -> nat {
        self.cooldown.steps()
    }

    /// The state of a listener that has not accepted anything yet.
    pub fn new() -> (c: Self)
        ensures
            c.wf(),
            c.failures_in_row() == 0,
    {
        AcceptCooldown {
            cooldown: ExponentialBackoff::new(
                Delay::from_millis(ACCEPT_COOLDOWN_START_MILLIS),
                Delay::from_millis(ACCEPT_COOLDOWN_MAX_MILLIS),
            ),
        }
    }

    /// Decides what to do after an accept that succeeded (`accepted`) or failed. After
    /// the `k`-th failure in a row (counting from zero) the listener pauses for
    /// `backoff_delay(50 ms, 5 s, k)`.
    pub fn on_accept(&mut self, accepted: bool) -> (action: AcceptAction)
        requires
            old(self).wf(),
        ensures
            final(self).wf(),
            accepted ==> action == AcceptAction::ServeConnection,
            accepted ==> final(self).failures_in_row() == 0,
            !accepted ==> (action matches AcceptAction::ReportErrorAndPause(pause) && pause@
                == backoff_delay(
                accept_cooldown_start(),
                accept_cooldown_max(),
                old(self).failures_in_row(),
            )),
            !accepted ==> final(self).failures_in_row() == old(self).failures_in_row() + 1,
    {
        if accepted {
            self.cooldown.reset();
            AcceptAction::ServeConnection
        } else {
            let pause = self.cooldown.next_delay();
            AcceptAction::ReportErrorAndPause(pause)
        }
    }
}

/// Which step of `run` failed.
#[derive(Debug, Clone, Copy, PartialEq, Eq)]
pub enum Tcp2UdpErrorKind {
    /// No TCP listen addresses given in the options.
    NoTcpListenAddrs,
    /// Failed to create a TCP socket.
    CreateTcpSocket,
    /// Failed to apply TCP options to a socket.
    ApplyTcpOptions,
    /// Failed to enable `SO_REUSEADDR` on a TCP socket.
    SetReuseAddr,
    /// Failed to bind a TCP socket to its address.
    BindTcpSocket,
    /// Failed to start listening on a TCP socket.
    ListenTcpSocket,
    /// Failed to initialize the statsd client.
    CreateStatsdClient,
}

/// The message that describes a failure of the given kind. For `BindTcpSocket` and
/// `ListenTcpSocket` the socket's address follows it, after a space.
pub open spec fn tcp2udp_error_message(kind: Tcp2UdpErrorKind) -> Seq<char> {
    match kind {
        Tcp2UdpErrorKind::NoTcpListenAddrs => "Invalid options, no TCP listen addresses"@,
        Tcp2UdpErrorKind::CreateTcpSocket => "Failed to create TCP socket"@,
        Tcp2UdpErrorKind::ApplyTcpOptions => "Failed to apply options to TCP socket"@,
        Tcp2UdpErrorKind::SetReuseAddr => "Failed to set SO_REUSEADDR on TCP socket"@,
        Tcp2UdpErrorKind::BindTcpSocket => "Failed to bind TCP socket to"@,
        Tcp2UdpErrorKind::ListenTcpSocket => "Failed to start listening on TCP socket bound to"@,
        Tcp2UdpErrorKind::CreateStatsdClient => "Failed to init metrics client"@,
    }
}

impl Tcp2UdpErrorKind {
    /// The message that describes a failure of this kind (see `tcp2udp_error_message`).
    pub fn message(&self) -> (message: &'static str)
        ensures
            message@ == tcp2udp_error_message(*self),
    {
        match self {
            Tcp2UdpErrorKind::NoTcpListenAddrs => "Invalid options, no TCP listen addresses",
            Tcp2UdpErrorKind::CreateTcpSocket => "Failed to create TCP socket",
            Tcp2UdpErrorKind::ApplyTcpOptions => "Failed to apply options to TCP socket",
            Tcp2UdpErrorKind::SetReuseAddr => "Failed to set SO_REUSEADDR on TCP socket",
            Tcp2UdpErrorKind::BindTcpSocket => "Failed to bind TCP socket to",
            Tcp2UdpErrorKind::ListenTcpSocket => "Failed to start listening on TCP socket bound to",
            Tcp2UdpErrorKind::CreateStatsdClient => "Failed to init metrics client",
        }
    }
}

} // verus!
