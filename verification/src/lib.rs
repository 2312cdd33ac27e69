//! Tunnelling UDP datagrams through a TCP stream: the framing of datagrams in the
//! stream, the reassembly of datagrams from stream chunks, and the decisions that
//! the forwarders make (back-off between failed accepts, socket options to apply).

use vstd::prelude::*;
use std::convert::Infallible;

pub mod delay;
pub mod exponential_backoff;
pub mod framing;
pub mod forward_traffic;
pub mod tcp_options;
pub mod logging;
pub mod tcp2udp;
pub mod udp2tcp;
pub mod runtime;

pub use delay::Delay;
pub use exponential_backoff::ExponentialBackoff;
pub use forward_traffic::{datagram_buffer, TcpStreamDecoder, MAX_DATAGRAM_SIZE};
pub use tcp_options::{ApplyTcpOptionsError, ApplyTcpOptionsErrorKind, TcpOptions};

verus! {

/// Helper trait for `Result<Infallible, E>` types. Allows getting the `E` value
/// in a way that is guaranteed to not panic.
pub trait NeverOkResult<E>: Sized {
    /// `error` is the error that `self` holds, if it holds one.
    spec fn holds_error(&self, error: E) -> bool;

    /// The error inside the result.
    fn into_error(self) -> (error: E)
        ensures
            self.holds_error(error),
    ;
}

/// Calls `Result::expect_err`, which returns the error of an `Err`. It would panic on an
/// `Ok`, but a `Result<Infallible, _>` is never `Ok`: `Infallible` has no values.
#[verifier::external_body]
fn expect_err<E>(result: Result<Infallible, E>, msg: &str) -> (error: E)
    ensures
        result matches Err(e) ==> error == e,
{
    result.expect_err(msg)
}

impl<E> NeverOkResult<E> for Result<Infallible, E> {
    open spec fn holds_error(&self, error: E) -> bool {
        self matches Err(e) ==> error == e
    }

    fn into_error(self) -> (error: E) {
        expect_err(self, "Result<Infallible, _> can't be Ok variant")
    }
}

} // verus!
