//! The choice of async runtime for the server binary.

use vstd::prelude::*;

verus! {

/// The kind of async runtime to build.
#[derive(Debug, Clone, Copy, PartialEq, Eq)]
pub enum RuntimeFlavor {
    /// A single threaded runtime.
    CurrentThread,
    /// A runtime with the given number of worker threads, or as many as the system has
    /// cores when `None`.
    MultiThread(Option<usize>),
}

/// The runtime for the process to use. If `threads` is `None` it uses the same amount of
/// worker threads as system cores. A single threaded runtime if `threads` is `Some(1)`.
/// Otherwise it uses the specified number of worker threads.
pub fn runtime_flavor(threads: Option<u8>) -> (flavor: RuntimeFlavor)
    requires
        threads != Some(0u8),
    ensures
        threads is None ==> flavor == RuntimeFlavor::MultiThread(None),
        threads == Some(1u8) ==> flavor == RuntimeFlavor::CurrentThread,
        threads matches Some(n) ==> (n > 1 ==> flavor == RuntimeFlavor::MultiThread(
            Some(n as usize),
        )),
{
    match threads {
        Some(1) => RuntimeFlavor::CurrentThread,
        Some(n) => RuntimeFlavor::MultiThread(Some(n as usize)),
        None => RuntimeFlavor::MultiThread(None),
    }
}

} // verus!
