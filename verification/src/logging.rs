//! Redaction of user sensitive data (such as peer addresses) from the logs.

use vstd::prelude::*;

verus! {

/// Whether logs are to be redacted, given the value of the `REDACT_LOGS` environment
/// variable (`None` when it is unset or not valid unicode): redact unless it is unset
/// or exactly `0`.
pub fn redact_logs_setting(value: Option<String>) -> (redact: bool)
    ensures
        redact == (value matches Some(v) && v@ != seq!['0']),
{
    match value {
        Some(v) => {
            let zero = "0".to_owned();
            proof {
                reveal_strlit("0");
                assert(zero@ =~= seq!['0']);
            }
            !(v == zero)
        },
        None => false,
    }
}

/// Wrap any displayable type in this to have its Display/Debug format be redacted at runtime
/// if the user so wish. Makes it possible to log more extensively without collecting user
/// sensitivie data.
pub struct Redact<T>(pub T);

impl<T> Redact<T> {
    /// The value to print in place of the wrapper: nothing when logs are redacted (the
    /// text `[REDACTED]` is printed instead), else the wrapped value.
    pub fn shown(&self, redact_logs: bool) -> (shown: Option<&T>)
        ensures
            redact_logs ==> shown is None,
            !redact_logs ==> shown == Some(&self.0),
    {
        if redact_logs {
            None
        } else {
            Some(&self.0)
        }
    }
}

} // verus!
