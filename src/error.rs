use vstd::prelude::*;

verus! {

/// The one way a host call goes wrong: the capability it needs is missing
/// (no window or document, outside a browser page) or the host refused the
/// request (an invalid tag name or selector, a refused registration).
#[derive(Debug, Clone, Copy, PartialEq, Eq, Structural)]
pub enum HostError {
    HostUnavailable,
}

/// A host value that may be missing, as a result: `Ok` with the value where
/// it is there, `HostUnavailable` where it is not.
pub open spec fn host_value<T>(value: Option<T>) -> Result<T, HostError> {
    match value {
        Some(v) => Ok(v),
        None => Err(HostError::HostUnavailable),
    }
}

/// The outcome of a host call with the host's own error replaced by
/// `HostUnavailable`; a successful value passes through unchanged.
pub open spec fn host_result<T, E>(outcome: Result<T, E>) -> Result<T, HostError> {
    match outcome {
        Ok(v) => Ok(v),
        Err(_) => Err(HostError::HostUnavailable),
    }
}

/// Turns a host value that may be missing into a result.
pub fn require_present<T>(value: Option<T>) -> (r: Result<T, HostError>)
    ensures
        r == host_value(value),
{
    match value {
        Some(v) => Ok(v),
        None => Err(HostError::HostUnavailable),
    }
}

/// Turns the outcome of a host call into a result of the library's own.
pub fn require_success<T, E>(outcome: Result<T, E>) -> (r: Result<T, HostError>)
    ensures
        r == host_result(outcome),
{
    match outcome {
        Ok(v) => Ok(v),
        Err(_) => Err(HostError::HostUnavailable),
    }
}

} // verus!
