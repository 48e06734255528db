//! The error taxonomy: mapping a raw status word to a semantic error.
//!
//! Firmware reports failure through a negative status word. The codes -1
//! through -9 are documented and each has a named kind here; firmware is free
//! to define new codes after this crate is written, so every other code is
//! kept, with its raw value, in the catch-all [`SbiError::Unrecognized`]
//! rather than being rejected. Classification therefore never fails.

use vstd::prelude::*;

verus! {

/// Error codes returned by firmware calls.
///
/// The match arms of this enum stay total under future firmware revisions:
/// a code minted after this crate was written lands in
/// [`SbiError::Unrecognized`] together with its raw value, so no caller has
/// to fail merely because the code is new.
#[derive(Debug, Clone, Copy, PartialEq, Eq, Hash, Structural)]
pub enum SbiError {
    /// The call failed for an unspecified or unknown reason
    Failed,
    /// The call is not implemented or the functionality is not available
    NotSupported,
    /// An invalid parameter was passed
    InvalidParameter,
    /// The implementation has denied execution of the call
    Denied,
    /// An invalid address was passed
    InvalidAddress,
    /// The resource is already available
    AlreadyAvailable,
    /// The resource was previously started
    AlreadyStarted,
    /// The resource was previously stopped
    AlreadyStopped,
    /// Shared memory is unavailable
    SharedMemoryUnavailable,
    /// A status code this crate does not know; the raw code is kept for
    /// diagnostics
    Unrecognized(isize),
}

/// What [`SbiError::classify`] returns for a status word: the named kind for
/// each documented code, the catch-all for everything else.
pub open spec fn spec_classify(code: isize) -> SbiError {
    if code == -1 {
        SbiError::Failed
    } else if code == -2 {
        SbiError::NotSupported
    } else if code == -3 {
        SbiError::InvalidParameter
    } else if code == -4 {
        SbiError::Denied
    } else if code == -5 {
        SbiError::InvalidAddress
    } else if code == -6 {
        SbiError::AlreadyAvailable
    } else if code == -7 {
        SbiError::AlreadyStarted
    } else if code == -8 {
        SbiError::AlreadyStopped
    } else if code == -9 {
        SbiError::SharedMemoryUnavailable
    } else {
        SbiError::Unrecognized(code)
    }
}

impl SbiError {
    /// Map a non-zero status word to its semantic error. The codes -1 through
    /// -9 are the documented ones; every other code, however negative, is
    /// carried through as `Unrecognized` and is never a failure of this
    /// function itself. A status of `0` means success and is decoded outside
    /// this type, by [`crate::transport::decode_result`].
    pub fn classify(code: isize) -> (r: SbiError)
        ensures
            r == spec_classify(code),
    {
        match code {
            -1 => SbiError::Failed,
            -2 => SbiError::NotSupported,
            -3 => SbiError::InvalidParameter,
            -4 => SbiError::Denied,
            -5 => SbiError::InvalidAddress,
            -6 => SbiError::AlreadyAvailable,
            -7 => SbiError::AlreadyStarted,
            -8 => SbiError::AlreadyStopped,
            -9 => SbiError::SharedMemoryUnavailable,
            _ => SbiError::Unrecognized(code),
        }
    }

    /// A short description of the error, in place of a `Display` impl.
    pub fn description(&self) -> String {
        let text = match *self {
            SbiError::Failed => "call to SBI failed",
            SbiError::NotSupported => "SBI call not implemented or functionality not available",
            SbiError::InvalidParameter => "invalid parameter passed",
            SbiError::Denied => "SBI implementation denied execution",
            SbiError::InvalidAddress => "invalid address passed",
            SbiError::AlreadyAvailable => "resource is already available",
            SbiError::AlreadyStarted => "resource was already started",
            SbiError::AlreadyStopped => "resource was already stopped",
            SbiError::SharedMemoryUnavailable => "shared memory is unavailable",
            SbiError::Unrecognized(_) => "unknown error",
        };
        text.to_string()
    }
}

/// Classification round-trips on the documented codes: no two documented
/// codes share a kind, so the kind recovers the code.
pub proof fn lemma_classify_documented_injective(c1: isize, c2: isize)
    requires
        -9 <= c1 <= -1,
        -9 <= c2 <= -1,
        c1 != c2,
    ensures
        spec_classify(c1) != spec_classify(c2),
{
}

/// Every code outside the documented set -9 through -1 classifies to the
/// catch-all kind, carrying the raw code unchanged.
pub proof fn lemma_unknown_code_is_unrecognized(code: isize)
    requires
        !(-9 <= code <= -1),
    ensures
        spec_classify(code) == SbiError::Unrecognized(code),
{
}

} // verus!
