//! System reset extension.
//!
//! A successful reset never returns to the caller; only an error can be
//! decoded, which [`crate::transport::decode_never_result`] does. An
//! embedding that observes success from this call has caught firmware
//! violating the call's documentation and must treat that as fatal.

use vstd::prelude::*;

use crate::restricted_range::RestrictedRange;
use crate::transport::{spec_req2, CallRequest};

verus! {

/// System reset extension ID
pub const EXTENSION_ID: usize = 0x53525354;

/// The type of reset to perform
#[derive(Debug, Clone, Copy)]
#[non_exhaustive]
pub enum ResetType {
    /// Shutdown the system
    Shutdown,
    /// Power off all hardware and perform a cold boot
    ColdReboot,
    /// Reset processors and some hardware
    WarmReboot,
    /// Platform specific reset type
    PlatformSpecific(RestrictedRange<0xF0000000, 0xFFFFFFFF>),
}

impl ResetType {
    /// The wire encoding of this reset type.
    pub open spec fn spec_raw(self) -> u32 {
        match self {
            ResetType::Shutdown => 0,
            ResetType::ColdReboot => 1,
            ResetType::WarmReboot => 2,
            ResetType::PlatformSpecific(n) => n.spec_value(),
        }
    }

    /// The wire encoding of this reset type.
    pub fn raw_value(self) -> (r: u32)
        ensures
            r == self.spec_raw(),
    {
        match self {
            ResetType::Shutdown => 0,
            ResetType::ColdReboot => 1,
            ResetType::WarmReboot => 2,
            ResetType::PlatformSpecific(n) => n.value(),
        }
    }
}

/// The reason for performing the reset
#[derive(Debug, Clone, Copy)]
#[non_exhaustive]
pub enum ResetReason {
    /// No reason for reset
    NoReason,
    /// System failure
    SystemFailure,
    /// Implementation specific reset reason
    SbiSpecific(RestrictedRange<0xE0000000, 0xEFFFFFFF>),
    /// Platform specific reset reason
    PlatformSpecific(RestrictedRange<0xF0000000, 0xFFFFFFFF>),
}

impl ResetReason {
    /// The wire encoding of this reset reason.
    pub open spec fn spec_raw(self) -> u32 {
        match self {
            ResetReason::NoReason => 0,
            ResetReason::SystemFailure => 1,
            ResetReason::SbiSpecific(n) => n.spec_value(),
            ResetReason::PlatformSpecific(n) => n.spec_value(),
        }
    }

    /// The wire encoding of this reset reason.
    pub fn raw_value(self) -> (r: u32)
        ensures
            r == self.spec_raw(),
    {
        match self {
            ResetReason::NoReason => 0,
            ResetReason::SystemFailure => 1,
            ResetReason::SbiSpecific(n) => n.value(),
            ResetReason::PlatformSpecific(n) => n.value(),
        }
    }
}

/// The register image requesting a system reset of the given kind, with a
/// reason for the reset.
pub fn system_reset_request(kind: ResetType, reason: ResetReason) -> (req: CallRequest)
    ensures
        req == spec_req2(EXTENSION_ID, 0, kind.spec_raw() as usize, reason.spec_raw() as usize),
{
    CallRequest::req2(EXTENSION_ID, 0, kind.raw_value() as usize, reason.raw_value() as usize)
}

} // verus!
