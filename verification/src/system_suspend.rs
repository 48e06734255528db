//! System suspend extension.

use vstd::prelude::*;

use crate::physical_address::PhysicalAddress;
use crate::restricted_range::RestrictedRange;
use crate::transport::{spec_req3, CallRequest};

verus! {

/// System suspend extension ID
pub const EXTENSION_ID: usize = 0x53555350;

/// A set of values describing possible sleep states to enter
#[derive(Debug, Clone, Copy)]
#[non_exhaustive]
pub enum SleepType {
    /// Suspend to RAM: all harts but the calling one must be stopped and all
    /// hart registers and control-register values saved to RAM.
    SuspendToRam,
    /// Platform specific sleep type value
    PlatformSpecific(RestrictedRange<0x80000000, 0xFFFFFFFF>),
}

impl SleepType {
    /// The wire encoding of this sleep type.
    pub open spec fn spec_raw(self) -> u32 {
        match self {
            SleepType::SuspendToRam => 0,
            SleepType::PlatformSpecific(n) => n.spec_value(),
        }
    }

    /// The wire encoding of this sleep type.
    pub fn raw_value(self) -> (r: u32)
        ensures
            r == self.spec_raw(),
    {
        match self {
            SleepType::SuspendToRam => 0,
            SleepType::PlatformSpecific(n) => n.value(),
        }
    }
}

/// The register image requesting that the system be suspended in the way the
/// given [`SleepType`] describes. After a successful suspension the calling
/// hart resumes at `resume_addr` with virtual memory protection disabled,
/// supervisor interrupts disabled, its hart ID in the first argument
/// register and `opaque` in the second; a successful call therefore does not
/// return normally, and only an error can be decoded, by
/// [`crate::transport::decode_never_result`].
pub fn system_suspend_request(
    sleep_type: SleepType,
    resume_addr: PhysicalAddress<()>,
    opaque: usize,
) -> (req: CallRequest)
    ensures
        req == spec_req3(
            EXTENSION_ID,
            0,
            sleep_type.spec_raw() as usize,
            resume_addr.spec_addr(),
            opaque,
        ),
{
    CallRequest::req3(
        EXTENSION_ID,
        0,
        sleep_type.raw_value() as usize,
        resume_addr.raw(),
        opaque,
    )
}

} // verus!
