//! Hart state management extension: starting, stopping, suspending and
//! querying individual harts.

use vstd::prelude::*;

use crate::error::{spec_classify, SbiError};
use crate::physical_address::PhysicalAddress;
use crate::restricted_range::RestrictedRange;
use crate::transport::{decode_result, spec_req0, spec_req1, spec_req3, CallRequest};

verus! {

/// Hart state management extension ID
pub const EXTENSION_ID: usize = 0x48534D;

/// The register image that starts the given hart at the given physical
/// address. On success the started hart begins execution there with virtual
/// memory protection disabled, supervisor interrupts disabled, its hart ID
/// in the first argument register and `private` in the second; all other
/// registers are undefined. Whether the address holds something safe to run
/// is the embedding's responsibility.
pub fn hart_start_request(hart_id: usize, start_addr: PhysicalAddress<()>, private: usize) -> (
    req: CallRequest)
    ensures
        req == spec_req3(EXTENSION_ID, 0, hart_id, start_addr.spec_addr(), private),
{
    CallRequest::req3(EXTENSION_ID, 0, hart_id, start_addr.raw(), private)
}

/// The register image that stops supervisor-mode execution on the calling
/// hart and yields it back to the firmware. A successful call does not
/// return, so only an error can be decoded, by
/// [`crate::transport::decode_never_result`]; it must be issued with
/// supervisor and user interrupts disabled.
pub fn hart_stop_request() -> (req: CallRequest)
    ensures
        req == spec_req0(EXTENSION_ID, 1),
{
    CallRequest::req0(EXTENSION_ID, 1)
}

/// The register image that queries the state of the given hart.
pub fn hart_state_request(hart_id: usize) -> (req: CallRequest)
    ensures
        req == spec_req1(EXTENSION_ID, 2, hart_id),
{
    CallRequest::req1(EXTENSION_ID, 2, hart_id)
}

/// Decode the returned register pair of a hart state query. The firmware
/// documents exactly the state encodings zero through six, so a successful
/// value word outside them is a firmware fault, excluded by contract; an
/// embedding that observes one must treat it as fatal rather than invent a
/// state.
pub fn hart_state_result(status: isize, value: usize) -> (r: Result<HartState, SbiError>)
    requires
        status == 0 ==> value <= 6,
    ensures
        status == 0 ==> r == Ok::<HartState, SbiError>(spec_hart_state(value)),
        status != 0 ==> r == Err::<HartState, SbiError>(spec_classify(status)),
{
    match decode_result(status, value) {
        Ok(v) => Ok(HartState::from_usize(v)),
        Err(e) => Err(e),
    }
}

/// The type of suspension to be entered when suspending a hart.
#[derive(Debug, Clone, Copy)]
pub enum SuspendType {
    /// Default retentive suspension, which saves register and control-
    /// register state and restores it upon hart resume.
    DefaultRetentive,
    /// A platform specific retentive suspend type, which saves register and
    /// control-register state and restores it upon hart resume.
    PlatformSpecificRetentive(RestrictedRange<0x10000000, 0x7FFFFFFF>),
    /// Default non-retentive suspension, which saves no state. The hart
    /// resumes at `resume_address` with only the two argument registers and
    /// the virtual-memory and interrupt controls in a defined state.
    DefaultNonRetentive {
        /// The address to resume execution at.
        resume_address: PhysicalAddress<()>,
        /// User-defined opaque value handed to the resumed hart in its second
        /// argument register.
        opaque: usize,
    },
    /// A platform specific non-retentive suspend type, which saves no state
    /// and resumes at `resume_address` as the default non-retentive kind
    /// does.
    PlatformSpecificNonRetentive {
        /// The platform-specific suspend value.
        value: RestrictedRange<0x90000000, 0xFFFFFFFF>,
        /// The address to resume execution at.
        resume_address: PhysicalAddress<()>,
        /// User-defined opaque value handed to the resumed hart in its second
        /// argument register.
        opaque: usize,
    },
}

impl SuspendType {
    /// The wire encoding of this suspension: the suspend type value, the
    /// resume address, and the opaque word. Retentive kinds resume in place,
    /// so their address and opaque words are zero.
    pub open spec fn spec_values(self) -> (u32, usize, usize) {
        match self {
            SuspendType::DefaultRetentive => (0x00000000u32, 0usize, 0usize),
            SuspendType::PlatformSpecificRetentive(n) => (n.spec_value(), 0usize, 0usize),
            SuspendType::DefaultNonRetentive { resume_address, opaque } => (
                0x80000000u32,
                resume_address.spec_addr(),
                opaque,
            ),
            SuspendType::PlatformSpecificNonRetentive { value, resume_address, opaque } => (
                value.spec_value(),
                resume_address.spec_addr(),
                opaque,
            ),
        }
    }

    /// The wire encoding of this suspension.
    pub fn to_values(self) -> (r: (u32, usize, usize))
        ensures
            r == self.spec_values(),
    {
        match self {
            SuspendType::DefaultRetentive => (0x00000000, 0, 0),
            SuspendType::PlatformSpecificRetentive(n) => (n.value(), 0, 0),
            SuspendType::DefaultNonRetentive { resume_address, opaque } => (
                0x80000000,
                resume_address.raw(),
                opaque,
            ),
            SuspendType::PlatformSpecificNonRetentive { value, resume_address, opaque } => (
                value.value(),
                resume_address.raw(),
                opaque,
            ),
        }
    }
}

/// The register image that places the calling hart into the suspended or
/// low-power state the [`SuspendType`] describes. The hart resumes on an
/// interrupt or platform event: retentive kinds return from the call as if
/// nothing happened, non-retentive kinds resume at the encoded address with
/// no saved state.
pub fn hart_suspend_request(suspend_type: SuspendType) -> (req: CallRequest)
    ensures
        req == spec_req3(
            EXTENSION_ID,
            3,
            suspend_type.spec_values().0 as usize,
            suspend_type.spec_values().1,
            suspend_type.spec_values().2,
        ),
{
    let (value, resume_addr, opaque) = suspend_type.to_values();
    CallRequest::req3(EXTENSION_ID, 3, value as usize, resume_addr, opaque)
}

/// Execution state of a hart.
#[derive(Debug, Clone, Copy, PartialEq, Eq, Structural)]
#[non_exhaustive]
pub enum HartState {
    /// The hart is powered on and executing normally
    Started,
    /// The hart is not executing in supervisor mode or any less privileged
    /// mode
    Stopped,
    /// A start request is pending for the hart
    StartRequestPending,
    /// A stop request is pending for the hart
    StopRequestPending,
    /// The hart is in a platform specific suspend (or low power) state
    Suspended,
    /// A suspend request is pending for the hart
    SuspendPending,
    /// An event has caused the hart to begin resuming normal execution
    ResumePending,
}

/// The hart state each documented encoding stands for.
pub open spec fn spec_hart_state(n: usize) -> HartState
    recommends
        n <= 6,
{
    if n == 0 {
        HartState::Started
    } else if n == 1 {
        HartState::Stopped
    } else if n == 2 {
        HartState::StartRequestPending
    } else if n == 3 {
        HartState::StopRequestPending
    } else if n == 4 {
        HartState::Suspended
    } else if n == 5 {
        HartState::SuspendPending
    } else {
        HartState::ResumePending
    }
}

impl HartState {
    /// The hart state the given encoding stands for. The firmware documents
    /// exactly the encodings zero through six; anything else is excluded by
    /// contract.
    pub fn from_usize(n: usize) -> (r: Self)
        requires
            n <= 6,
        ensures
            r == spec_hart_state(n),
    {
        match n {
            0 => HartState::Started,
            1 => HartState::Stopped,
            2 => HartState::StartRequestPending,
            3 => HartState::StopRequestPending,
            4 => HartState::Suspended,
            5 => HartState::SuspendPending,
            _ => HartState::ResumePending,
        }
    }
}

} // verus!
