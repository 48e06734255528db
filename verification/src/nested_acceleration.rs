//! Nested acceleration extension: letting a hypervisor batch control-register
//! updates and fences through a shared memory area instead of trapping for
//! each one.
//!
//! The verified layer holds the vocabulary and the call encodings: which
//! control-register addresses are valid ([`CsrAddress`]), the features that
//! can be probed ([`NaclFeature`]), and the register images of the probe,
//! shared-memory and synchronize calls. Laying out and dereferencing the
//! shared memory area itself is pointer work that lives in the embedding
//! program.

use vstd::prelude::*;

use crate::error::{spec_classify, SbiError};
use crate::physical_address::PhysicalAddress;
use crate::transport::{decode_result, spec_req1, spec_req3, CallRequest};

pub mod csrs;

verus! {

/// Nested Acceleration extension ID
pub const EXTENSION_ID: usize = 0x4E41434C;

/// Whether `raw` is a control-register address in one of the ranges the
/// extension accepts: the virtual-supervisor and hypervisor register files
/// and their custom neighbourhoods.
pub open spec fn spec_valid_csr_address(raw: u16) -> bool {
    (0x200 <= raw <= 0x2FF) || (0x600 <= raw <= 0x6FF) || (0xA00 <= raw <= 0xAFF) || (0xE00 <= raw
        <= 0xEFF)
}

/// The address of a control register that the extension can synchronize.
#[derive(Debug, Clone, Copy, PartialEq, Eq, Structural)]
pub struct CsrAddress(pub(crate) u16);

impl CsrAddress {
    /// The raw control-register address.
    pub closed spec fn spec_raw(self) -> u16 {
        self.0
    }

    /// The raw control-register address.
    pub fn raw(self) -> (r: u16)
        ensures
            r == self.spec_raw(),
    {
        self.0
    }

    /// Create a [`CsrAddress`], returning `None` exactly when `raw` is
    /// outside every address range the extension accepts.
    pub fn new(raw: u16) -> (r: Option<Self>)
        ensures
            spec_valid_csr_address(raw) ==> (r matches Some(a) && a.spec_raw() == raw),
            !spec_valid_csr_address(raw) ==> r is None,
    {
        if (0x200 <= raw && raw <= 0x2FF) || (0x600 <= raw && raw <= 0x6FF) || (0xA00 <= raw && raw
            <= 0xAFF) || (0xE00 <= raw && raw <= 0xEFF) {
            Some(Self(raw))
        } else {
            None
        }
    }

    /// Create a [`CsrAddress`] without checking the address ranges; for the
    /// statically known register addresses of [`csrs`].
    pub fn new_unchecked(raw: u16) -> (r: Self)
        ensures
            r.spec_raw() == raw,
    {
        Self(raw)
    }
}

/// A control register of the hypervisor extension, its address fixed at the
/// type level.
pub trait HExtensionCsr: Sized + Copy {
    /// The register's address.
    spec fn spec_address() -> u16;

    /// The register's address.
    fn address() -> (r: CsrAddress)
        ensures
            r.spec_raw() == Self::spec_address();
}

/// Names, in a synchronize request, which control registers to update: one
/// register's address, or all of them at once.
#[derive(Debug, Clone, Copy, PartialEq, Eq, Structural)]
pub struct UpdateCsrAddress(pub(crate) u16);

impl UpdateCsrAddress {
    /// The raw word of the request.
    pub closed spec fn spec_raw(self) -> u16 {
        self.0
    }

    /// The raw word of the request.
    pub fn raw(self) -> (r: u16)
        ensures
            r == self.spec_raw(),
    {
        self.0
    }

    /// The request word that asks for every control register to be updated.
    pub fn all() -> (r: Self)
        ensures
            r.spec_raw() == 0xFFFF,
    {
        Self(0xFFFF)
    }
}

impl From<CsrAddress> for UpdateCsrAddress {
    fn from(value: CsrAddress) -> (r: Self)
        ensures
            r.spec_raw() == value.spec_raw(),
    {
        Self(value.0)
    }
}

impl vstd::std_specs::convert::FromSpecImpl<CsrAddress> for UpdateCsrAddress {
    open spec fn obeys_from_spec() -> bool {
        true
    }

    closed spec fn from_spec(value: CsrAddress) -> Self {
        UpdateCsrAddress(value.0)
    }
}

/// Converting a control-register address into an update request keeps the
/// raw address word.
pub proof fn lemma_update_address_from_csr(value: CsrAddress)
    ensures
        (<UpdateCsrAddress as vstd::std_specs::convert::FromSpec<
            CsrAddress,
        >>::from_spec(value)).spec_raw() == value.spec_raw(),
{
}

/// The marker bound that keeps the feature vocabulary closed to this module.
pub trait Sealed {

}

/// A feature of the nested acceleration extension that can be probed for.
pub trait NaclFeature: Sealed {
    /// The feature's probe ID.
    spec fn spec_id() -> u32;

    /// The feature's probe ID.
    fn id() -> (r: u32)
        ensures
            r == Self::spec_id();
}

/// The shared memory area a hart registers with the firmware: a page of
/// scratch space followed by the control-register value table. The verified
/// layer uses it only as the type tag of the registered address; the
/// embedding program owns the memory image itself.
pub struct SharedMemoryLayout;

/// Synchronizing control-register values through the shared memory area.
pub struct SynchronizeCsr;

impl Sealed for SynchronizeCsr {

}

impl NaclFeature for SynchronizeCsr {
    open spec fn spec_id() -> u32 {
        0x00000000
    }

    fn id() -> (r: u32) {
        0x00000000
    }
}

/// Queueing hypervisor fences through the shared memory area.
pub struct SynchronizeHfence;

impl Sealed for SynchronizeHfence {

}

impl NaclFeature for SynchronizeHfence {
    open spec fn spec_id() -> u32 {
        0x00000001
    }

    fn id() -> (r: u32) {
        0x00000001
    }
}

/// Synchronizing supervisor-return state through the shared memory area.
pub struct SynchronizeSret;

impl Sealed for SynchronizeSret {

}

impl NaclFeature for SynchronizeSret {
    open spec fn spec_id() -> u32 {
        0x00000002
    }

    fn id() -> (r: u32) {
        0x00000002
    }
}

/// Flag bits of the autoswap area.
pub struct AutoswapFlags(pub(crate) usize);

impl AutoswapFlags {
    /// The raw flag bits.
    pub closed spec fn spec_bits(self) -> usize {
        self.0
    }

    /// The raw flag bits.
    pub fn raw_bits(&self) -> (r: usize)
        ensures
            r == self.spec_bits(),
    {
        self.0
    }

    /// No flags
    pub fn none() -> (r: Self)
        ensures
            r.spec_bits() == 0,
    {
        Self(0)
    }
}

/// Swapping a control register automatically on world switches through the
/// shared memory area.
pub struct AutoswapCsr;

impl Sealed for AutoswapCsr {

}

impl NaclFeature for AutoswapCsr {
    open spec fn spec_id() -> u32 {
        0x00000003
    }

    fn id() -> (r: u32) {
        0x00000003
    }
}

/// Witness that the autoswap feature was probed available.
#[derive(Debug, Clone, Copy, PartialEq, Eq, Structural)]
pub struct AutoswapCsrToken;

/// The register image probing whether the firmware implements the given
/// feature of this extension.
pub fn probe_feature_request<F: NaclFeature>() -> (req: CallRequest)
    ensures
        req == spec_req1(EXTENSION_ID, 0, F::spec_id() as usize),
{
    CallRequest::req1(EXTENSION_ID, 0, F::id() as usize)
}

/// Decode the returned register pair of a feature probe: a successful value
/// word of one means the feature is available, anything else that it is not.
pub fn probe_feature_result(status: isize, value: usize) -> (r: Result<bool, SbiError>)
    ensures
        status == 0 ==> r == Ok::<bool, SbiError>(value == 1),
        status != 0 ==> r == Err::<bool, SbiError>(spec_classify(status)),
{
    match decode_result(status, value) {
        Ok(v) => Ok(v == 1),
        Err(e) => Err(e),
    }
}

/// Flags of the shared-memory registration call; none are defined yet.
pub struct Flags(pub(crate) usize);

impl Flags {
    /// The raw flag bits.
    pub closed spec fn spec_bits(self) -> usize {
        self.0
    }

    /// The raw flag bits.
    pub fn raw_bits(&self) -> (r: usize)
        ensures
            r == self.spec_bits(),
    {
        self.0
    }

    /// No flags
    pub fn none() -> (r: Self)
        ensures
            r.spec_bits() == 0,
    {
        Self(0)
    }
}

/// The register image registering the shared memory area for the calling
/// hart, its physical address split into a low and a high word.
pub fn set_shared_memory_request(
    lo: PhysicalAddress<SharedMemoryLayout>,
    hi: PhysicalAddress<SharedMemoryLayout>,
    flags: Flags,
) -> (req: CallRequest)
    ensures
        req == spec_req3(EXTENSION_ID, 1, lo.spec_addr(), hi.spec_addr(), flags.spec_bits()),
{
    CallRequest::req3(EXTENSION_ID, 1, lo.raw(), hi.raw(), flags.raw_bits())
}

/// The register image asking the firmware to synchronize the named control
/// register — or all of them, for [`UpdateCsrAddress::all`] — with the
/// values in the shared memory area.
pub fn synchronize_csr_request(address: UpdateCsrAddress) -> (req: CallRequest)
    ensures
        req == spec_req1(EXTENSION_ID, 2, address.spec_raw() as usize),
{
    CallRequest::req1(EXTENSION_ID, 2, address.raw() as usize)
}

} // verus!
