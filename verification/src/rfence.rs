//! Remote fence extension: instruction, address-translation and hypervisor
//! fences on a selected set of harts.
//!
//! Every call here names its target harts by a [`HartMask`], encoded on the
//! wire as the mask word followed by the base word.

use vstd::prelude::*;

use crate::hart_mask::HartMask;
use crate::transport::{spec_req2, spec_req4, spec_req5, CallRequest};

verus! {

/// The RFENCE extension ID
pub const EXTENSION_ID: usize = 0x52464E43;

/// The register image instructing the selected harts to execute a `FENCE.I`
/// instruction.
pub fn remote_fence_i_request(hart_mask: HartMask) -> (req: CallRequest)
    ensures
        req == spec_req2(EXTENSION_ID, 0, hart_mask.spec_mask(), hart_mask.spec_base()),
{
    CallRequest::req2(EXTENSION_ID, 0, hart_mask.raw_mask(), hart_mask.raw_base())
}

/// The register image instructing the selected harts to execute a
/// `SFENCE.VMA` over the `size` bytes of virtual memory starting at
/// `start_addr`.
pub fn remote_sfence_vma_request(hart_mask: HartMask, start_addr: usize, size: usize) -> (req: CallRequest)
    ensures
        req == spec_req4(
            EXTENSION_ID,
            1,
            hart_mask.spec_mask(),
            hart_mask.spec_base(),
            start_addr,
            size,
        ),
{
    CallRequest::req4(EXTENSION_ID, 1, hart_mask.raw_mask(), hart_mask.raw_base(), start_addr, size)
}

/// The register image instructing the selected harts to execute a
/// `SFENCE.VMA` over the given region, covering only the given address space
/// ID.
pub fn remote_sfence_vma_asid_request(
    hart_mask: HartMask,
    start_addr: usize,
    size: usize,
    asid: usize,
) -> (req: CallRequest)
    ensures
        req == spec_req5(
            EXTENSION_ID,
            2,
            hart_mask.spec_mask(),
            hart_mask.spec_base(),
            start_addr,
            size,
            asid,
        ),
{
    CallRequest::req5(EXTENSION_ID, 2, hart_mask.raw_mask(), hart_mask.raw_base(), start_addr, size, asid)
}

/// The register image instructing the selected harts to execute a
/// `HFENCE.GVMA` over the given region, covering only the given virtual
/// machine ID. Only valid on harts with the hypervisor extension.
pub fn remote_hfence_gvma_vmid_request(
    hart_mask: HartMask,
    start_addr: usize,
    size: usize,
    vmid: usize,
) -> (req: CallRequest)
    ensures
        req == spec_req5(
            EXTENSION_ID,
            3,
            hart_mask.spec_mask(),
            hart_mask.spec_base(),
            start_addr,
            size,
            vmid,
        ),
{
    CallRequest::req5(EXTENSION_ID, 3, hart_mask.raw_mask(), hart_mask.raw_base(), start_addr, size, vmid)
}

/// The register image instructing the selected harts to execute a
/// `HFENCE.GVMA` over the given region. Only valid on harts with the
/// hypervisor extension.
pub fn remote_hfence_gvma_request(hart_mask: HartMask, start_addr: usize, size: usize) -> (req: CallRequest)
    ensures
        req == spec_req4(
            EXTENSION_ID,
            4,
            hart_mask.spec_mask(),
            hart_mask.spec_base(),
            start_addr,
            size,
        ),
{
    CallRequest::req4(EXTENSION_ID, 4, hart_mask.raw_mask(), hart_mask.raw_base(), start_addr, size)
}

/// The register image instructing the selected harts to execute a
/// `HFENCE.VVMA` over the given region for the calling hart's current
/// virtual machine ID, covering only the given address space ID. Only valid
/// on harts with the hypervisor extension.
pub fn remote_hfence_vvma_asid_request(
    hart_mask: HartMask,
    start_addr: usize,
    size: usize,
    asid: usize,
) -> (req: CallRequest)
    ensures
        req == spec_req5(
            EXTENSION_ID,
            5,
            hart_mask.spec_mask(),
            hart_mask.spec_base(),
            start_addr,
            size,
            asid,
        ),
{
    CallRequest::req5(EXTENSION_ID, 5, hart_mask.raw_mask(), hart_mask.raw_base(), start_addr, size, asid)
}

/// The register image instructing the selected harts to execute a
/// `HFENCE.VVMA` over the given region for the calling hart's current
/// virtual machine ID. Only valid on harts with the hypervisor extension.
pub fn remote_hfence_vvma_request(hart_mask: HartMask, start_addr: usize, size: usize) -> (req: CallRequest)
    ensures
        req == spec_req4(
            EXTENSION_ID,
            6,
            hart_mask.spec_mask(),
            hart_mask.spec_base(),
            start_addr,
            size,
        ),
{
    CallRequest::req4(EXTENSION_ID, 6, hart_mask.raw_mask(), hart_mask.raw_base(), start_addr, size)
}

} // verus!
