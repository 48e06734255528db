//! Inter-processor interrupt extension.

use vstd::prelude::*;

use crate::hart_mask::HartMask;
use crate::transport::{spec_req2, CallRequest};

verus! {

/// The IPI extension ID
pub const EXTENSION_ID: usize = 0x735049;

/// The register image that sends an inter-processor interrupt to the harts
/// selected by `hart_mask`: the mask word first, the base second. The
/// interrupt is received on each selected hart as a supervisor software
/// interrupt.
pub fn send_ipi_request(hart_mask: HartMask) -> (req: CallRequest)
    ensures
        req == spec_req2(EXTENSION_ID, 0, hart_mask.spec_mask(), hart_mask.spec_base()),
{
    CallRequest::req2(EXTENSION_ID, 0, hart_mask.raw_mask(), hart_mask.raw_base())
}

} // verus!
