//! Debug console extension.
//!
//! Bulk reads and writes name their buffer by physical address, split into a
//! low and a high word for platforms whose physical address space is wider
//! than a machine word; the byte count comes first on the wire. The value
//! word of a successful call is the number of bytes actually transferred,
//! which may be less than asked, so the embedding decodes it with
//! [`crate::transport::decode_result`]. Dereferencing the buffer is
//! firmware's doing; this layer only encodes the address words.

use vstd::prelude::*;

use crate::physical_address::PhysicalAddress;
use crate::transport::{spec_req1, spec_req3, CallRequest};

verus! {

/// The Debug Console extension ID
pub const EXTENSION_ID: usize = 0x4442434E;

/// The register image of a write of `num_bytes` bytes read from the physical
/// address given by `base_addr_lo` and `base_addr_hi`. The call is
/// non-blocking and may perform a partial write or none; a successful result
/// carries the number of bytes written.
pub fn write_request(
    base_addr_lo: PhysicalAddress<u8>,
    base_addr_hi: PhysicalAddress<u8>,
    num_bytes: usize,
) -> (req: CallRequest)
    ensures
        req == spec_req3(
            EXTENSION_ID,
            0,
            num_bytes,
            base_addr_lo.spec_addr(),
            base_addr_hi.spec_addr(),
        ),
{
    CallRequest::req3(EXTENSION_ID, 0, num_bytes, base_addr_lo.raw(), base_addr_hi.raw())
}

/// The register image of a read of up to `num_bytes` bytes into the physical
/// address given by `base_addr_lo` and `base_addr_hi`. The call is
/// non-blocking and writes nothing when no data is waiting; a successful
/// result carries the number of bytes read.
pub fn read_request(
    base_addr_lo: PhysicalAddress<u8>,
    base_addr_hi: PhysicalAddress<u8>,
    num_bytes: usize,
) -> (req: CallRequest)
    ensures
        req == spec_req3(
            EXTENSION_ID,
            1,
            num_bytes,
            base_addr_lo.spec_addr(),
            base_addr_hi.spec_addr(),
        ),
{
    CallRequest::req3(EXTENSION_ID, 1, num_bytes, base_addr_lo.raw(), base_addr_hi.raw())
}

/// The register image of a blocking write of a single byte to the debug
/// console.
pub fn write_byte_request(byte: u8) -> (req: CallRequest)
    ensures
        req == spec_req1(EXTENSION_ID, 2, byte as usize),
{
    CallRequest::req1(EXTENSION_ID, 2, byte as usize)
}

} // verus!
