//! Base extension: the firmware facts every implementation must answer, of
//! which this crate encodes the specification version and extension probing.

use vstd::prelude::*;

use crate::error::{spec_classify, SbiError};
use crate::transport::{decode_result, spec_req0, spec_req1, CallRequest};

verus! {

/// Base extension ID
pub const EXTENSION_ID: usize = 0x10;

/// The version of the calling-convention specification an implementation
/// conforms to.
#[derive(Debug, Clone, Copy, PartialEq, Eq, Structural)]
pub struct SbiSpecVersion {
    /// The major version number, at most 127
    pub major: u32,
    /// The minor version number, at most 2^24 - 1
    pub minor: u32,
}

/// The register image requesting the specification version the firmware
/// implements.
pub fn spec_version_request() -> (req: CallRequest)
    ensures
        req == spec_req0(EXTENSION_ID, 0),
{
    CallRequest::req0(EXTENSION_ID, 0)
}

/// Decode the returned register pair of a specification-version request: the
/// minor version is the low 24 bits of the value word, the major version the
/// 7 bits above them, and the top bit is reserved as zero.
pub fn spec_version_result(status: isize, value: usize) -> (r: Result<SbiSpecVersion, SbiError>)
    ensures
        status == 0 ==> r == Ok::<SbiSpecVersion, SbiError>(
            SbiSpecVersion {
                major: ((value >> 24) & 0x7F) as u32,
                minor: (value & 0xFF_FFFF) as u32,
            },
        ),
        status != 0 ==> r == Err::<SbiSpecVersion, SbiError>(spec_classify(status)),
{
    match decode_result(status, value) {
        Ok(v) => Ok(
            SbiSpecVersion { major: ((v >> 24) & 0x7F) as u32, minor: (v & 0xFF_FFFF) as u32 },
        ),
        Err(e) => Err(e),
    }
}

/// The register image asking whether the firmware implements the extension
/// with the given ID.
pub fn probe_extension_request(extension_id: usize) -> (req: CallRequest)
    ensures
        req == spec_req1(EXTENSION_ID, 3, extension_id),
{
    CallRequest::req1(EXTENSION_ID, 3, extension_id)
}

/// Decode the returned register pair of an extension probe: a zero value
/// word means the extension is absent, anything else means it is available.
pub fn probe_extension_result(status: isize, value: usize) -> (r: Result<bool, SbiError>)
    ensures
        status == 0 ==> r == Ok::<bool, SbiError>(value != 0),
        status != 0 ==> r == Err::<bool, SbiError>(spec_classify(status)),
{
    match decode_result(status, value) {
        Ok(v) => Ok(v != 0),
        Err(e) => Err(e),
    }
}

} // verus!
