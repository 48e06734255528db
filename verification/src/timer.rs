//! Timer extension.

use vstd::prelude::*;

use crate::transport::{spec_req1, spec_req2, CallRequest};

verus! {

/// Timer extension ID
pub const EXTENSION_ID: usize = 0x54494D45;

/// The register image that schedules an interrupt for the absolute `time`.
/// On a native word of 64 bits the time is one argument; on a narrower word
/// it is split into its low and high halves, low first.
///
/// `time` is an absolute tick count, not an offset from the call; passing
/// `u64::MAX` clears the pending timer interrupt without scheduling another
/// event.
pub fn set_timer_request(time: u64) -> (req: CallRequest)
    ensures
        usize::BITS >= 64 ==> req == spec_req1(EXTENSION_ID, 0, time as usize),
        usize::BITS < 64 ==> req == spec_req2(
            EXTENSION_ID,
            0,
            time as usize,
            (time >> 32) as usize,
        ),
{
    if crate::transport::native_word_is_wide() {
        CallRequest::req1(EXTENSION_ID, 0, time as usize)
    } else {
        CallRequest::req2(EXTENSION_ID, 0, time as usize, (time >> 32) as usize)
    }
}

} // verus!
