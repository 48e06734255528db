//! Legacy calls: the original, pre-extension calling convention.
//!
//! A legacy call has no function ID register and clobbers only the first
//! return register; each operation is its own extension ID. The register
//! images here use at most four argument words. The bulk operations take the
//! physical address of a hart bit-vector as a plain word; producing that
//! address from a live slice is the embedding program's business.

use vstd::prelude::*;

verus! {

/// The register image of one legacy firmware call: the operation's own
/// extension ID and up to four argument words. Registers past `arg_count`
/// are left at zero and are not read by firmware.
#[derive(Debug, Clone, Copy, PartialEq, Eq, Structural)]
pub struct LegacyCallRequest {
    /// The extension ID naming the legacy operation
    pub extension_id: usize,
    /// How many argument registers the call uses, at most four
    pub arg_count: usize,
    /// Argument register 0
    pub arg0: usize,
    /// Argument register 1
    pub arg1: usize,
    /// Argument register 2
    pub arg2: usize,
    /// Argument register 3
    pub arg3: usize,
}

/// A legacy request with the given arity and argument words.
pub open spec fn spec_legacy_req(
    eid: usize,
    arg_count: usize,
    a0: usize,
    a1: usize,
    a2: usize,
    a3: usize,
) -> LegacyCallRequest {
    LegacyCallRequest { extension_id: eid, arg_count, arg0: a0, arg1: a1, arg2: a2, arg3: a3 }
}

/// `sbi_set_timer` extension ID
pub const SET_TIMER_EID: usize = 0x00;

/// The register image of the legacy call that schedules an interrupt for the
/// absolute time `stime`. On a native word of 64 bits the time is one
/// argument; on a narrower word it is split into its low and high halves,
/// low first. Passing `u64::MAX` clears the pending timer interrupt without
/// scheduling another event.
pub fn set_timer_request(stime: u64) -> (req: LegacyCallRequest)
    ensures
        usize::BITS >= 64 ==> req == spec_legacy_req(SET_TIMER_EID, 1, stime as usize, 0, 0, 0),
        usize::BITS < 64 ==> req == spec_legacy_req(
            SET_TIMER_EID,
            2,
            stime as usize,
            (stime >> 32) as usize,
            0,
            0,
        ),
{
    if crate::transport::native_word_is_wide() {
        LegacyCallRequest {
            extension_id: SET_TIMER_EID,
            arg_count: 1,
            arg0: stime as usize,
            arg1: 0,
            arg2: 0,
            arg3: 0,
        }
    } else {
        LegacyCallRequest {
            extension_id: SET_TIMER_EID,
            arg_count: 2,
            arg0: stime as usize,
            arg1: (stime >> 32) as usize,
            arg2: 0,
            arg3: 0,
        }
    }
}

/// `sbi_console_putchar` extension ID
pub const CONSOLE_PUTCHAR_EID: usize = 0x01;

/// The register image of the legacy call that writes one character to the
/// debug console, blocking while output is pending. Without a console the
/// call does nothing.
pub fn console_putchar_request(c: u8) -> (req: LegacyCallRequest)
    ensures
        req == spec_legacy_req(CONSOLE_PUTCHAR_EID, 1, c as usize, 0, 0, 0),
{
    LegacyCallRequest {
        extension_id: CONSOLE_PUTCHAR_EID,
        arg_count: 1,
        arg0: c as usize,
        arg1: 0,
        arg2: 0,
        arg3: 0,
    }
}

/// `sbi_console_getchar` extension ID
pub const CONSOLE_GETCHAR_EID: usize = 0x02;

/// The register image of the legacy call that reads one character from the
/// debug console.
pub fn console_getchar_request() -> (req: LegacyCallRequest)
    ensures
        req == spec_legacy_req(CONSOLE_GETCHAR_EID, 0, 0, 0, 0, 0),
{
    LegacyCallRequest {
        extension_id: CONSOLE_GETCHAR_EID,
        arg_count: 0,
        arg0: 0,
        arg1: 0,
        arg2: 0,
        arg3: 0,
    }
}

/// Decode what a console read returned in its single return register: `-1`
/// means no character was waiting or no console exists, anything else is the
/// character's byte.
pub fn console_getchar_result(code: i8) -> (r: Option<u8>)
    ensures
        code == -1 ==> r is None,
        code != -1 ==> r == Some(code as u8),
{
    match code {
        -1 => None,
        _ => Some(code as u8),
    }
}

/// `sbi_clear_ipi` extension ID
pub const CLEAR_IPI_EID: usize = 0x03;

/// The register image of the legacy call that clears any pending
/// inter-processor interrupts for the calling hart. Supervisor mode can
/// clear the interrupt-pending bit directly, so this call is obsolete.
pub fn clear_ipi_request() -> (req: LegacyCallRequest)
    ensures
        req == spec_legacy_req(CLEAR_IPI_EID, 0, 0, 0, 0, 0),
{
    LegacyCallRequest {
        extension_id: CLEAR_IPI_EID,
        arg_count: 0,
        arg0: 0,
        arg1: 0,
        arg2: 0,
        arg3: 0,
    }
}

/// `sbi_send_ipi` extension ID
pub const SEND_IPI_EID: usize = 0x04;

/// The register image of the legacy call that sends an inter-processor
/// interrupt to the harts set in the bit-vector at physical address
/// `hart_mask_addr`. The bit-vector holds one bit per hart, rounded up to
/// whole words.
pub fn send_ipi_request(hart_mask_addr: usize) -> (req: LegacyCallRequest)
    ensures
        req == spec_legacy_req(SEND_IPI_EID, 1, hart_mask_addr, 0, 0, 0),
{
    LegacyCallRequest {
        extension_id: SEND_IPI_EID,
        arg_count: 1,
        arg0: hart_mask_addr,
        arg1: 0,
        arg2: 0,
        arg3: 0,
    }
}

/// `sbi_remote_fence_i` extension ID
pub const REMOTE_FENCE_I_EID: usize = 0x05;

/// The register image of the legacy call that executes a `FENCE.I`
/// instruction on the harts set in the bit-vector at physical address
/// `hart_mask_addr`.
pub fn remote_fence_i_request(hart_mask_addr: usize) -> (req: LegacyCallRequest)
    ensures
        req == spec_legacy_req(REMOTE_FENCE_I_EID, 1, hart_mask_addr, 0, 0, 0),
{
    LegacyCallRequest {
        extension_id: REMOTE_FENCE_I_EID,
        arg_count: 1,
        arg0: hart_mask_addr,
        arg1: 0,
        arg2: 0,
        arg3: 0,
    }
}

/// `sbi_remote_sfence_vma` extension ID
pub const REMOTE_SFENCE_VMA_EID: usize = 0x06;

/// The register image of the legacy call that executes a `SFENCE.VMA` over
/// the `size` bytes of virtual memory starting at `start` on the harts set
/// in the bit-vector at physical address `hart_mask_addr`. With `start` and
/// `size` both zero, or `size` of `usize::MAX`, a full fence is executed
/// instead.
pub fn remote_sfence_vma_request(hart_mask_addr: usize, start: usize, size: usize) -> (
    req: LegacyCallRequest)
    ensures
        req == spec_legacy_req(REMOTE_SFENCE_VMA_EID, 3, hart_mask_addr, start, size, 0),
{
    LegacyCallRequest {
        extension_id: REMOTE_SFENCE_VMA_EID,
        arg_count: 3,
        arg0: hart_mask_addr,
        arg1: start,
        arg2: size,
        arg3: 0,
    }
}

/// `sbi_remote_sfence_vma_asid` extension ID
pub const REMOTE_SFENCE_VMA_ASID_EID: usize = 0x07;

/// The register image of the legacy call that executes a `SFENCE.VMA` over
/// the given region on the given harts, covering only the given address
/// space ID.
pub fn remote_sfence_vma_asid_request(
    hart_mask_addr: usize,
    start: usize,
    size: usize,
    asid: usize,
) -> (req: LegacyCallRequest)
    ensures
        req == spec_legacy_req(REMOTE_SFENCE_VMA_ASID_EID, 4, hart_mask_addr, start, size, asid),
{
    LegacyCallRequest {
        extension_id: REMOTE_SFENCE_VMA_ASID_EID,
        arg_count: 4,
        arg0: hart_mask_addr,
        arg1: start,
        arg2: size,
        arg3: asid,
    }
}

/// `sbi_shutdown` extension ID
pub const SHUTDOWN_EID: usize = 0x08;

/// The register image of the legacy call that puts all harts into a shutdown
/// state. The call does not return.
pub fn shutdown_request() -> (req: LegacyCallRequest)
    ensures
        req == spec_legacy_req(SHUTDOWN_EID, 0, 0, 0, 0, 0),
{
    LegacyCallRequest {
        extension_id: SHUTDOWN_EID,
        arg_count: 0,
        arg0: 0,
        arg1: 0,
        arg2: 0,
        arg3: 0,
    }
}

} // verus!
