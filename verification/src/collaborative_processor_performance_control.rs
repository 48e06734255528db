//! Collaborative processor performance control extension: typed access to
//! performance-control registers whose logical width may exceed the native
//! machine word.
//!
//! Each register is a zero-size marker type naming its ID and its logical
//! value width (32 or 64 bits) at the type level; see [`registers`]. One
//! generic accessor then works for every register and both native word
//! widths: a read returns the low (or full) portion, and where the native
//! word is narrower than the register a second, distinct call returns the
//! high portion, combined by [`combine_register_halves`]. A write carries
//! the full value in one argument register on a wide native word and both
//! halves, low then high, in one call on a narrow one.

use vstd::prelude::*;

use crate::error::{spec_classify, SbiError};
use crate::transport::{decode_result, spec_req1, spec_req2, spec_req3, CallRequest};

pub mod registers;

verus! {

/// Collaborative Processor Performance Control extension ID
pub const EXTENSION_ID: usize = 0x43505043;

/// A register value width: how a logical register value is widened from, and
/// narrowed to, native machine words.
pub trait CastRegisterValue: Sized + Copy {
    /// The logical value one machine word denotes.
    spec fn spec_cast(from: usize) -> Self;

    /// The machine word this value narrows to, its high bits dropped where
    /// the native word is narrower than the value.
    spec fn spec_reverse_cast(self) -> usize;

    /// The high machine word of this value split at 32 bits; zero for a
    /// value that fits 32 bits.
    spec fn spec_hi(self) -> usize;

    /// The low machine word of this value split at 32 bits.
    spec fn spec_lo(self) -> usize;

    /// Widen or narrow a single machine word into the logical value.
    fn cast(from: usize) -> (r: Self)
        ensures
            r == Self::spec_cast(from);

    /// Narrow the logical value back into one machine word.
    fn reverse_cast(self) -> (r: usize)
        ensures
            r == self.spec_reverse_cast();

    /// Split the logical value into its high and low machine words at 32
    /// bits; the high word of a value that fits 32 bits is always zero.
    fn hi_lo(self) -> (r: (usize, usize))
        ensures
            r.0 == self.spec_hi(),
            r.1 == self.spec_lo();
}

impl CastRegisterValue for u64 {
    open spec fn spec_cast(from: usize) -> Self {
        from as u64
    }

    open spec fn spec_reverse_cast(self) -> usize {
        self as usize
    }

    open spec fn spec_hi(self) -> usize {
        (self >> 32) as usize
    }

    open spec fn spec_lo(self) -> usize {
        (self & 0xFFFF_FFFF) as usize
    }

    fn cast(from: usize) -> (r: Self) {
        from as u64
    }

    fn reverse_cast(self) -> (r: usize) {
        self as usize
    }

    fn hi_lo(self) -> (r: (usize, usize)) {
        ((self >> 32) as usize, (self & 0xFFFF_FFFF) as usize)
    }
}

impl CastRegisterValue for u32 {
    open spec fn spec_cast(from: usize) -> Self {
        from as u32
    }

    open spec fn spec_reverse_cast(self) -> usize {
        self as usize
    }

    open spec fn spec_hi(self) -> usize {
        0
    }

    open spec fn spec_lo(self) -> usize {
        self as usize
    }

    fn cast(from: usize) -> (r: Self) {
        from as u32
    }

    fn reverse_cast(self) -> (r: usize) {
        self as usize
    }

    fn hi_lo(self) -> (r: (usize, usize)) {
        (0, self as usize)
    }
}

/// Combine the two machine words of a 64-bit register value read on a
/// narrow native word: the high word shifted up by 32, joined with the low
/// word.
pub fn combine_register_halves(high: usize, low: usize) -> (r: u64)
    requires
        high <= 0xFFFF_FFFF,
        low <= 0xFFFF_FFFF,
    ensures
        r == ((high as u64) << 32) | (low as u64),
{
    ((high as u64) << 32) | (low as u64)
}

/// The split of a 64-bit value into machine words loses nothing: combining
/// the high and low words recovers exactly the value that was split, for
/// every value and on either native word width.
pub proof fn lemma_hi_lo_combine_round_trip(v: u64)
    ensures
        v.spec_hi() <= 0xFFFF_FFFF,
        v.spec_lo() <= 0xFFFF_FFFF,
        ((v.spec_hi() as u64) << 32) | (v.spec_lo() as u64) == v,
{
    assert((v >> 32) <= 0xFFFF_FFFF && (v & 0xFFFF_FFFF) <= 0xFFFF_FFFF) by (bit_vector);
    assert(((((v >> 32) as usize) as u64) << 32) | ((((v & 0xFFFF_FFFF) as usize) as u64)) == v)
        by (bit_vector);
}

/// A performance-control register: its ID and the width of its value.
pub trait Register {
    /// Register value width
    type Width: CastRegisterValue;

    /// Register ID
    spec fn spec_id() -> u32;

    /// Register ID
    fn id() -> (r: u32)
        ensures
            r == Self::spec_id();
}

/// A register that can be read from
pub trait Readable: Register {

}

/// A register that can be written to
pub trait Writable: Register {

}

/// The register image probing whether the given performance-control register
/// is supported.
pub fn probe_register_request<R: Register>(_register: R) -> (req: CallRequest)
    ensures
        req == spec_req1(EXTENSION_ID, 0, R::spec_id() as usize),
{
    CallRequest::req1(EXTENSION_ID, 0, R::id() as usize)
}

/// Decode the returned register pair of a register probe: a successful zero
/// value word means the register is not implemented, anything else is the
/// implemented register's width in bits.
pub fn probe_register_result(status: isize, value: usize) -> (r: Result<Option<usize>, SbiError>)
    ensures
        status == 0 ==> r == Ok::<Option<usize>, SbiError>(
            if value == 0 {
                None
            } else {
                Some(value)
            },
        ),
        status != 0 ==> r == Err::<Option<usize>, SbiError>(spec_classify(status)),
{
    match decode_result(status, value) {
        Ok(0) => Ok(None),
        Ok(v) => Ok(Some(v)),
        Err(e) => Err(e),
    }
}

/// The register image reading the value of a performance-control register.
/// On a native word of 32 bits the returned value word carries only the low
/// 32 bits of the register, and for a wider register a second call built by
/// [`read_register_hi_request`] retrieves the rest; on a native word of 64
/// bits one call suffices.
pub fn read_register_request<R: Readable>(_register: R) -> (req: CallRequest)
    ensures
        req == spec_req1(EXTENSION_ID, 1, R::spec_id() as usize),
{
    CallRequest::req1(EXTENSION_ID, 1, R::id() as usize)
}

/// The register image reading the upper 32 bits of a performance-control
/// register's value. On a native word of 64 bits the returned value word is
/// always zero for valid register IDs.
pub fn read_register_hi_request<R: Readable>(_register: R) -> (req: CallRequest)
    ensures
        req == spec_req1(EXTENSION_ID, 2, R::spec_id() as usize),
{
    CallRequest::req1(EXTENSION_ID, 2, R::id() as usize)
}

/// Decode the returned register pair of a register read, for both the
/// low-returning and the high-returning call: a successful value word is
/// widened or narrowed into the register's logical value type.
pub fn read_register_result<R: Readable>(status: isize, value: usize) -> (r: Result<
    R::Width,
    SbiError,
>)
    ensures
        status == 0 ==> r == Ok::<R::Width, SbiError>(
            <R::Width as CastRegisterValue>::spec_cast(value),
        ),
        status != 0 ==> r == Err::<R::Width, SbiError>(spec_classify(status)),
{
    match decode_result(status, value) {
        Ok(v) => Ok(<R::Width as CastRegisterValue>::cast(v)),
        Err(e) => Err(e),
    }
}

/// The register image writing a value to a performance-control register. On
/// a native word of 64 bits the value rides in one argument register; on a
/// narrower word the value is split at 32 bits and both halves, low then
/// high, are carried in this single call — unlike a read, which retrieves
/// the high half by a separate call.
pub fn write_register_request<R: Readable>(_register: R, value: R::Width) -> (req: CallRequest)
    ensures
        usize::BITS >= 64 ==> req == spec_req2(
            EXTENSION_ID,
            3,
            R::spec_id() as usize,
            value.spec_reverse_cast(),
        ),
        usize::BITS < 64 ==> req == spec_req3(
            EXTENSION_ID,
            3,
            R::spec_id() as usize,
            value.spec_lo(),
            value.spec_hi(),
        ),
{
    if crate::transport::native_word_is_wide() {
        CallRequest::req2(EXTENSION_ID, 3, R::id() as usize, value.reverse_cast())
    } else {
        let (high, low) = value.hi_lo();
        CallRequest::req3(EXTENSION_ID, 3, R::id() as usize, low, high)
    }
}

} // verus!
