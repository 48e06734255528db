//! The transport layer: the register image of a call and the decoding of its
//! result.
//!
//! A call places up to six words in the argument registers, the extension ID
//! and function ID in their conventional registers, and traps. [`CallRequest`]
//! is that register image as a plain value; the `*_request` builders of the
//! extension modules each produce one with their documented, fixed arity.
//! The embedding program performs the trap for a request and hands the two
//! returned registers `(status, value)` to [`decode_result`], which yields
//! `Ok(value)` exactly when the status word is zero and otherwise the
//! classified error. The transport never retries and never swallows a
//! failure.

use vstd::prelude::*;

use crate::error::{spec_classify, SbiError};

verus! {

/// The register image of one firmware call: which extension and function to
/// invoke and the words for the argument registers. `arg_count` is the
/// call's arity; registers past it are left at zero and are not read by
/// firmware. The arity is fixed per documented function and every builder in
/// this crate hard-codes the right one, since the trap itself cannot check
/// it.
#[derive(Debug, Clone, Copy, PartialEq, Eq, Structural)]
pub struct CallRequest {
    /// The 32-bit extension ID, as a machine word
    pub extension_id: usize,
    /// The function ID within the extension
    pub function_id: usize,
    /// How many argument registers the call uses, at most six
    pub arg_count: usize,
    /// Argument register 0
    pub arg0: usize,
    /// Argument register 1
    pub arg1: usize,
    /// Argument register 2
    pub arg2: usize,
    /// Argument register 3
    pub arg3: usize,
    /// Argument register 4
    pub arg4: usize,
    /// Argument register 5
    pub arg5: usize,
}

/// A request with no arguments.
pub open spec fn spec_req0(eid: usize, fid: usize) -> CallRequest {
    CallRequest {
        extension_id: eid,
        function_id: fid,
        arg_count: 0,
        arg0: 0,
        arg1: 0,
        arg2: 0,
        arg3: 0,
        arg4: 0,
        arg5: 0,
    }
}

/// A request with one argument.
pub open spec fn spec_req1(eid: usize, fid: usize, a0: usize) -> CallRequest {
    CallRequest { arg_count: 1, arg0: a0, ..spec_req0(eid, fid) }
}

/// A request with two arguments.
pub open spec fn spec_req2(eid: usize, fid: usize, a0: usize, a1: usize) -> CallRequest {
    CallRequest { arg_count: 2, arg0: a0, arg1: a1, ..spec_req0(eid, fid) }
}

/// A request with three arguments.
pub open spec fn spec_req3(eid: usize, fid: usize, a0: usize, a1: usize, a2: usize) -> CallRequest {
    CallRequest { arg_count: 3, arg0: a0, arg1: a1, arg2: a2, ..spec_req0(eid, fid) }
}

/// A request with four arguments.
pub open spec fn spec_req4(
    eid: usize,
    fid: usize,
    a0: usize,
    a1: usize,
    a2: usize,
    a3: usize,
) -> CallRequest {
    CallRequest { arg_count: 4, arg0: a0, arg1: a1, arg2: a2, arg3: a3, ..spec_req0(eid, fid) }
}

/// A request with five arguments.
pub open spec fn spec_req5(
    eid: usize,
    fid: usize,
    a0: usize,
    a1: usize,
    a2: usize,
    a3: usize,
    a4: usize,
) -> CallRequest {
    CallRequest {
        arg_count: 5,
        arg0: a0,
        arg1: a1,
        arg2: a2,
        arg3: a3,
        arg4: a4,
        ..spec_req0(eid, fid)
    }
}

/// A request with six arguments.
pub open spec fn spec_req6(
    eid: usize,
    fid: usize,
    a0: usize,
    a1: usize,
    a2: usize,
    a3: usize,
    a4: usize,
    a5: usize,
) -> CallRequest {
    CallRequest {
        extension_id: eid,
        function_id: fid,
        arg_count: 6,
        arg0: a0,
        arg1: a1,
        arg2: a2,
        arg3: a3,
        arg4: a4,
        arg5: a5,
    }
}

impl CallRequest {
    /// Build a request with no arguments.
    pub fn req0(eid: usize, fid: usize) -> (r: CallRequest)
        ensures
            r == spec_req0(eid, fid),
    {
        CallRequest {
            extension_id: eid,
            function_id: fid,
            arg_count: 0,
            arg0: 0,
            arg1: 0,
            arg2: 0,
            arg3: 0,
            arg4: 0,
            arg5: 0,
        }
    }

    /// Build a request with one argument.
    pub fn req1(eid: usize, fid: usize, a0: usize) -> (r: CallRequest)
        ensures
            r == spec_req1(eid, fid, a0),
    {
        CallRequest { arg_count: 1, arg0: a0, ..CallRequest::req0(eid, fid) }
    }

    /// Build a request with two arguments.
    pub fn req2(eid: usize, fid: usize, a0: usize, a1: usize) -> (r: CallRequest)
        ensures
            r == spec_req2(eid, fid, a0, a1),
    {
        CallRequest { arg_count: 2, arg0: a0, arg1: a1, ..CallRequest::req0(eid, fid) }
    }

    /// Build a request with three arguments.
    pub fn req3(eid: usize, fid: usize, a0: usize, a1: usize, a2: usize) -> (r: CallRequest)
        ensures
            r == spec_req3(eid, fid, a0, a1, a2),
    {
        CallRequest { arg_count: 3, arg0: a0, arg1: a1, arg2: a2, ..CallRequest::req0(eid, fid) }
    }

    /// Build a request with four arguments.
    pub fn req4(eid: usize, fid: usize, a0: usize, a1: usize, a2: usize, a3: usize) -> (r: CallRequest)
        ensures
            r == spec_req4(eid, fid, a0, a1, a2, a3),
    {
        CallRequest {
            arg_count: 4,
            arg0: a0,
            arg1: a1,
            arg2: a2,
            arg3: a3,
            ..CallRequest::req0(eid, fid)
        }
    }

    /// Build a request with five arguments.
    pub fn req5(eid: usize, fid: usize, a0: usize, a1: usize, a2: usize, a3: usize, a4: usize) -> (r: CallRequest)
        ensures
            r == spec_req5(eid, fid, a0, a1, a2, a3, a4),
    {
        CallRequest {
            arg_count: 5,
            arg0: a0,
            arg1: a1,
            arg2: a2,
            arg3: a3,
            arg4: a4,
            ..CallRequest::req0(eid, fid)
        }
    }

    /// Build a request with six arguments.
    pub fn req6(
        eid: usize,
        fid: usize,
        a0: usize,
        a1: usize,
        a2: usize,
        a3: usize,
        a4: usize,
        a5: usize,
    ) -> (r: CallRequest)
        ensures
            r == spec_req6(eid, fid, a0, a1, a2, a3, a4, a5),
    {
        CallRequest {
            extension_id: eid,
            function_id: fid,
            arg_count: 6,
            arg0: a0,
            arg1: a1,
            arg2: a2,
            arg3: a3,
            arg4: a4,
            arg5: a5,
        }
    }
}

/// Decode the `(status, value)` register pair that a call returned. A zero
/// status yields `Ok` carrying the value word exactly; any other status
/// yields the classified error, so no failure is ever swallowed and no value
/// of a failed call is ever read.
pub fn decode_result(status: isize, value: usize) -> (r: Result<usize, SbiError>)
    ensures
        status == 0 ==> r == Ok::<usize, SbiError>(value),
        status != 0 ==> r == Err::<usize, SbiError>(spec_classify(status)),
{
    if status == 0 {
        Ok(value)
    } else {
        Err(SbiError::classify(status))
    }
}

/// Decode the returned register pair of a call whose success carries no
/// payload: the value word of a successful call is ignored.
pub fn decode_unit_result(status: isize, value: usize) -> (r: Result<(), SbiError>)
    ensures
        status == 0 ==> r == Ok::<(), SbiError>(()),
        status != 0 ==> r == Err::<(), SbiError>(spec_classify(status)),
{
    match decode_result(status, value) {
        Ok(_) => Ok(()),
        Err(e) => Err(e),
    }
}

/// Decode the returned register pair of a call that never returns on
/// success (a system reset, stopping the calling hart): only an error can be
/// decoded, so a zero status is excluded by contract. An embedding that
/// nevertheless observes a zero status has caught firmware violating the
/// call's documentation and must treat that as fatal rather than continue.
pub fn decode_never_result(status: isize, value: usize) -> (r: SbiError)
    requires
        status != 0,
    ensures
        r == spec_classify(status),
{
    let _ = value;
    SbiError::classify(status)
}

/// Whether the native machine word is at least 64 bits wide. Splitting a
/// 64-bit quantity across two argument registers is needed exactly when this
/// is false.
pub fn native_word_is_wide() -> (r: bool)
    ensures
        r <==> usize::BITS >= 64,
{
    proof {
        broadcast use vstd::layout::layout_of_primitives;

    }
    core::mem::size_of::<usize>() >= 8
}

} // verus!
