use sbi::transport::{decode_never_result, decode_result, decode_unit_result};
use sbi::{CallRequest, SbiError};

#[test]
fn zero_status_yields_ok_with_the_value_word() {
    assert_eq!(decode_result(0, 0), Ok(0));
    assert_eq!(decode_result(0, 42), Ok(42));
    assert_eq!(decode_result(0, usize::MAX), Ok(usize::MAX));
}

#[test]
fn nonzero_status_yields_the_classified_error() {
    assert_eq!(decode_result(-1, 42), Err(SbiError::Failed));
    assert_eq!(decode_result(-2, 0), Err(SbiError::NotSupported));
    assert_eq!(decode_result(-3, 7), Err(SbiError::InvalidParameter));
    assert_eq!(decode_result(-4, 7), Err(SbiError::Denied));
    assert_eq!(decode_result(-5, 7), Err(SbiError::InvalidAddress));
    assert_eq!(decode_result(-6, 7), Err(SbiError::AlreadyAvailable));
    assert_eq!(decode_result(-7, 7), Err(SbiError::AlreadyStarted));
    assert_eq!(decode_result(-8, 7), Err(SbiError::AlreadyStopped));
    assert_eq!(decode_result(-9, 7), Err(SbiError::SharedMemoryUnavailable));
    assert_eq!(decode_result(-10, 7), Err(SbiError::Unrecognized(-10)));
    assert_eq!(decode_result(1, 7), Err(SbiError::Unrecognized(1)));
}

#[test]
fn unit_decode_drops_the_value_word() {
    assert_eq!(decode_unit_result(0, 42), Ok(()));
    assert_eq!(decode_unit_result(0, 0), Ok(()));
    assert_eq!(decode_unit_result(-4, 42), Err(SbiError::Denied));
}

#[test]
fn never_returning_calls_decode_only_errors() {
    assert_eq!(decode_never_result(-1, 0), SbiError::Failed);
    assert_eq!(decode_never_result(-2, 99), SbiError::NotSupported);
    assert_eq!(decode_never_result(-1000, 0), SbiError::Unrecognized(-1000));
}

#[test]
fn request_builders_fill_exactly_the_named_registers() {
    let r = CallRequest::req0(0x10, 3);
    assert_eq!(r.extension_id, 0x10);
    assert_eq!(r.function_id, 3);
    assert_eq!(r.arg_count, 0);
    assert_eq!((r.arg0, r.arg1, r.arg2, r.arg3, r.arg4, r.arg5), (0, 0, 0, 0, 0, 0));

    let r = CallRequest::req3(0x48534D, 0, 1, 2, 3);
    assert_eq!(r.arg_count, 3);
    assert_eq!((r.arg0, r.arg1, r.arg2, r.arg3), (1, 2, 3, 0));

    let r = CallRequest::req6(0x504D55, 2, 1, 2, 3, 4, 5, 6);
    assert_eq!(r.arg_count, 6);
    assert_eq!((r.arg0, r.arg1, r.arg2, r.arg3, r.arg4, r.arg5), (1, 2, 3, 4, 5, 6));
}
