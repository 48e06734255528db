use sbi::SbiError;

#[test]
fn classify_maps_each_documented_code_to_its_kind() {
    assert_eq!(SbiError::classify(-1), SbiError::Failed);
    assert_eq!(SbiError::classify(-2), SbiError::NotSupported);
    assert_eq!(SbiError::classify(-3), SbiError::InvalidParameter);
    assert_eq!(SbiError::classify(-4), SbiError::Denied);
    assert_eq!(SbiError::classify(-5), SbiError::InvalidAddress);
    assert_eq!(SbiError::classify(-6), SbiError::AlreadyAvailable);
    assert_eq!(SbiError::classify(-7), SbiError::AlreadyStarted);
    assert_eq!(SbiError::classify(-8), SbiError::AlreadyStopped);
    assert_eq!(SbiError::classify(-9), SbiError::SharedMemoryUnavailable);
}

#[test]
fn classify_no_two_documented_codes_share_a_kind() {
    let codes: [isize; 9] = [-1, -2, -3, -4, -5, -6, -7, -8, -9];
    for &a in codes.iter() {
        for &b in codes.iter() {
            if a != b {
                assert_ne!(SbiError::classify(a), SbiError::classify(b));
            }
        }
    }
}

#[test]
fn classify_keeps_unknown_codes_without_failing() {
    assert_eq!(SbiError::classify(-10), SbiError::Unrecognized(-10));
    assert_eq!(SbiError::classify(-1000), SbiError::Unrecognized(-1000));
    assert_eq!(SbiError::classify(isize::MIN), SbiError::Unrecognized(isize::MIN));
    let codes: [isize; 9] = [-1, -2, -3, -4, -5, -6, -7, -8, -9];
    for &a in codes.iter() {
        assert_ne!(SbiError::classify(-10), SbiError::classify(a));
        assert_ne!(SbiError::classify(-1000), SbiError::classify(a));
    }
}

#[test]
fn classify_keeps_positive_codes_as_unrecognized() {
    assert_eq!(SbiError::classify(1), SbiError::Unrecognized(1));
    assert_eq!(SbiError::classify(isize::MAX), SbiError::Unrecognized(isize::MAX));
}

#[test]
fn descriptions_name_the_error() {
    assert_eq!(SbiError::Failed.description(), "call to SBI failed");
    assert_eq!(SbiError::Denied.description(), "SBI implementation denied execution");
    assert_eq!(SbiError::Unrecognized(-77).description(), "unknown error");
}
