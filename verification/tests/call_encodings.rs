use sbi::base::{probe_extension_result, spec_version_request, spec_version_result, SbiSpecVersion};
use sbi::cbbc::registers::{DesiredPerformance, HighestPerformance};
use sbi::cbbc::{probe_register_request, probe_register_result, write_register_request};
use sbi::hsm::{
    hart_start_request, hart_state_request, hart_state_result, hart_stop_request,
    hart_suspend_request, HartState, SuspendType,
};
use sbi::system_reset::{system_reset_request, ResetReason, ResetType};
use sbi::system_suspend::{system_suspend_request, SleepType};
use sbi::transport::decode_never_result;
use sbi::{CallRequest, HartMask, PhysicalAddress, RestrictedRange, SbiError};

// Requesting the specification version returns the structured pair a
// reference firmware exposes: major 2, minor 0 is encoded as 2 in the seven
// bits above bit 24.
#[test]
fn spec_version_round_trip_with_reference_fixture() {
    let req = spec_version_request();
    assert_eq!(req.extension_id, 0x10);
    assert_eq!(req.function_id, 0);
    assert_eq!(req.arg_count, 0);

    let fixture_value: usize = 2 << 24;
    assert_eq!(
        spec_version_result(0, fixture_value),
        Ok(SbiSpecVersion { major: 2, minor: 0 })
    );
    assert_eq!(
        spec_version_result(0, (1 << 24) | 0x345),
        Ok(SbiSpecVersion { major: 1, minor: 0x345 })
    );
    assert_eq!(spec_version_result(-1, 0), Err(SbiError::Failed));
}

#[test]
fn probe_extension_decodes_presence() {
    let req = sbi::base::probe_extension_request(0x735049);
    assert_eq!((req.extension_id, req.function_id, req.arg_count), (0x10, 3, 1));
    assert_eq!(req.arg0, 0x735049);
    assert_eq!(probe_extension_result(0, 1), Ok(true));
    assert_eq!(probe_extension_result(0, 0), Ok(false));
    assert_eq!(probe_extension_result(-2, 0), Err(SbiError::NotSupported));
}

// A selector bitmask built as from(5), sent through an inter-processor
// signal, puts on the wire exactly the words that name hart 5 and no other:
// mask word 1 anchored at base word 5.
#[test]
fn ipi_from_five_targets_exactly_hart_five() {
    let mask = HartMask::from(5);
    let req = sbi::ipi::send_ipi_request(mask);
    assert_eq!(req.extension_id, 0x735049);
    assert_eq!(req.function_id, 0);
    assert_eq!(req.arg_count, 2);
    assert_eq!(req.arg0, 1, "the mask word selects only the bit at the base");
    assert_eq!(req.arg1, 5, "the base word anchors the mask at hart 5");
    // decoding the wire words back: bit i of the mask names hart base + i
    for hart in 0..128usize {
        let bit = hart.checked_sub(req.arg1).map(|i| i < usize::BITS as usize && (req.arg0 >> i) & 1 == 1);
        assert_eq!(bit == Some(true), hart == 5);
        assert_eq!(mask.selects(hart), hart == 5);
    }
}

#[test]
fn rfence_calls_carry_mask_then_base_then_region() {
    let mask = HartMask::new(2).with(3);
    let req = sbi::rfence::remote_fence_i_request(mask);
    assert_eq!((req.extension_id, req.function_id, req.arg_count), (0x52464E43, 0, 2));
    assert_eq!((req.arg0, req.arg1), (0b10, 2));

    let req = sbi::rfence::remote_sfence_vma_request(mask, 0x8000_0000, 8192);
    assert_eq!((req.function_id, req.arg_count), (1, 4));
    assert_eq!((req.arg0, req.arg1, req.arg2, req.arg3), (0b10, 2, 0x8000_0000, 8192));

    let req = sbi::rfence::remote_sfence_vma_asid_request(mask, 0x8000_0000, 4096, 7);
    assert_eq!((req.function_id, req.arg_count), (2, 5));
    assert_eq!(req.arg4, 7);

    let req = sbi::rfence::remote_hfence_gvma_vmid_request(mask, 0, 4096, 3);
    assert_eq!((req.function_id, req.arg_count), (3, 5));
    let req = sbi::rfence::remote_hfence_gvma_request(mask, 0, 4096);
    assert_eq!((req.function_id, req.arg_count), (4, 4));
    let req = sbi::rfence::remote_hfence_vvma_asid_request(mask, 0, 4096, 3);
    assert_eq!((req.function_id, req.arg_count), (5, 5));
    let req = sbi::rfence::remote_hfence_vvma_request(mask, 0, 4096);
    assert_eq!((req.function_id, req.arg_count), (6, 4));
}

#[test]
fn timer_request_carries_the_absolute_time() {
    let req = sbi::timer::set_timer_request(0x1234_5678_9ABC_DEF0);
    assert_eq!(req.extension_id, 0x54494D45);
    assert_eq!(req.function_id, 0);
    // on this host the native word is 64 bits wide: one argument
    assert_eq!(req.arg_count, 1);
    assert_eq!(req.arg0 as u64, 0x1234_5678_9ABC_DEF0);
}

#[test]
fn hart_lifecycle_requests_encode_their_arguments() {
    let req = hart_start_request(3, PhysicalAddress::new(0x8020_0000), 0xC0FFEE);
    assert_eq!((req.extension_id, req.function_id, req.arg_count), (0x48534D, 0, 3));
    assert_eq!((req.arg0, req.arg1, req.arg2), (3, 0x8020_0000, 0xC0FFEE));

    let req = hart_stop_request();
    assert_eq!((req.function_id, req.arg_count), (1, 0));

    let req = hart_state_request(9);
    assert_eq!((req.function_id, req.arg_count, req.arg0), (2, 1, 9));
}

#[test]
fn hart_state_decodes_every_documented_encoding() {
    assert_eq!(hart_state_result(0, 0), Ok(HartState::Started));
    assert_eq!(hart_state_result(0, 1), Ok(HartState::Stopped));
    assert_eq!(hart_state_result(0, 2), Ok(HartState::StartRequestPending));
    assert_eq!(hart_state_result(0, 3), Ok(HartState::StopRequestPending));
    assert_eq!(hart_state_result(0, 4), Ok(HartState::Suspended));
    assert_eq!(hart_state_result(0, 5), Ok(HartState::SuspendPending));
    assert_eq!(hart_state_result(0, 6), Ok(HartState::ResumePending));
    assert_eq!(hart_state_result(-3, 0), Err(SbiError::InvalidParameter));
}

#[test]
fn suspend_types_encode_value_address_and_opaque() {
    assert_eq!(SuspendType::DefaultRetentive.to_values(), (0, 0, 0));

    let platform = SuspendType::PlatformSpecificRetentive(RestrictedRange::new(0x1000_0005));
    assert_eq!(platform.to_values(), (0x1000_0005, 0, 0));

    let non_retentive = SuspendType::DefaultNonRetentive {
        resume_address: PhysicalAddress::new(0x8000_1000),
        opaque: 17,
    };
    assert_eq!(non_retentive.to_values(), (0x8000_0000, 0x8000_1000, 17));

    let platform_non_retentive = SuspendType::PlatformSpecificNonRetentive {
        value: RestrictedRange::new(0x9000_0001),
        resume_address: PhysicalAddress::new(0x8000_2000),
        opaque: 3,
    };
    assert_eq!(platform_non_retentive.to_values(), (0x9000_0001, 0x8000_2000, 3));

    let req = hart_suspend_request(non_retentive);
    assert_eq!((req.extension_id, req.function_id, req.arg_count), (0x48534D, 3, 3));
    assert_eq!((req.arg0, req.arg1, req.arg2), (0x8000_0000, 0x8000_1000, 17));
}

// An operation documented as never returning yields no decodable success:
// only the error path exists, and a firmware that returns success anyway is
// a contract violation the embedding treats as fatal.
#[test]
fn system_reset_decodes_only_failures() {
    let req = system_reset_request(ResetType::ColdReboot, ResetReason::SystemFailure);
    assert_eq!((req.extension_id, req.function_id, req.arg_count), (0x53525354, 0, 2));
    assert_eq!((req.arg0, req.arg1), (1, 1));

    assert_eq!(decode_never_result(-2, 0), SbiError::NotSupported);
    assert_eq!(decode_never_result(-1, 0), SbiError::Failed);
}

#[test]
fn system_suspend_request_encodes_sleep_type_and_resume() {
    let req = system_suspend_request(SleepType::SuspendToRam, PhysicalAddress::new(0x8000_4000), 5);
    assert_eq!((req.extension_id, req.function_id, req.arg_count), (0x53555350, 0, 3));
    assert_eq!((req.arg0, req.arg1, req.arg2), (0, 0x8000_4000, 5));
}

#[test]
fn debug_console_requests_order_count_before_address() {
    let req = sbi::debug_console::write_request(
        PhysicalAddress::new(0x8100_0000),
        PhysicalAddress::new(0),
        128,
    );
    assert_eq!((req.extension_id, req.function_id, req.arg_count), (0x4442434E, 0, 3));
    assert_eq!((req.arg0, req.arg1, req.arg2), (128, 0x8100_0000, 0));

    let req = sbi::debug_console::read_request(
        PhysicalAddress::new(0x8100_0000),
        PhysicalAddress::new(0),
        64,
    );
    assert_eq!((req.function_id, req.arg0), (1, 64));

    let req = sbi::debug_console::write_byte_request(b'!');
    assert_eq!((req.function_id, req.arg_count, req.arg0), (2, 1, b'!' as usize));
}

#[test]
fn cppc_probe_and_write_encode_register_ids() {
    let req = probe_register_request(HighestPerformance);
    assert_eq!((req.extension_id, req.function_id, req.arg_count), (0x43505043, 0, 1));
    assert_eq!(req.arg0, 0);

    assert_eq!(probe_register_result(0, 0), Ok(None));
    assert_eq!(probe_register_result(0, 32), Ok(Some(32)));
    assert_eq!(probe_register_result(-3, 0), Err(SbiError::InvalidParameter));

    // on this host the native word is 64 bits wide: the value rides whole
    let req: CallRequest = write_register_request(DesiredPerformance, 7u32);
    assert_eq!((req.function_id, req.arg_count), (3, 2));
    assert_eq!((req.arg0, req.arg1), (5, 7));
}
