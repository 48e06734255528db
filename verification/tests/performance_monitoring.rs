use sbi::pmu::{
    configure_matching_counters_request, configure_matching_counters_result, counter_info_request,
    counter_info_result, num_counters_request, read_firmware_counter_request,
    start_counters_request, stop_counters_request, CounterConfigurationFlags, CounterIndex,
    CounterIndexMask, CounterInfo, CounterStartFlags, CounterStopFlags, EventIndex, FirmwareEvent,
    FirmwareEventCode, HardwareCacheEvent, HardwareCacheEventCode, HardwareCacheEventCodeId,
    HardwareCacheEventCodeOperationId, HardwareCacheEventCodeResultId, HardwareGeneralEvent,
    HardwareGeneralEventCode, HardwareRawEvent, HardwareRawEventCode,
};
use sbi::pmu::EventCode;
use sbi::SbiError;

#[test]
fn counter_requests_encode_ids_and_masks() {
    let req = num_counters_request();
    assert_eq!((req.extension_id, req.function_id, req.arg_count), (0x504D55, 0, 0));

    let req = counter_info_request(CounterIndex::new(4));
    assert_eq!((req.function_id, req.arg_count, req.arg0), (1, 1, 4));

    let req = read_firmware_counter_request(CounterIndex::new(2));
    assert_eq!((req.function_id, req.arg_count, req.arg0), (5, 1, 2));

    let mask = CounterIndexMask::from(CounterIndex::new(3));
    let req = stop_counters_request(mask, CounterStopFlags::reset());
    assert_eq!((req.function_id, req.arg_count), (4, 3));
    assert_eq!((req.arg0, req.arg1, req.arg2), (3, 1, 1));
}

#[test]
fn counter_info_separates_hardware_from_firmware() {
    // hardware: positive value word; low 12 bits the register, 6 above the width
    let value = (47usize << 12) | 0xC03;
    assert_eq!(
        counter_info_result(0, value),
        Ok(CounterInfo::Hardware { csr_number: 0xC03, width: 47 })
    );
    // firmware: the top bit set makes the word non-positive as a signed word
    let firmware_word = 1usize << (usize::BITS - 1);
    assert_eq!(counter_info_result(0, firmware_word), Ok(CounterInfo::Firmware));
    assert_eq!(counter_info_result(0, 0), Ok(CounterInfo::Firmware));
    assert_eq!(counter_info_result(-3, 0), Err(SbiError::InvalidParameter));
}

#[test]
fn configure_matching_counters_encodes_and_decodes() {
    let mask = CounterIndexMask::new(CounterIndex::new(2)).with(CounterIndex::new(2));
    let flags = CounterConfigurationFlags::clear_value().or(CounterConfigurationFlags::auto_start());
    let event = EventIndex::new(HardwareGeneralEvent, HardwareGeneralEventCode::CacheMisses);
    let req = configure_matching_counters_request(mask, flags, event, 0);
    assert_eq!((req.extension_id, req.function_id), (0x504D55, 2));
    // on this host the native word is 64 bits wide: five arguments
    assert_eq!(req.arg_count, 5);
    assert_eq!((req.arg0, req.arg1), (2, 1));
    assert_eq!(req.arg2, 0b110);
    assert_eq!(req.arg3, 4);
    assert_eq!(req.arg4, 0);

    let picked = configure_matching_counters_result(0, 7).unwrap();
    assert_eq!(picked.raw(), 7);
    assert_eq!(
        configure_matching_counters_result(-2, 0),
        Err(SbiError::NotSupported)
    );
}

#[test]
fn start_counters_carries_the_initial_value() {
    let mask = CounterIndexMask::from(CounterIndex::new(0));
    let flags = CounterStartFlags::set_init_value();
    let req = start_counters_request(mask, flags, 0xABCD_EF01_2345_6789);
    assert_eq!((req.function_id, req.arg_count), (3, 4));
    assert_eq!((req.arg0, req.arg1, req.arg2), (0, 1, 1));
    assert_eq!(req.arg3 as u64, 0xABCD_EF01_2345_6789);
}

#[test]
fn configuration_flags_combine_by_or() {
    assert_eq!(CounterConfigurationFlags::none().raw_bits(), 0);
    assert_eq!(CounterConfigurationFlags::skip_match().raw_bits(), 1);
    assert_eq!(CounterConfigurationFlags::clear_value().raw_bits(), 2);
    assert_eq!(CounterConfigurationFlags::auto_start().raw_bits(), 4);
    assert_eq!(CounterConfigurationFlags::vu_mode_inhibit().raw_bits(), 8);
    assert_eq!(CounterConfigurationFlags::vs_mode_inhibit().raw_bits(), 16);
    assert_eq!(CounterConfigurationFlags::u_mode_inhibit().raw_bits(), 32);
    assert_eq!(CounterConfigurationFlags::s_mode_inhibit().raw_bits(), 64);
    let both = CounterConfigurationFlags::skip_match().or(CounterConfigurationFlags::auto_start());
    assert_eq!(both.raw_bits(), 5);
    assert_eq!(CounterConfigurationFlags::default().raw_bits(), 0);
    assert_eq!(CounterStartFlags::default().raw_bits(), 0);
    assert_eq!(CounterStopFlags::default().raw_bits(), 0);
    assert_eq!(CounterStartFlags::none().or(CounterStartFlags::set_init_value()).raw_bits(), 1);
}

#[test]
fn event_index_packs_type_and_code() {
    let general = EventIndex::new(HardwareGeneralEvent, HardwareGeneralEventCode::CpuCycles);
    assert_eq!(general.raw(), 1);
    let general = EventIndex::new(HardwareGeneralEvent, HardwareGeneralEventCode::ReferenceCpuCycles);
    assert_eq!(general.raw(), 10);

    let cache_code = HardwareCacheEventCode::new(
        HardwareCacheEventCodeId::LastLevel,
        HardwareCacheEventCodeOperationId::Write,
        HardwareCacheEventCodeResultId::Miss,
    );
    // (2 << 3) | (1 << 1) | 1
    assert_eq!(cache_code.to_code(), 0b10011);
    let cache = EventIndex::new(HardwareCacheEvent, cache_code);
    assert_eq!(cache.raw(), (1 << 16) | 0b10011);

    let raw = EventIndex::new(HardwareRawEvent, HardwareRawEventCode);
    assert_eq!(raw.raw(), 2 << 16);

    let firmware = EventIndex::new(FirmwareEvent, FirmwareEventCode::HfenceVvmaAsidReceived);
    assert_eq!(firmware.raw(), (0xF << 16) | 21);
}

#[test]
fn firmware_event_codes_are_contiguous() {
    let codes = [
        FirmwareEventCode::MisalignedLoad,
        FirmwareEventCode::MisalignedStore,
        FirmwareEventCode::AccessLoad,
        FirmwareEventCode::AccessStore,
        FirmwareEventCode::IllegalInstruction,
        FirmwareEventCode::SetTimer,
        FirmwareEventCode::IpiSent,
        FirmwareEventCode::IpiReceived,
        FirmwareEventCode::FenceISent,
        FirmwareEventCode::FenceIReceived,
        FirmwareEventCode::SfenceVmaSent,
        FirmwareEventCode::SfenceVmaReceived,
        FirmwareEventCode::SfenceVmaAsidSent,
        FirmwareEventCode::SfenceVmaAsidReceived,
        FirmwareEventCode::HfenceGvmaSent,
        FirmwareEventCode::HfenceGvmaReceived,
        FirmwareEventCode::HfenceGvmaVmidSent,
        FirmwareEventCode::HfenceGvmaVmidReceived,
        FirmwareEventCode::HfenceVvmaSent,
        FirmwareEventCode::HfenceVvmaReceived,
        FirmwareEventCode::HfenceVvmaAsidSent,
        FirmwareEventCode::HfenceVvmaAsidReceived,
    ];
    for (i, code) in codes.into_iter().enumerate() {
        assert_eq!(code.to_code(), i as u16);
    }
}

#[test]
fn general_event_codes_match_their_documented_numbers() {
    assert_eq!(HardwareGeneralEventCode::CpuCycles.to_code(), 1);
    assert_eq!(HardwareGeneralEventCode::Instructions.to_code(), 2);
    assert_eq!(HardwareGeneralEventCode::CacheReferences.to_code(), 3);
    assert_eq!(HardwareGeneralEventCode::CacheMisses.to_code(), 4);
    assert_eq!(HardwareGeneralEventCode::BranchInstructions.to_code(), 5);
    assert_eq!(HardwareGeneralEventCode::BranchMisses.to_code(), 6);
    assert_eq!(HardwareGeneralEventCode::BusCycles.to_code(), 7);
    assert_eq!(HardwareGeneralEventCode::StalledCyclesFrontend.to_code(), 8);
    assert_eq!(HardwareGeneralEventCode::StalledCyclesBackend.to_code(), 9);
    assert_eq!(HardwareGeneralEventCode::ReferenceCpuCycles.to_code(), 10);
}
