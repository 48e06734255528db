use sbi::nested_acceleration::csrs::{Hgatp, Hstatus, Vsatp, Vsstatus};
use sbi::nested_acceleration::{
    probe_feature_request, probe_feature_result, set_shared_memory_request,
    synchronize_csr_request, AutoswapCsr, CsrAddress, Flags, HExtensionCsr, NaclFeature,
    SharedMemoryLayout, SynchronizeCsr, SynchronizeHfence, SynchronizeSret, UpdateCsrAddress,
};
use sbi::{PhysicalAddress, SbiError};

#[test]
fn csr_address_accepts_only_the_documented_ranges() {
    for raw in [0x200u16, 0x2FF, 0x600, 0x67F, 0x6C0, 0x6FF, 0xA00, 0xABF, 0xE00, 0xEFF] {
        let a = CsrAddress::new(raw).unwrap();
        assert_eq!(a.raw(), raw);
    }
    for raw in [0x000u16, 0x1FF, 0x300, 0x5FF, 0x700, 0x9FF, 0xB00, 0xDFF, 0xF00, 0xFFFF] {
        assert!(CsrAddress::new(raw).is_none());
    }
}

#[test]
fn csr_markers_carry_their_addresses() {
    assert_eq!(Hstatus::address().raw(), 0x600);
    assert_eq!(Hgatp::address().raw(), 0x680);
    assert_eq!(Vsstatus::address().raw(), 0x200);
    assert_eq!(Vsatp::address().raw(), 0x280);
}

#[test]
fn update_address_converts_and_names_all() {
    let one = UpdateCsrAddress::from(Hstatus::address());
    assert_eq!(one.raw(), 0x600);
    assert_eq!(UpdateCsrAddress::all().raw(), 0xFFFF);
}

#[test]
fn feature_probes_encode_their_ids() {
    let req = probe_feature_request::<SynchronizeCsr>();
    assert_eq!((req.extension_id, req.function_id, req.arg_count), (0x4E41434C, 0, 1));
    assert_eq!(req.arg0, 0);
    assert_eq!(probe_feature_request::<SynchronizeHfence>().arg0, 1);
    assert_eq!(probe_feature_request::<SynchronizeSret>().arg0, 2);
    assert_eq!(probe_feature_request::<AutoswapCsr>().arg0, 3);
    assert_eq!(SynchronizeSret::id(), 2);

    assert_eq!(probe_feature_result(0, 1), Ok(true));
    assert_eq!(probe_feature_result(0, 0), Ok(false));
    assert_eq!(probe_feature_result(0, 2), Ok(false));
    assert_eq!(probe_feature_result(-2, 0), Err(SbiError::NotSupported));
}

#[test]
fn shared_memory_and_synchronize_requests_encode() {
    let lo: PhysicalAddress<SharedMemoryLayout> = PhysicalAddress::new(0x8200_0000);
    let hi: PhysicalAddress<SharedMemoryLayout> = PhysicalAddress::new(0);
    let req = set_shared_memory_request(lo, hi, Flags::none());
    assert_eq!((req.extension_id, req.function_id, req.arg_count), (0x4E41434C, 1, 3));
    assert_eq!((req.arg0, req.arg1, req.arg2), (0x8200_0000, 0, 0));

    let req = synchronize_csr_request(UpdateCsrAddress::from(Hstatus::address()));
    assert_eq!((req.function_id, req.arg_count, req.arg0), (2, 1, 0x600));

    let req = synchronize_csr_request(UpdateCsrAddress::all());
    assert_eq!(req.arg0, 0xFFFF);
}
