use sbi::legacy::{
    clear_ipi_request, console_getchar_request, console_getchar_result, console_putchar_request,
    remote_fence_i_request, remote_sfence_vma_asid_request, remote_sfence_vma_request,
    send_ipi_request, set_timer_request, shutdown_request, CLEAR_IPI_EID, CONSOLE_GETCHAR_EID,
    CONSOLE_PUTCHAR_EID, REMOTE_FENCE_I_EID, REMOTE_SFENCE_VMA_ASID_EID, REMOTE_SFENCE_VMA_EID,
    SEND_IPI_EID, SET_TIMER_EID, SHUTDOWN_EID,
};

#[test]
fn legacy_extension_ids_are_the_documented_ones() {
    assert_eq!(SET_TIMER_EID, 0x00);
    assert_eq!(CONSOLE_PUTCHAR_EID, 0x01);
    assert_eq!(CONSOLE_GETCHAR_EID, 0x02);
    assert_eq!(CLEAR_IPI_EID, 0x03);
    assert_eq!(SEND_IPI_EID, 0x04);
    assert_eq!(REMOTE_FENCE_I_EID, 0x05);
    assert_eq!(REMOTE_SFENCE_VMA_EID, 0x06);
    assert_eq!(REMOTE_SFENCE_VMA_ASID_EID, 0x07);
    assert_eq!(SHUTDOWN_EID, 0x08);
}

#[test]
fn legacy_timer_request_carries_the_absolute_time() {
    let req = set_timer_request(0xFFFF_FFFF_FFFF_FFFF);
    assert_eq!(req.extension_id, SET_TIMER_EID);
    // on this host the native word is 64 bits wide: one argument
    assert_eq!(req.arg_count, 1);
    assert_eq!(req.arg0 as u64, u64::MAX);
}

#[test]
fn legacy_console_requests_encode() {
    let req = console_putchar_request(b'A');
    assert_eq!((req.extension_id, req.arg_count, req.arg0), (CONSOLE_PUTCHAR_EID, 1, 65));

    let req = console_getchar_request();
    assert_eq!((req.extension_id, req.arg_count), (CONSOLE_GETCHAR_EID, 0));
}

#[test]
fn legacy_console_read_decodes_absence_and_bytes() {
    assert_eq!(console_getchar_result(-1), None);
    assert_eq!(console_getchar_result(0), Some(0));
    assert_eq!(console_getchar_result(65), Some(b'A'));
    assert_eq!(console_getchar_result(127), Some(127));
}

#[test]
fn legacy_fence_and_ipi_requests_encode() {
    let req = clear_ipi_request();
    assert_eq!((req.extension_id, req.arg_count), (CLEAR_IPI_EID, 0));

    let req = send_ipi_request(0x8300_0000);
    assert_eq!((req.extension_id, req.arg_count, req.arg0), (SEND_IPI_EID, 1, 0x8300_0000));

    let req = remote_fence_i_request(0x8300_0000);
    assert_eq!((req.extension_id, req.arg_count, req.arg0), (REMOTE_FENCE_I_EID, 1, 0x8300_0000));

    let req = remote_sfence_vma_request(0x8300_0000, 0x4000, 8192);
    assert_eq!(req.extension_id, REMOTE_SFENCE_VMA_EID);
    assert_eq!((req.arg_count, req.arg0, req.arg1, req.arg2), (3, 0x8300_0000, 0x4000, 8192));

    let req = remote_sfence_vma_asid_request(0x8300_0000, 0x4000, 8192, 11);
    assert_eq!(req.extension_id, REMOTE_SFENCE_VMA_ASID_EID);
    assert_eq!((req.arg_count, req.arg3), (4, 11));

    let req = shutdown_request();
    assert_eq!((req.extension_id, req.arg_count), (SHUTDOWN_EID, 0));
}
