use sbi::cbbc::registers::{CounterWraparoundTime, DeliveredPerformanceCounter, HighestPerformance};
use sbi::cbbc::{
    combine_register_halves, read_register_hi_request, read_register_request, read_register_result,
    CastRegisterValue,
};
use sbi::SbiError;

#[test]
fn u64_splits_at_thirty_two_bits() {
    let v: u64 = 0xDEAD_BEEF_1234_5678;
    let (hi, lo) = v.hi_lo();
    assert_eq!(hi, 0xDEAD_BEEF);
    assert_eq!(lo, 0x1234_5678);
}

#[test]
fn u64_combine_round_trips_for_all_shapes() {
    for v in [0u64, 1, 0xFFFF_FFFF, 0x1_0000_0000, 0xDEAD_BEEF_1234_5678, u64::MAX] {
        let (hi, lo) = v.hi_lo();
        assert_eq!(combine_register_halves(hi, lo), v);
    }
}

#[test]
fn u32_high_half_is_always_zero() {
    for v in [0u32, 1, 0x8000_0000, u32::MAX] {
        let (hi, lo) = v.hi_lo();
        assert_eq!(hi, 0);
        assert_eq!(lo, v as usize);
        assert_eq!(combine_register_halves(hi, lo), v as u64);
    }
}

#[test]
fn casts_widen_and_narrow_words() {
    assert_eq!(<u64 as CastRegisterValue>::cast(0x1234), 0x1234u64);
    assert_eq!(<u32 as CastRegisterValue>::cast(0x1234), 0x1234u32);
    assert_eq!(0x1234u64.reverse_cast(), 0x1234usize);
    assert_eq!(0xFFFF_FFFFu32.reverse_cast(), 0xFFFF_FFFFusize);
}

// Reading a 64-bit performance counter on a 32-bit native word: the low and
// high portions come from two distinct calls, and combining them recovers
// the counter's accumulated value.
#[test]
fn wide_counter_read_on_narrow_word_takes_two_calls_and_combines() {
    // the counter's true accumulated value inside the firmware
    let counter: u64 = 0x0000_00AB_CDEF_0123;

    // the two calls are distinct requests: same register, different functions
    let low_req = read_register_request(DeliveredPerformanceCounter);
    let high_req = read_register_hi_request(DeliveredPerformanceCounter);
    assert_eq!(low_req.extension_id, 0x43505043);
    assert_eq!(low_req.function_id, 1);
    assert_eq!(high_req.function_id, 2);
    assert_eq!(low_req.arg0, 0xC);
    assert_eq!(high_req.arg0, 0xC);

    // a 32-bit firmware answers each call with one 32-bit portion
    let low_word = (counter & 0xFFFF_FFFF) as usize;
    let high_word = (counter >> 32) as usize;
    let low = read_register_result::<DeliveredPerformanceCounter>(0, low_word).unwrap();
    let high = read_register_result::<DeliveredPerformanceCounter>(0, high_word).unwrap();

    let (low_usize, high_usize) = (low.reverse_cast(), high.reverse_cast());
    assert_eq!(combine_register_halves(high_usize, low_usize), counter);
}

#[test]
fn register_reads_surface_their_errors() {
    assert_eq!(
        read_register_result::<CounterWraparoundTime>(-2, 0),
        Err(SbiError::NotSupported)
    );
    assert_eq!(read_register_result::<HighestPerformance>(-4, 0), Err(SbiError::Denied));
    assert_eq!(read_register_result::<HighestPerformance>(0, 7), Ok(7u32));
}
