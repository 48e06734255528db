//! Performance monitoring unit extension: configuring, starting, stopping
//! and reading hardware and firmware performance counters.
//!
//! Counters are named by a logical [`CounterIndex`]; calls that act on
//! several counters at once select them with a [`CounterIndexMask`], encoded
//! on the wire as the base word followed by the mask word. Events to monitor
//! are named by an [`EventIndex`], which packs an event type and a
//! type-specific event code into one word.

use vstd::prelude::*;

use crate::error::{spec_classify, SbiError};
use crate::transport::{
    decode_result,
    spec_req0,
    spec_req1,
    spec_req3,
    spec_req4,
    spec_req5,
    spec_req6,
    CallRequest,
};

verus! {

/// Performance Monitoring Unit extension ID
pub const EXTENSION_ID: usize = 0x504D55;

/// The register image asking how many performance counters, hardware and
/// firmware together, the platform provides.
pub fn num_counters_request() -> (req: CallRequest)
    ensures
        req == spec_req0(EXTENSION_ID, 0),
{
    CallRequest::req0(EXTENSION_ID, 0)
}

/// The register image asking for the information associated with the given
/// performance counter.
pub fn counter_info_request(counter_idx: CounterIndex) -> (req: CallRequest)
    ensures
        req == spec_req1(EXTENSION_ID, 1, counter_idx.spec_index()),
{
    CallRequest::req1(EXTENSION_ID, 1, counter_idx.raw())
}

/// Decode the returned register pair of a counter information query. A
/// positive value word (its top bit clear, as a signed word) describes a
/// hardware counter: the low twelve bits are the backing control-register
/// number and the six bits above them are one less than its width in bits. A
/// value word with the top bit set describes a firmware counter.
pub fn counter_info_result(status: isize, value: usize) -> (r: Result<CounterInfo, SbiError>)
    ensures
        status == 0 && value as isize > 0 ==> r == Ok::<CounterInfo, SbiError>(
            CounterInfo::Hardware { csr_number: value & 0xFFF, width: (value >> 12) & 0x3F },
        ),
        status == 0 && value as isize <= 0 ==> r == Ok::<CounterInfo, SbiError>(
            CounterInfo::Firmware,
        ),
        status != 0 ==> r == Err::<CounterInfo, SbiError>(spec_classify(status)),
{
    match decode_result(status, value) {
        Ok(v) => Ok(
            if v as isize > 0 {
                CounterInfo::Hardware { csr_number: v & 0xFFF, width: (v >> 12) & 0x3F }
            } else {
                CounterInfo::Firmware
            },
        ),
        Err(e) => Err(e),
    }
}

/// The register image that configures a set of matching performance
/// counters: the counters to pick from, how to configure them, and the event
/// they are to monitor. The 64-bit event data rides in one argument register
/// on a wide native word and is split into low and high halves on a narrow
/// one.
pub fn configure_matching_counters_request(
    counter_mask: CounterIndexMask,
    config_flags: CounterConfigurationFlags,
    event_idx: EventIndex,
    event_data: u64,
) -> (req: CallRequest)
    ensures
        usize::BITS >= 64 ==> req == spec_req5(
            EXTENSION_ID,
            2,
            counter_mask.spec_base(),
            counter_mask.spec_mask(),
            config_flags.spec_bits(),
            event_idx.spec_raw(),
            event_data as usize,
        ),
        usize::BITS < 64 ==> req == spec_req6(
            EXTENSION_ID,
            2,
            counter_mask.spec_base(),
            counter_mask.spec_mask(),
            config_flags.spec_bits(),
            event_idx.spec_raw(),
            event_data as usize,
            (event_data >> 32) as usize,
        ),
{
    if crate::transport::native_word_is_wide() {
        CallRequest::req5(
            EXTENSION_ID,
            2,
            counter_mask.raw_base(),
            counter_mask.raw_mask(),
            config_flags.raw_bits(),
            event_idx.raw(),
            event_data as usize,
        )
    } else {
        CallRequest::req6(
            EXTENSION_ID,
            2,
            counter_mask.raw_base(),
            counter_mask.raw_mask(),
            config_flags.raw_bits(),
            event_idx.raw(),
            event_data as usize,
            (event_data >> 32) as usize,
        )
    }
}

/// Decode the returned register pair of a configure-matching-counters call:
/// a successful value word is the index of the counter that was picked.
pub fn configure_matching_counters_result(status: isize, value: usize) -> (r: Result<
    CounterIndex,
    SbiError,
>)
    ensures
        status == 0 ==> (r matches Ok(ci) && ci.spec_index() == value),
        status != 0 ==> r == Err::<CounterIndex, SbiError>(spec_classify(status)),
{
    match decode_result(status, value) {
        Ok(v) => Ok(CounterIndex(v)),
        Err(e) => Err(e),
    }
}

/// The register image that starts the selected performance counters. The
/// 64-bit initial value rides in one argument register on a wide native word
/// and is split into low and high halves on a narrow one.
pub fn start_counters_request(
    counter_mask: CounterIndexMask,
    start_flags: CounterStartFlags,
    initial_value: u64,
) -> (req: CallRequest)
    ensures
        usize::BITS >= 64 ==> req == spec_req4(
            EXTENSION_ID,
            3,
            counter_mask.spec_base(),
            counter_mask.spec_mask(),
            start_flags.spec_bits(),
            initial_value as usize,
        ),
        usize::BITS < 64 ==> req == spec_req5(
            EXTENSION_ID,
            3,
            counter_mask.spec_base(),
            counter_mask.spec_mask(),
            start_flags.spec_bits(),
            initial_value as usize,
            (initial_value >> 32) as usize,
        ),
{
    if crate::transport::native_word_is_wide() {
        CallRequest::req4(
            EXTENSION_ID,
            3,
            counter_mask.raw_base(),
            counter_mask.raw_mask(),
            start_flags.raw_bits(),
            initial_value as usize,
        )
    } else {
        CallRequest::req5(
            EXTENSION_ID,
            3,
            counter_mask.raw_base(),
            counter_mask.raw_mask(),
            start_flags.raw_bits(),
            initial_value as usize,
            (initial_value >> 32) as usize,
        )
    }
}

/// The register image that stops the selected performance counters.
pub fn stop_counters_request(counter_mask: CounterIndexMask, stop_flags: CounterStopFlags) -> (
    req: CallRequest)
    ensures
        req == spec_req3(
            EXTENSION_ID,
            4,
            counter_mask.spec_base(),
            counter_mask.spec_mask(),
            stop_flags.spec_bits(),
        ),
{
    CallRequest::req3(
        EXTENSION_ID,
        4,
        counter_mask.raw_base(),
        counter_mask.raw_mask(),
        stop_flags.raw_bits(),
    )
}

/// The register image that reads the current value of the given firmware
/// counter; a successful value word is the counter's value.
pub fn read_firmware_counter_request(counter_idx: CounterIndex) -> (req: CallRequest)
    ensures
        req == spec_req1(EXTENSION_ID, 5, counter_idx.spec_index()),
{
    CallRequest::req1(EXTENSION_ID, 5, counter_idx.raw())
}

/// Counter configuration flags
#[derive(Debug, Clone, Copy)]
pub struct CounterConfigurationFlags(pub(crate) usize);

impl CounterConfigurationFlags {
    /// The raw flag bits.
    pub closed spec fn spec_bits(self) -> usize {
        self.0
    }

    /// The raw flag bits.
    pub fn raw_bits(self) -> (r: usize)
        ensures
            r == self.spec_bits(),
    {
        self.0
    }

    /// No flags
    pub fn none() -> (r: Self)
        ensures
            r.spec_bits() == 0,
    {
        Self(0)
    }

    /// Skip the counter matching
    pub fn skip_match() -> (r: Self)
        ensures
            r.spec_bits() == 0x01,
    {
        Self(0x01)
    }

    /// Clear (or zero) the counter value
    pub fn clear_value() -> (r: Self)
        ensures
            r.spec_bits() == 0x02,
    {
        Self(0x02)
    }

    /// Start the counter after configuring it
    pub fn auto_start() -> (r: Self)
        ensures
            r.spec_bits() == 0x04,
    {
        Self(0x04)
    }

    /// Hint to the implementation to inhibit event counting in
    /// virtualized user mode
    pub fn vu_mode_inhibit() -> (r: Self)
        ensures
            r.spec_bits() == 0x08,
    {
        Self(0x08)
    }

    /// Hint to the implementation to inhibit event counting in
    /// virtualized supervisor mode
    pub fn vs_mode_inhibit() -> (r: Self)
        ensures
            r.spec_bits() == 0x10,
    {
        Self(0x10)
    }

    /// Hint to the implementation to inhibit event counting in user mode
    pub fn u_mode_inhibit() -> (r: Self)
        ensures
            r.spec_bits() == 0x20,
    {
        Self(0x20)
    }

    /// Hint to the implementation to inhibit event counting in supervisor
    /// mode
    pub fn s_mode_inhibit() -> (r: Self)
        ensures
            r.spec_bits() == 0x40,
    {
        Self(0x40)
    }

    /// Combine two sets of flags.
    pub fn or(self, rhs: Self) -> (r: Self)
        ensures
            r.spec_bits() == self.spec_bits() | rhs.spec_bits(),
    {
        Self(self.0 | rhs.0)
    }
}

impl Default for CounterConfigurationFlags {
    /// No flags
    fn default() -> (r: Self)
        ensures
            r.spec_bits() == 0,
    {
        Self(0)
    }
}

/// Counter start flags
pub struct CounterStartFlags(pub(crate) usize);

impl CounterStartFlags {
    /// The raw flag bits.
    pub closed spec fn spec_bits(self) -> usize {
        self.0
    }

    /// The raw flag bits.
    pub fn raw_bits(&self) -> (r: usize)
        ensures
            r == self.spec_bits(),
    {
        self.0
    }

    /// No flags
    pub fn none() -> (r: Self)
        ensures
            r.spec_bits() == 0,
    {
        Self(0)
    }

    /// Set the initial counter value
    pub fn set_init_value() -> (r: Self)
        ensures
            r.spec_bits() == 0x01,
    {
        Self(0x01)
    }

    /// Combine two sets of flags.
    pub fn or(self, rhs: Self) -> (r: Self)
        ensures
            r.spec_bits() == self.spec_bits() | rhs.spec_bits(),
    {
        Self(self.0 | rhs.0)
    }
}

impl Default for CounterStartFlags {
    /// No flags
    fn default() -> (r: Self)
        ensures
            r.spec_bits() == 0,
    {
        Self(0)
    }
}

/// Counter stop flags
pub struct CounterStopFlags(pub(crate) usize);

impl CounterStopFlags {
    /// The raw flag bits.
    pub closed spec fn spec_bits(self) -> usize {
        self.0
    }

    /// The raw flag bits.
    pub fn raw_bits(&self) -> (r: usize)
        ensures
            r == self.spec_bits(),
    {
        self.0
    }

    /// No flags
    pub fn none() -> (r: Self)
        ensures
            r.spec_bits() == 0,
    {
        Self(0)
    }

    /// Reset the counter-to-event mapping
    pub fn reset() -> (r: Self)
        ensures
            r.spec_bits() == 0x01,
    {
        Self(0x01)
    }

    /// Combine two sets of flags.
    pub fn or(self, rhs: Self) -> (r: Self)
        ensures
            r.spec_bits() == self.spec_bits() | rhs.spec_bits(),
    {
        Self(self.0 | rhs.0)
    }
}

impl Default for CounterStopFlags {
    /// No flags
    fn default() -> (r: Self)
        ensures
            r.spec_bits() == 0,
    {
        Self(0)
    }
}

/// A bitmask of counter indices to be acted upon: the set of indices
/// `base + i` for every bit `i` set in the mask word. As with a hart mask,
/// one mask word can only span `usize::BITS` contiguous indices from its
/// base, so selecting an index outside that range is a silent no-op.
#[derive(Debug, Clone, Copy, PartialEq, Eq, Structural)]
pub struct CounterIndexMask {
    pub(crate) base: usize,
    pub(crate) mask: usize,
}

impl CounterIndexMask {
    /// The base counter index: bit `i` of the mask selects index `base + i`.
    pub closed spec fn spec_base(self) -> usize {
        self.base
    }

    /// The raw mask word.
    pub closed spec fn spec_mask(self) -> usize {
        self.mask
    }

    /// Whether `idx` can be expressed by a mask anchored at this base.
    pub open spec fn spec_in_range(self, idx: usize) -> bool {
        self.spec_base() <= idx < self.spec_base() + usize::BITS
    }

    /// Whether this mask selects `idx`.
    pub open spec fn spec_selects(self, idx: usize) -> bool {
        self.spec_in_range(idx) && (self.spec_mask() >> ((idx - self.spec_base()) as usize)) & 1
            == 1
    }

    /// The mask that [`Self::with`] returns: the bit for the index set when
    /// the base can express it, the mask unchanged otherwise.
    pub closed spec fn spec_with(self, idx: usize) -> CounterIndexMask {
        if self.spec_in_range(idx) {
            CounterIndexMask {
                base: self.base,
                mask: self.mask | (1usize << ((idx - self.base) as usize)),
            }
        } else {
            self
        }
    }

    /// The base counter index word, as it goes on the wire.
    pub fn raw_base(&self) -> (r: usize)
        ensures
            r == self.spec_base(),
    {
        self.base
    }

    /// The raw mask word, as it goes on the wire.
    pub fn raw_mask(&self) -> (r: usize)
        ensures
            r == self.spec_mask(),
    {
        self.mask
    }

    /// Creates a new [`CounterIndexMask`] with a base of zero and no counter
    /// indices selected.
    pub fn empty() -> (r: Self)
        ensures
            r.spec_base() == 0,
            r.spec_mask() == 0,
            forall|idx: usize| !r.spec_selects(idx),
    {
        Self::new(CounterIndex::new(0))
    }

    /// Create a new [`CounterIndexMask`] with the given base and no counter
    /// indices selected.
    pub fn new(base: CounterIndex) -> (r: Self)
        ensures
            r.spec_base() == base.spec_index(),
            r.spec_mask() == 0,
            forall|idx: usize| !r.spec_selects(idx),
    {
        let r = Self { base: base.0, mask: 0 };
        proof {
            let b = base.0;
            assert forall|idx: usize| !r.spec_selects(idx) by {
                let sh = (idx - b) as usize;
                assert((0usize >> sh) & 1 == 0) by (bit_vector);
            }
        }
        r
    }

    /// Create a new [`CounterIndexMask`] from the given [`CounterIndex`],
    /// making it the base and selecting it.
    pub fn from(counter_idx: CounterIndex) -> (r: Self)
        ensures
            r.spec_base() == counter_idx.spec_index(),
            r.spec_mask() == 1,
            forall|idx: usize| r.spec_selects(idx) <==> idx == counter_idx.spec_index(),
    {
        let r = Self { base: counter_idx.0, mask: 1 };
        proof {
            let b = counter_idx.0;
            assert forall|idx: usize| r.spec_selects(idx) <==> idx == b by {
                if idx == b {
                    assert((1usize >> 0) & 1 == 1) by (bit_vector);
                } else if r.spec_in_range(idx) {
                    let sh = (idx - b) as usize;
                    assert(sh >= 1 ==> (1usize >> sh) & 1 == 0) by (bit_vector);
                }
            }
        }
        r
    }

    /// Select the given counter index. If `counter_idx` is outside the range
    /// this mask's base can express, the mask is returned unchanged: such an
    /// index has no bit in the encoding.
    #[must_use]
    pub fn with(self, counter_idx: CounterIndex) -> (r: Self)
        ensures
            r == self.spec_with(counter_idx.spec_index()),
            r.spec_base() == self.spec_base(),
            self.spec_in_range(counter_idx.spec_index()) ==> r.spec_mask() == self.spec_mask() | (
            1usize << ((counter_idx.spec_index() - self.spec_base()) as usize)),
            !self.spec_in_range(counter_idx.spec_index()) ==> r.spec_mask() == self.spec_mask(),
            forall|idx: usize|
                r.spec_selects(idx) <==> self.spec_selects(idx) || (idx == counter_idx.spec_index()
                    && self.spec_in_range(counter_idx.spec_index())),
    {
        let r = if counter_idx.0 >= self.base && counter_idx.0 - self.base < (
        usize::BITS as usize) {
            Self { base: self.base, mask: self.mask | (1usize << (counter_idx.0 - self.base)) }
        } else {
            self
        };
        proof {
            if self.spec_in_range(counter_idx.0) {
                let k = (counter_idx.0 - self.base) as usize;
                assert forall|idx: usize|
                    r.spec_selects(idx) <==> self.spec_selects(idx) || idx == counter_idx.0 by {
                    if r.spec_in_range(idx) {
                        let j = (idx - self.base) as usize;
                        let m = self.mask;
                        assert(j < usize::BITS && k < usize::BITS ==> (((m | (1usize << k)) >> j)
                            & 1 == 1 <==> ((m >> j) & 1 == 1 || j == k))) by (bit_vector);
                    }
                }
            }
        }
        r
    }

    /// Whether this mask selects the given counter index.
    pub fn selects(&self, idx: usize) -> (r: bool)
        ensures
            r == self.spec_selects(idx),
    {
        idx >= self.base && idx - self.base < (usize::BITS as usize) && (self.mask >> (idx
            - self.base)) & 1 == 1
    }
}

/// Selecting a counter index is idempotent: selecting it a second time
/// yields the very same mask as selecting it once.
pub proof fn lemma_counter_with_is_idempotent(m: CounterIndexMask, idx: usize)
    ensures
        m.spec_with(idx).spec_with(idx) == m.spec_with(idx),
{
    if m.spec_in_range(idx) {
        let k = (idx - m.spec_base()) as usize;
        let w = m.spec_mask();
        assert((w | (1usize << k)) | (1usize << k) == w | (1usize << k)) by (bit_vector);
    }
}

/// Selecting an index below the base, or at or past `base + usize::BITS`,
/// changes nothing: in particular a fresh mask stays all zero.
pub proof fn lemma_counter_with_out_of_range_is_noop(m: CounterIndexMask, idx: usize)
    requires
        !m.spec_in_range(idx),
    ensures
        m.spec_with(idx) == m,
{
}

/// A logical index assigned to a specific performance counter
#[derive(Debug, Clone, Copy, PartialEq, Eq, Structural)]
pub struct CounterIndex(pub(crate) usize);

impl CounterIndex {
    /// The raw index.
    pub closed spec fn spec_index(self) -> usize {
        self.0
    }

    /// Create a new [`CounterIndex`]
    pub fn new(idx: usize) -> (r: Self)
        ensures
            r.spec_index() == idx,
    {
        Self(idx)
    }

    /// The raw index.
    pub fn raw(self) -> (r: usize)
        ensures
            r == self.spec_index(),
    {
        self.0
    }
}

/// Information about a specific performance counter
#[derive(Debug, Clone, Copy, PartialEq, Eq, Structural)]
pub enum CounterInfo {
    /// The counter is a hardware performance counter
    Hardware {
        /// The number of the control register backing the counter
        csr_number: usize,
        /// One less than the number of bits the counter uses
        width: usize,
    },
    /// The counter is a firmware provided performance counter
    Firmware,
}

/// The marker bound that keeps the event vocabulary closed to this module.
pub trait Sealed {

}

/// A type of performance monitoring event
pub trait EventType: Sealed {
    /// The codes this event type is refined by
    type EventCode: EventCode;

    /// The four-bit encoding of this event type.
    spec fn spec_type_value() -> usize;

    /// The four-bit encoding of this event type.
    fn type_value() -> (r: usize)
        ensures
            r == Self::spec_type_value();
}

/// A specific performance monitoring event within an [`EventType`]
pub trait EventCode: Sized + Sealed {
    /// The sixteen-bit encoding of this event.
    spec fn spec_code(self) -> u16;

    /// The sixteen-bit encoding of this event.
    fn to_code(self) -> (r: u16)
        ensures
            r == self.spec_code();
}

/// A hardware or firmware event, packed for the wire: the event type in the
/// four bits above bit sixteen, the event code in the low sixteen.
#[derive(Debug, Clone, Copy, PartialEq, Eq, Structural)]
pub struct EventIndex(pub(crate) usize);

impl EventIndex {
    /// The packed event word.
    pub closed spec fn spec_raw(self) -> usize {
        self.0
    }

    /// The packed event word.
    pub fn raw(self) -> (r: usize)
        ensures
            r == self.spec_raw(),
    {
        self.0
    }

    /// Create a new [`EventIndex`] from the given [`EventType`] and
    /// [`EventCode`].
    pub fn new<T: EventType>(_event_type: T, event_code: <T as EventType>::EventCode) -> (r: Self)
        ensures
            r.spec_raw() == ((T::spec_type_value() & 0xF) << 16) | (event_code.spec_code() as usize),
    {
        Self(((T::type_value() & 0xF) << 16) | (event_code.to_code() as usize))
    }
}

/// A general hardware performance monitoring event type
#[derive(Debug, Clone, Copy)]
pub struct HardwareGeneralEvent;

impl Sealed for HardwareGeneralEvent {

}

impl EventType for HardwareGeneralEvent {
    type EventCode = HardwareGeneralEventCode;

    open spec fn spec_type_value() -> usize {
        0
    }

    fn type_value() -> (r: usize) {
        0
    }
}

/// A general hardware performance monitoring event code
#[derive(Debug, Clone, Copy, PartialEq, Eq, Structural)]
pub enum HardwareGeneralEventCode {
    /// Cycles the processor spent executing
    CpuCycles,
    /// Instructions retired
    Instructions,
    /// Cache references
    CacheReferences,
    /// Cache misses
    CacheMisses,
    /// Branch instructions retired
    BranchInstructions,
    /// Mispredicted branches
    BranchMisses,
    /// Bus cycles
    BusCycles,
    /// Cycles the front end stalled
    StalledCyclesFrontend,
    /// Cycles the back end stalled
    StalledCyclesBackend,
    /// Cycles of the reference clock
    ReferenceCpuCycles,
}

impl Sealed for HardwareGeneralEventCode {

}

impl EventCode for HardwareGeneralEventCode {
    open spec fn spec_code(self) -> u16 {
        match self {
            HardwareGeneralEventCode::CpuCycles => 1,
            HardwareGeneralEventCode::Instructions => 2,
            HardwareGeneralEventCode::CacheReferences => 3,
            HardwareGeneralEventCode::CacheMisses => 4,
            HardwareGeneralEventCode::BranchInstructions => 5,
            HardwareGeneralEventCode::BranchMisses => 6,
            HardwareGeneralEventCode::BusCycles => 7,
            HardwareGeneralEventCode::StalledCyclesFrontend => 8,
            HardwareGeneralEventCode::StalledCyclesBackend => 9,
            HardwareGeneralEventCode::ReferenceCpuCycles => 10,
        }
    }

    fn to_code(self) -> (r: u16) {
        match self {
            HardwareGeneralEventCode::CpuCycles => 1,
            HardwareGeneralEventCode::Instructions => 2,
            HardwareGeneralEventCode::CacheReferences => 3,
            HardwareGeneralEventCode::CacheMisses => 4,
            HardwareGeneralEventCode::BranchInstructions => 5,
            HardwareGeneralEventCode::BranchMisses => 6,
            HardwareGeneralEventCode::BusCycles => 7,
            HardwareGeneralEventCode::StalledCyclesFrontend => 8,
            HardwareGeneralEventCode::StalledCyclesBackend => 9,
            HardwareGeneralEventCode::ReferenceCpuCycles => 10,
        }
    }
}

/// A hardware cache performance monitoring event type
#[derive(Debug, Clone, Copy)]
pub struct HardwareCacheEvent;

impl Sealed for HardwareCacheEvent {

}

impl EventType for HardwareCacheEvent {
    type EventCode = HardwareCacheEventCode;

    open spec fn spec_type_value() -> usize {
        1
    }

    fn type_value() -> (r: usize) {
        1
    }
}

/// A hardware cache performance monitoring event code: which cache unit,
/// which operation on it, and which outcome to count, packed as
/// `(unit << 3) | (operation << 1) | outcome`.
#[derive(Debug, Clone, Copy, PartialEq, Eq, Structural)]
pub struct HardwareCacheEventCode(pub(crate) u16);

impl HardwareCacheEventCode {
    /// The packed cache event code.
    pub closed spec fn spec_raw(self) -> u16 {
        self.0
    }

    /// Create a new [`HardwareCacheEventCode`] from the cache unit,
    /// operation, and result to monitor.
    pub fn new(
        id: HardwareCacheEventCodeId,
        op: HardwareCacheEventCodeOperationId,
        result: HardwareCacheEventCodeResultId,
    ) -> (r: Self)
        ensures
            r.spec_raw() == (id.spec_code() << 3) | (op.spec_code() << 1) | result.spec_code(),
    {
        Self((id.code() << 3) | (op.code() << 1) | result.code())
    }
}

impl Sealed for HardwareCacheEventCode {

}

impl EventCode for HardwareCacheEventCode {
    closed spec fn spec_code(self) -> u16 {
        self.0
    }

    fn to_code(self) -> (r: u16) {
        self.0
    }
}

/// The hardware cache unit to monitor
#[derive(Debug, Clone, Copy, PartialEq, Eq, Structural)]
pub enum HardwareCacheEventCodeId {
    /// First level data cache
    Level1Data,
    /// First level instruction cache
    Level1Instruction,
    /// Last level cache
    LastLevel,
    /// Data translation lookaside buffer
    DataTlb,
    /// Instruction translation lookaside buffer
    InstructionTlb,
    /// Branch predictor unit
    BranchPredictorUnit,
    /// Non-uniform memory access node cache
    NumaNode,
}

impl HardwareCacheEventCodeId {
    /// The three-bit encoding of this cache unit.
    pub open spec fn spec_code(self) -> u16 {
        match self {
            HardwareCacheEventCodeId::Level1Data => 0,
            HardwareCacheEventCodeId::Level1Instruction => 1,
            HardwareCacheEventCodeId::LastLevel => 2,
            HardwareCacheEventCodeId::DataTlb => 3,
            HardwareCacheEventCodeId::InstructionTlb => 4,
            HardwareCacheEventCodeId::BranchPredictorUnit => 5,
            HardwareCacheEventCodeId::NumaNode => 6,
        }
    }

    /// The three-bit encoding of this cache unit.
    pub fn code(self) -> (r: u16)
        ensures
            r == self.spec_code(),
    {
        match self {
            HardwareCacheEventCodeId::Level1Data => 0,
            HardwareCacheEventCodeId::Level1Instruction => 1,
            HardwareCacheEventCodeId::LastLevel => 2,
            HardwareCacheEventCodeId::DataTlb => 3,
            HardwareCacheEventCodeId::InstructionTlb => 4,
            HardwareCacheEventCodeId::BranchPredictorUnit => 5,
            HardwareCacheEventCodeId::NumaNode => 6,
        }
    }
}

/// The cache operation to monitor
#[derive(Debug, Clone, Copy, PartialEq, Eq, Structural)]
pub enum HardwareCacheEventCodeOperationId {
    /// A read of the cache
    Read,
    /// A write of the cache
    Write,
    /// A prefetch into the cache
    Prefetch,
}

impl HardwareCacheEventCodeOperationId {
    /// The two-bit encoding of this operation.
    pub open spec fn spec_code(self) -> u16 {
        match self {
            HardwareCacheEventCodeOperationId::Read => 0,
            HardwareCacheEventCodeOperationId::Write => 1,
            HardwareCacheEventCodeOperationId::Prefetch => 2,
        }
    }

    /// The two-bit encoding of this operation.
    pub fn code(self) -> (r: u16)
        ensures
            r == self.spec_code(),
    {
        match self {
            HardwareCacheEventCodeOperationId::Read => 0,
            HardwareCacheEventCodeOperationId::Write => 1,
            HardwareCacheEventCodeOperationId::Prefetch => 2,
        }
    }
}

/// The result of the caching operation
#[derive(Debug, Clone, Copy, PartialEq, Eq, Structural)]
pub enum HardwareCacheEventCodeResultId {
    /// Any access of the unit
    Access,
    /// A miss in the unit
    Miss,
}

impl HardwareCacheEventCodeResultId {
    /// The one-bit encoding of this outcome.
    pub open spec fn spec_code(self) -> u16 {
        match self {
            HardwareCacheEventCodeResultId::Access => 0,
            HardwareCacheEventCodeResultId::Miss => 1,
        }
    }

    /// The one-bit encoding of this outcome.
    pub fn code(self) -> (r: u16)
        ensures
            r == self.spec_code(),
    {
        match self {
            HardwareCacheEventCodeResultId::Access => 0,
            HardwareCacheEventCodeResultId::Miss => 1,
        }
    }
}

/// A raw hardware performance monitoring event
#[derive(Debug, Clone, Copy)]
pub struct HardwareRawEvent;

impl Sealed for HardwareRawEvent {

}

impl EventType for HardwareRawEvent {
    type EventCode = HardwareRawEventCode;

    open spec fn spec_type_value() -> usize {
        2
    }

    fn type_value() -> (r: usize) {
        2
    }
}

/// A raw hardware performance monitoring event code: the event itself is
/// carried in the separate 64-bit event data.
#[derive(Debug, Clone, Copy)]
pub struct HardwareRawEventCode;

impl Sealed for HardwareRawEventCode {

}

impl EventCode for HardwareRawEventCode {
    open spec fn spec_code(self) -> u16 {
        0
    }

    fn to_code(self) -> (r: u16) {
        0
    }
}

/// A firmware performance monitoring event type
#[derive(Debug, Clone, Copy)]
pub struct FirmwareEvent;

impl Sealed for FirmwareEvent {

}

impl EventType for FirmwareEvent {
    type EventCode = FirmwareEventCode;

    open spec fn spec_type_value() -> usize {
        0xF
    }

    fn type_value() -> (r: usize) {
        0xF
    }
}

/// Firmware performance monitoring event metrics
#[derive(Debug, Clone, Copy, PartialEq, Eq, Structural)]
pub enum FirmwareEventCode {
    /// Misaligned loads handled
    MisalignedLoad,
    /// Misaligned stores handled
    MisalignedStore,
    /// Load access faults handled
    AccessLoad,
    /// Store access faults handled
    AccessStore,
    /// Illegal instructions handled
    IllegalInstruction,
    /// Timer programming calls served
    SetTimer,
    /// Inter-processor interrupts sent
    IpiSent,
    /// Inter-processor interrupts received
    IpiReceived,
    /// Instruction fence requests sent
    FenceISent,
    /// Instruction fence requests received
    FenceIReceived,
    /// Address-translation fence requests sent
    SfenceVmaSent,
    /// Address-translation fence requests received
    SfenceVmaReceived,
    /// Address-space-qualified fence requests sent
    SfenceVmaAsidSent,
    /// Address-space-qualified fence requests received
    SfenceVmaAsidReceived,
    /// Guest address-translation fence requests sent
    HfenceGvmaSent,
    /// Guest address-translation fence requests received
    HfenceGvmaReceived,
    /// Machine-qualified guest fence requests sent
    HfenceGvmaVmidSent,
    /// Machine-qualified guest fence requests received
    HfenceGvmaVmidReceived,
    /// Virtual-supervisor fence requests sent
    HfenceVvmaSent,
    /// Virtual-supervisor fence requests received
    HfenceVvmaReceived,
    /// Address-space-qualified virtual-supervisor fence requests sent
    HfenceVvmaAsidSent,
    /// Address-space-qualified virtual-supervisor fence requests received
    HfenceVvmaAsidReceived,
}

impl FirmwareEventCode {
    /// The sixteen-bit encoding of this firmware event.
    pub open spec fn spec_firmware_code(self) -> u16 {
        match self {
            FirmwareEventCode::MisalignedLoad => 0,
            FirmwareEventCode::MisalignedStore => 1,
            FirmwareEventCode::AccessLoad => 2,
            FirmwareEventCode::AccessStore => 3,
            FirmwareEventCode::IllegalInstruction => 4,
            FirmwareEventCode::SetTimer => 5,
            FirmwareEventCode::IpiSent => 6,
            FirmwareEventCode::IpiReceived => 7,
            FirmwareEventCode::FenceISent => 8,
            FirmwareEventCode::FenceIReceived => 9,
            FirmwareEventCode::SfenceVmaSent => 10,
            FirmwareEventCode::SfenceVmaReceived => 11,
            FirmwareEventCode::SfenceVmaAsidSent => 12,
            FirmwareEventCode::SfenceVmaAsidReceived => 13,
            FirmwareEventCode::HfenceGvmaSent => 14,
            FirmwareEventCode::HfenceGvmaReceived => 15,
            FirmwareEventCode::HfenceGvmaVmidSent => 16,
            FirmwareEventCode::HfenceGvmaVmidReceived => 17,
            FirmwareEventCode::HfenceVvmaSent => 18,
            FirmwareEventCode::HfenceVvmaReceived => 19,
            FirmwareEventCode::HfenceVvmaAsidSent => 20,
            FirmwareEventCode::HfenceVvmaAsidReceived => 21,
        }
    }
}

impl Sealed for FirmwareEventCode {

}

impl EventCode for FirmwareEventCode {
    open spec fn spec_code(self) -> u16 {
        self.spec_firmware_code()
    }

    fn to_code(self) -> (r: u16) {
        match self {
            FirmwareEventCode::MisalignedLoad => 0,
            FirmwareEventCode::MisalignedStore => 1,
            FirmwareEventCode::AccessLoad => 2,
            FirmwareEventCode::AccessStore => 3,
            FirmwareEventCode::IllegalInstruction => 4,
            FirmwareEventCode::SetTimer => 5,
            FirmwareEventCode::IpiSent => 6,
            FirmwareEventCode::IpiReceived => 7,
            FirmwareEventCode::FenceISent => 8,
            FirmwareEventCode::FenceIReceived => 9,
            FirmwareEventCode::SfenceVmaSent => 10,
            FirmwareEventCode::SfenceVmaReceived => 11,
            FirmwareEventCode::SfenceVmaAsidSent => 12,
            FirmwareEventCode::SfenceVmaAsidReceived => 13,
            FirmwareEventCode::HfenceGvmaSent => 14,
            FirmwareEventCode::HfenceGvmaReceived => 15,
            FirmwareEventCode::HfenceGvmaVmidSent => 16,
            FirmwareEventCode::HfenceGvmaVmidReceived => 17,
            FirmwareEventCode::HfenceVvmaSent => 18,
            FirmwareEventCode::HfenceVvmaReceived => 19,
            FirmwareEventCode::HfenceVvmaAsidSent => 20,
            FirmwareEventCode::HfenceVvmaAsidReceived => 21,
        }
    }
}

} // verus!
