//! The performance-control registers the specification defines, as zero-size
//! marker types: each carries its register ID and its logical value width at
//! the type level, so the generic accessors of the parent module stay
//! monomorphic and no call site branches on width.

use vstd::prelude::*;

use super::{Readable, Register, Writable};

verus! {

/// The absolute maximum performance an individual processor may reach under
/// ideal conditions; it may not be sustainable for long durations.
#[derive(Debug, Clone, Copy, PartialEq, Eq, Structural)]
pub struct HighestPerformance;

impl Readable for HighestPerformance {

}

impl Register for HighestPerformance {
    type Width = u32;

    open spec fn spec_id() -> u32 {
        0x0
    }

    fn id() -> (r: u32) {
        0x0
    }
}

/// The maximum performance level the processor can sustain continuously
/// under ideal operating conditions, absent external constraints.
#[derive(Debug, Clone, Copy, PartialEq, Eq, Structural)]
pub struct NominalPerformance;

impl Readable for NominalPerformance {

}

impl Register for NominalPerformance {
    type Width = u32;

    open spec fn spec_id() -> u32 {
        0x1
    }

    fn id() -> (r: u32) {
        0x1
    }
}

/// The lowest performance level at which nonlinear power savings are
/// achieved; below it, lower levels may cost efficiency.
#[derive(Debug, Clone, Copy, PartialEq, Eq, Structural)]
pub struct LowestNonlinearPerformance;

impl Readable for LowestNonlinearPerformance {

}

impl Register for LowestNonlinearPerformance {
    type Width = u32;

    open spec fn spec_id() -> u32 {
        0x2
    }

    fn id() -> (r: u32) {
        0x2
    }
}

/// The absolute lowest performance level of the platform; selecting it
/// reduces instantaneous power draw at a possible efficiency penalty.
#[derive(Debug, Clone, Copy, PartialEq, Eq, Structural)]
pub struct LowestPerformance;

impl Readable for LowestPerformance {

}

impl Register for LowestPerformance {
    type Width = u32;

    open spec fn spec_id() -> u32 {
        0x3
    }

    fn id() -> (r: u32) {
        0x3
    }
}

/// The current maximum sustained performance level, taking all known
/// external constraints into account; falls between the lowest and nominal
/// levels.
#[derive(Debug, Clone, Copy, PartialEq, Eq, Structural)]
pub struct GuaranteedPerformance;

impl Readable for GuaranteedPerformance {

}

impl Register for GuaranteedPerformance {
    type Width = u32;

    open spec fn spec_id() -> u32 {
        0x4
    }

    fn id() -> (r: u32) {
        0x4
    }
}

/// The performance level the supervisor requests from the platform while
/// autonomous selection is disabled; under autonomous selection, a non-zero
/// write is an explicit hint and zero lets the platform choose.
#[derive(Debug, Clone, Copy, PartialEq, Eq, Structural)]
pub struct DesiredPerformance;

impl Readable for DesiredPerformance {

}

impl Writable for DesiredPerformance {

}

impl Register for DesiredPerformance {
    type Width = u32;

    open spec fn spec_id() -> u32 {
        0x5
    }

    fn id() -> (r: u32) {
        0x5
    }
}

/// The minimum performance level at which the platform may run; must not
/// exceed the maximum performance register's setting.
#[derive(Debug, Clone, Copy, PartialEq, Eq, Structural)]
pub struct MinimumPerformance;

impl Readable for MinimumPerformance {

}

impl Writable for MinimumPerformance {

}

impl Register for MinimumPerformance {
    type Width = u32;

    open spec fn spec_id() -> u32 {
        0x6
    }

    fn id() -> (r: u32) {
        0x6
    }
}

/// The maximum performance level at which the platform may run, requested
/// for energy efficiency or thermal control; the platform may exceed it for
/// internal optimization.
#[derive(Debug, Clone, Copy, PartialEq, Eq, Structural)]
pub struct MaximumPerformance;

impl Readable for MaximumPerformance {

}

impl Writable for MaximumPerformance {

}

impl Register for MaximumPerformance {
    type Width = u32;

    open spec fn spec_id() -> u32 {
        0x7
    }

    fn id() -> (r: u32) {
        0x7
    }
}

/// The tolerable deviation below the desired performance, as an absolute
/// value on the performance scale; over a time window, the minimal average
/// performance to deliver.
#[derive(Debug, Clone, Copy, PartialEq, Eq, Structural)]
pub struct PerformanceReductionTolerance;

impl Readable for PerformanceReductionTolerance {

}

impl Writable for PerformanceReductionTolerance {

}

impl Register for PerformanceReductionTolerance {
    type Width = u32;

    open spec fn spec_id() -> u32 {
        0x8
    }

    fn id() -> (r: u32) {
        0x8
    }
}

/// The minimum interval over which the supervisor evaluates delivered
/// performance; the platform must meet the desired performance within
/// tolerance over any interval at least this long.
#[derive(Debug, Clone, Copy, PartialEq, Eq, Structural)]
pub struct TimeWindow;

impl Readable for TimeWindow {

}

impl Writable for TimeWindow {

}

impl Register for TimeWindow {
    type Width = u32;

    open spec fn spec_id() -> u32 {
        0x9
    }

    fn id() -> (r: u32) {
        0x9
    }
}

/// The rollover time of the reference and delivered performance counters; if
/// longer elapses between queries, the counters may wrap undetected. Zero
/// means they never wrap.
#[derive(Debug, Clone, Copy, PartialEq, Eq, Structural)]
pub struct CounterWraparoundTime;

impl Readable for CounterWraparoundTime {

}

impl Register for CounterWraparoundTime {
    type Width = u64;

    open spec fn spec_id() -> u32 {
        0xa
    }

    fn id() -> (r: u32) {
        0xa
    }
}

/// Counts at a fixed rate whenever the processor is active, unaffected by
/// performance changes or throttling.
#[derive(Debug, Clone, Copy, PartialEq, Eq, Structural)]
pub struct ReferencePerformanceCounter;

impl Readable for ReferencePerformanceCounter {

}

impl Register for ReferencePerformanceCounter {
    type Width = u64;

    open spec fn spec_id() -> u32 {
        0xb
    }

    fn id() -> (r: u32) {
        0xb
    }
}

/// Counts whenever the processor is active, at a rate proportional to the
/// current performance level.
#[derive(Debug, Clone, Copy, PartialEq, Eq, Structural)]
pub struct DeliveredPerformanceCounter;

impl Readable for DeliveredPerformanceCounter {

}

impl Register for DeliveredPerformanceCounter {
    type Width = u64;

    open spec fn spec_id() -> u32 {
        0xc
    }

    fn id() -> (r: u32) {
        0xc
    }
}

/// Sticky indicator bits the platform sets when an unpredictable event
/// constrained delivered performance below the desired or minimum level; the
/// supervisor clears them.
#[derive(Debug, Clone, Copy, PartialEq, Eq, Structural)]
pub struct PerformanceLimited;

impl Readable for PerformanceLimited {

}

impl Writable for PerformanceLimited {

}

impl Register for PerformanceLimited {
    type Width = u32;

    open spec fn spec_id() -> u32 {
        0xd
    }

    fn id() -> (r: u32) {
        0xd
    }
}

/// The supervisor writes one here to enable collaborative performance
/// control on this processor; if not implemented, it is assumed always
/// enabled.
#[derive(Debug, Clone, Copy, PartialEq, Eq, Structural)]
pub struct CppcEnable;

impl Readable for CppcEnable {

}

impl Writable for CppcEnable {

}

impl Register for CppcEnable {
    type Width = u32;

    open spec fn spec_id() -> u32 {
        0xe
    }

    fn id() -> (r: u32) {
        0xe
    }
}

/// The supervisor writes one here to let the platform select performance
/// levels on its own; platforms that only support autonomous selection
/// report one.
#[derive(Debug, Clone, Copy, PartialEq, Eq, Structural)]
pub struct AutonomousSelectionEnable;

impl Readable for AutonomousSelectionEnable {

}

impl Writable for AutonomousSelectionEnable {

}

impl Register for AutonomousSelectionEnable {
    type Width = u32;

    open spec fn spec_id() -> u32 {
        0xf
    }

    fn id() -> (r: u32) {
        0xf
    }
}

/// A moving utilization-sensitivity window, as a seven-bit mantissa with a
/// decimal exponent in microsecond units, that influences how fast the
/// autonomous policy raises or lowers performance; zero lets the platform
/// pick.
#[derive(Debug, Clone, Copy, PartialEq, Eq, Structural)]
pub struct AutonomousAcivityWindow;

impl Readable for AutonomousAcivityWindow {

}

impl Writable for AutonomousAcivityWindow {

}

impl Register for AutonomousAcivityWindow {
    type Width = u32;

    open spec fn spec_id() -> u32 {
        0x10
    }

    fn id() -> (r: u32) {
        0x10
    }
}

/// A value from zero (favor performance) to 0xFF (favor energy efficiency)
/// that biases the platform's autonomous optimization policies.
#[derive(Debug, Clone, Copy, PartialEq, Eq, Structural)]
pub struct EnergyPerformancePreference;

impl Readable for EnergyPerformancePreference {

}

impl Writable for EnergyPerformancePreference {

}

impl Register for EnergyPerformancePreference {
    type Width = u32;

    open spec fn spec_id() -> u32 {
        0x11
    }

    fn id() -> (r: u32) {
        0x11
    }
}

/// The rate at which the reference performance counter increments; if not
/// implemented or zero, it increments at the nominal performance level.
#[derive(Debug, Clone, Copy, PartialEq, Eq, Structural)]
pub struct ReferencePerformance;

impl Readable for ReferencePerformance {

}

impl Register for ReferencePerformance {
    type Width = u32;

    open spec fn spec_id() -> u32 {
        0x12
    }

    fn id() -> (r: u32) {
        0x12
    }
}

/// The frequency that corresponds to the platform's lowest performance level.
#[derive(Debug, Clone, Copy, PartialEq, Eq, Structural)]
pub struct LowestFrequency;

impl Readable for LowestFrequency {

}

impl Register for LowestFrequency {
    type Width = u32;

    open spec fn spec_id() -> u32 {
        0x13
    }

    fn id() -> (r: u32) {
        0x13
    }
}

/// The frequency that corresponds to the platform's nominal performance level.
#[derive(Debug, Clone, Copy, PartialEq, Eq, Structural)]
pub struct NominalFrequency;

impl Readable for NominalFrequency {

}

impl Register for NominalFrequency {
    type Width = u32;

    open spec fn spec_id() -> u32 {
        0x14
    }

    fn id() -> (r: u32) {
        0x14
    }
}

/// The maximum, worst-case latency of a performance state transition, in
/// nanoseconds.
#[derive(Debug, Clone, Copy, PartialEq, Eq, Structural)]
pub struct TransitionLatency;

impl Readable for TransitionLatency {

}

impl Register for TransitionLatency {
    type Width = u32;

    open spec fn spec_id() -> u32 {
        0x80000000
    }

    fn id() -> (r: u32) {
        0x80000000
    }
}

} // verus!
