//! Typed, verified encoding layer for a register-based supervisor-to-firmware
//! calling convention.
//!
//! Firmware groups its functions into extensions, each named by a 32-bit ID; a
//! call places up to six machine words in argument registers, names the
//! extension and function in two more, and traps into firmware. The trap
//! returns a `(status, value)` register pair: status `0` means success and
//! `value` carries the payload, a negative status names an error.
//!
//! This crate holds everything about that convention that can be stated and
//! proved: the register images of each documented call (the `*_request`
//! builders), the decoding of the returned pair into a typed result (the
//! `*_result` functions and [`transport::decode_result`]), the error taxonomy
//! ([`SbiError`]), the selector bitmasks ([`HartMask`],
//! [`performance_monitoring_unit::CounterIndexMask`]), range-restricted
//! platform values ([`RestrictedRange`]), and the register-width abstraction
//! that lets one typed accessor serve both 32-bit and 64-bit machine words.
//! Verification does not fix the word width: every contract holds on both.
//!
//! Issuing the trap instruction itself is target-specific and cannot be
//! verified; the embedding program builds a request here, performs the trap,
//! and hands the returned register pair back to the decoders here.

pub mod base;
pub mod collaborative_processor_performance_control;
pub mod debug_console;
pub mod error;
pub mod hart_mask;
pub mod hart_state_management;
pub mod ipi;
pub mod legacy;
pub mod nested_acceleration;
pub mod performance_monitoring_unit;
pub mod physical_address;
pub mod restricted_range;
pub mod rfence;
pub mod system_reset;
pub mod system_suspend;
pub mod timer;
pub mod transport;

pub use error::SbiError;
pub use hart_mask::HartMask;
pub use physical_address::PhysicalAddress;
pub use restricted_range::RestrictedRange;
pub use transport::CallRequest;

/// A convenience alias to the [`collaborative_processor_performance_control`] module.
pub use collaborative_processor_performance_control as cbbc;
/// A convenience alias to the [`hart_state_management`] module.
pub use hart_state_management as hsm;
/// A convenience alias to the [`performance_monitoring_unit`] module.
pub use performance_monitoring_unit as pmu;

