//! The hypervisor-extension control registers that can be synchronized, as
//! marker types carrying their register address at the type level.

use vstd::prelude::*;

use super::{CsrAddress, HExtensionCsr};

verus! {

/// Hypervisor status register
#[derive(Debug, Clone, Copy, PartialEq, Eq, Structural)]
pub struct Hstatus;

impl HExtensionCsr for Hstatus {
    open spec fn spec_address() -> u16 {
        0x600
    }

    fn address() -> (r: CsrAddress) {
        CsrAddress::new_unchecked(0x600)
    }
}

/// Hypervisor exception delegation register
#[derive(Debug, Clone, Copy, PartialEq, Eq, Structural)]
pub struct Hedeleg;

impl HExtensionCsr for Hedeleg {
    open spec fn spec_address() -> u16 {
        0x602
    }

    fn address() -> (r: CsrAddress) {
        CsrAddress::new_unchecked(0x602)
    }
}

/// Hypervisor interrupt delegation register
#[derive(Debug, Clone, Copy, PartialEq, Eq, Structural)]
pub struct Hideleg;

impl HExtensionCsr for Hideleg {
    open spec fn spec_address() -> u16 {
        0x603
    }

    fn address() -> (r: CsrAddress) {
        CsrAddress::new_unchecked(0x603)
    }
}

/// Hypervisor interrupt enable register
#[derive(Debug, Clone, Copy, PartialEq, Eq, Structural)]
pub struct Hie;

impl HExtensionCsr for Hie {
    open spec fn spec_address() -> u16 {
        0x604
    }

    fn address() -> (r: CsrAddress) {
        CsrAddress::new_unchecked(0x604)
    }
}

/// Hypervisor counter enable register
#[derive(Debug, Clone, Copy, PartialEq, Eq, Structural)]
pub struct Hcounteren;

impl HExtensionCsr for Hcounteren {
    open spec fn spec_address() -> u16 {
        0x606
    }

    fn address() -> (r: CsrAddress) {
        CsrAddress::new_unchecked(0x606)
    }
}

/// Hypervisor guest external interrupt enable register
#[derive(Debug, Clone, Copy, PartialEq, Eq, Structural)]
pub struct Hgeie;

impl HExtensionCsr for Hgeie {
    open spec fn spec_address() -> u16 {
        0x607
    }

    fn address() -> (r: CsrAddress) {
        CsrAddress::new_unchecked(0x607)
    }
}

/// Hypervisor trap value register
#[derive(Debug, Clone, Copy, PartialEq, Eq, Structural)]
pub struct Htval;

impl HExtensionCsr for Htval {
    open spec fn spec_address() -> u16 {
        0x643
    }

    fn address() -> (r: CsrAddress) {
        CsrAddress::new_unchecked(0x643)
    }
}

/// Hypervisor interrupt pending register
#[derive(Debug, Clone, Copy, PartialEq, Eq, Structural)]
pub struct Hip;

impl HExtensionCsr for Hip {
    open spec fn spec_address() -> u16 {
        0x644
    }

    fn address() -> (r: CsrAddress) {
        CsrAddress::new_unchecked(0x644)
    }
}

/// Hypervisor virtual interrupt pending register
#[derive(Debug, Clone, Copy, PartialEq, Eq, Structural)]
pub struct Hvip;

impl HExtensionCsr for Hvip {
    open spec fn spec_address() -> u16 {
        0x645
    }

    fn address() -> (r: CsrAddress) {
        CsrAddress::new_unchecked(0x645)
    }
}

/// Hypervisor trap instruction register
#[derive(Debug, Clone, Copy, PartialEq, Eq, Structural)]
pub struct Htinst;

impl HExtensionCsr for Htinst {
    open spec fn spec_address() -> u16 {
        0x64a
    }

    fn address() -> (r: CsrAddress) {
        CsrAddress::new_unchecked(0x64a)
    }
}

/// Hypervisor guest external interrupt pending register
#[derive(Debug, Clone, Copy, PartialEq, Eq, Structural)]
pub struct Hgeip;

impl HExtensionCsr for Hgeip {
    open spec fn spec_address() -> u16 {
        0xe12
    }

    fn address() -> (r: CsrAddress) {
        CsrAddress::new_unchecked(0xe12)
    }
}

/// Hypervisor environment configuration register
#[derive(Debug, Clone, Copy, PartialEq, Eq, Structural)]
pub struct Henvcfg;

impl HExtensionCsr for Henvcfg {
    open spec fn spec_address() -> u16 {
        0x60a
    }

    fn address() -> (r: CsrAddress) {
        CsrAddress::new_unchecked(0x60a)
    }
}

/// Upper half of the hypervisor environment configuration register
#[derive(Debug, Clone, Copy, PartialEq, Eq, Structural)]
pub struct Henvcfgh;

impl HExtensionCsr for Henvcfgh {
    open spec fn spec_address() -> u16 {
        0x61a
    }

    fn address() -> (r: CsrAddress) {
        CsrAddress::new_unchecked(0x61a)
    }
}

/// Hypervisor guest address translation and protection register
#[derive(Debug, Clone, Copy, PartialEq, Eq, Structural)]
pub struct Hgatp;

impl HExtensionCsr for Hgatp {
    open spec fn spec_address() -> u16 {
        0x680
    }

    fn address() -> (r: CsrAddress) {
        CsrAddress::new_unchecked(0x680)
    }
}

/// Hypervisor context register
#[derive(Debug, Clone, Copy, PartialEq, Eq, Structural)]
pub struct Hcontext;

impl HExtensionCsr for Hcontext {
    open spec fn spec_address() -> u16 {
        0x6a8
    }

    fn address() -> (r: CsrAddress) {
        CsrAddress::new_unchecked(0x6a8)
    }
}

/// Hypervisor time delta register
#[derive(Debug, Clone, Copy, PartialEq, Eq, Structural)]
pub struct Htimedelta;

impl HExtensionCsr for Htimedelta {
    open spec fn spec_address() -> u16 {
        0x605
    }

    fn address() -> (r: CsrAddress) {
        CsrAddress::new_unchecked(0x605)
    }
}

/// Upper half of the hypervisor time delta register
#[derive(Debug, Clone, Copy, PartialEq, Eq, Structural)]
pub struct Htimedeltah;

impl HExtensionCsr for Htimedeltah {
    open spec fn spec_address() -> u16 {
        0x615
    }

    fn address() -> (r: CsrAddress) {
        CsrAddress::new_unchecked(0x615)
    }
}

/// Virtual supervisor status register
#[derive(Debug, Clone, Copy, PartialEq, Eq, Structural)]
pub struct Vsstatus;

impl HExtensionCsr for Vsstatus {
    open spec fn spec_address() -> u16 {
        0x200
    }

    fn address() -> (r: CsrAddress) {
        CsrAddress::new_unchecked(0x200)
    }
}

/// Virtual supervisor interrupt enable register
#[derive(Debug, Clone, Copy, PartialEq, Eq, Structural)]
pub struct Vsie;

impl HExtensionCsr for Vsie {
    open spec fn spec_address() -> u16 {
        0x204
    }

    fn address() -> (r: CsrAddress) {
        CsrAddress::new_unchecked(0x204)
    }
}

/// Virtual supervisor trap vector register
#[derive(Debug, Clone, Copy, PartialEq, Eq, Structural)]
pub struct Vstvec;

impl HExtensionCsr for Vstvec {
    open spec fn spec_address() -> u16 {
        0x205
    }

    fn address() -> (r: CsrAddress) {
        CsrAddress::new_unchecked(0x205)
    }
}

/// Virtual supervisor scratch register
#[derive(Debug, Clone, Copy, PartialEq, Eq, Structural)]
pub struct Vsscratch;

impl HExtensionCsr for Vsscratch {
    open spec fn spec_address() -> u16 {
        0x240
    }

    fn address() -> (r: CsrAddress) {
        CsrAddress::new_unchecked(0x240)
    }
}

/// Virtual supervisor exception program counter register
#[derive(Debug, Clone, Copy, PartialEq, Eq, Structural)]
pub struct Vsepc;

impl HExtensionCsr for Vsepc {
    open spec fn spec_address() -> u16 {
        0x241
    }

    fn address() -> (r: CsrAddress) {
        CsrAddress::new_unchecked(0x241)
    }
}

/// Virtual supervisor trap cause register
#[derive(Debug, Clone, Copy, PartialEq, Eq, Structural)]
pub struct Vscause;

impl HExtensionCsr for Vscause {
    open spec fn spec_address() -> u16 {
        0x242
    }

    fn address() -> (r: CsrAddress) {
        CsrAddress::new_unchecked(0x242)
    }
}

/// Virtual supervisor trap value register
#[derive(Debug, Clone, Copy, PartialEq, Eq, Structural)]
pub struct Vstval;

impl HExtensionCsr for Vstval {
    open spec fn spec_address() -> u16 {
        0x243
    }

    fn address() -> (r: CsrAddress) {
        CsrAddress::new_unchecked(0x243)
    }
}

/// Virtual supervisor interrupt pending register
#[derive(Debug, Clone, Copy, PartialEq, Eq, Structural)]
pub struct Vsip;

impl HExtensionCsr for Vsip {
    open spec fn spec_address() -> u16 {
        0x244
    }

    fn address() -> (r: CsrAddress) {
        CsrAddress::new_unchecked(0x244)
    }
}

/// Virtual supervisor address translation and protection register
#[derive(Debug, Clone, Copy, PartialEq, Eq, Structural)]
pub struct Vsatp;

impl HExtensionCsr for Vsatp {
    open spec fn spec_address() -> u16 {
        0x280
    }

    fn address() -> (r: CsrAddress) {
        CsrAddress::new_unchecked(0x280)
    }
}

} // verus!
