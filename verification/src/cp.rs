//! Core peripherals: the SysTick timer as a handle that is taken once and
//! configured by chained calls.
use crate::mmio::{BusState, RegisterBank, put, reg, set_bits};
use vstd::prelude::*;

verus! {

/// Address of the SysTick register block (CTRL, LOAD, VAL, CALIB).
pub const SYSTICK_TIMER: u32 = 0xE000_E010;

/// SysTick control and status register.
pub const SYSTICK_CTRL: u32 = 0xE000_E010;

/// SysTick reload value register.
pub const SYSTICK_LOAD: u32 = 0xE000_E014;

/// Largest reload value the 24-bit counter takes.
pub const MAX_RELOAD: u32 = 0x00FF_FFFF;

/// The register state after `set_reload(load)`: `load` ORed into LOAD when
/// it fits the counter, no change otherwise.
pub open spec fn set_reload_effect(s: BusState, load: u32) -> BusState {
    if load <= MAX_RELOAD {
        set_bits(s, SYSTICK_LOAD, load)
    } else {
        s
    }
}

/// Handle to the SysTick register block.
pub struct SystemTimer;

impl SystemTimer {
    /// The handle to the SysTick block.
    pub fn take() -> SystemTimer {
        SystemTimer
    }

    /// ORs `load` into the reload value register (bits already set there
    /// stay set). Reload value can be any value in the range
    /// 0x00000001-0x00FFFFFF; a larger one is ignored.
    pub fn set_reload(self, bank: &mut RegisterBank, load: u32) -> (t: SystemTimer)
        ensures
            final(bank)@ == set_reload_effect(old(bank)@, load),
    {
        if load <= MAX_RELOAD {
            let v = bank.read(SYSTICK_LOAD);
            bank.write(SYSTICK_LOAD, v | load);
        }
        self
    }

    /// Sets TICKINT, so that counting down to zero asserts the SysTick
    /// exception request, and ENABLE, which enables the counter.
    pub fn enable(self, bank: &mut RegisterBank) -> (t: SystemTimer)
        ensures
            final(bank)@ == set_bits(old(bank)@, SYSTICK_CTRL, 0b11),
    {
        let v = bank.read(SYSTICK_CTRL);
        bank.write(SYSTICK_CTRL, v | 0b11);
        self
    }
}

/// Interrupt control and state register.
pub const ICSR: u32 = 0xE000_ED04;

/// Sets PendSV pending (PENDSVSET, bit 28 of ICSR), which requests a task
/// switch.
#[allow(non_snake_case)]
pub fn trigger_PendSV(bank: &mut RegisterBank)
    ensures
        final(bank)@ == set_bits(old(bank)@, ICSR, 0b1u32 << 28u32),
{
    let icsr: u32 = 0xE000_ED04;
    let v = bank.read(icsr);
    bank.write(icsr, v | (0b1u32 << 28u32));
}

/// Any reload value from 0 to 0x00FF_FFFF is ORed into LOAD (0xE000_E014)
/// with one write; a larger one leaves the registers and the journal as
/// they were.
pub proof fn law_set_reload_accepts_24_bits(s: BusState, load: u32)
    ensures
        load <= 0x00FF_FFFF ==> set_reload_effect(s, load) == put(
            s,
            0xE000_E014u32,
            reg(s, 0xE000_E014u32) | load,
        ),
        load > 0x00FF_FFFF ==> set_reload_effect(s, load) == s,
{
}

} // verus!
