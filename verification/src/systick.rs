//! The SysTick timer of the core, which paces preemptive scheduling.
use crate::mmio::{BusState, RegisterBank, keep_bits, put, reg, set_bits};
use crate::platform::{STK, STK_CTRL, STK_ENABLE, STK_LOAD, STK_VAL};
use vstd::prelude::*;

verus! {

/// Reload cycles per millisecond of period.
pub const FACTOR: u32 = 8000;

/// The register state after the SysTick timer was set up to fire every
/// `cycles` core cycles: the low 24 bits of LOAD replaced by `cycles`, the
/// low 24 bits of VAL cleared, and CTRL's CLKSOURCE, TICKINT and ENABLE set.
pub open spec fn set_up_effect(s: BusState, cycles: u32) -> BusState {
    let s1 = put(s, STK | STK_LOAD, (reg(s, STK | STK_LOAD) & !0x00FF_FFFFu32) | cycles);
    let s2 = keep_bits(s1, STK | STK_VAL, !0x00FF_FFFFu32);
    put(s2, STK | STK_CTRL, (reg(s2, STK | STK_CTRL) & !0b111u32) | (0b100u32 | 0b010u32 | 0b001u32))
}

/// The SysTick timer configured with a reload value.
pub struct STK {
    cycles_until_zero: u32,
}

impl STK {
    /// Cycles between two SysTick exceptions.
    pub closed spec fn cycles(&self) -> u32 {
        self.cycles_until_zero
    }

    /// Sets the timer up to fire every `period_ms` milliseconds and starts it.
    pub fn set_up_systick(bank: &mut RegisterBank, period_ms: u32)
        requires
            period_ms * FACTOR <= u32::MAX,
        ensures
            final(bank)@ == set_up_effect(old(bank)@, (period_ms * FACTOR) as u32),
    {
        let systick_reg = STK { cycles_until_zero: period_ms * FACTOR };
        systick_reg.stk_load(bank);
        systick_reg.stk_val_clr(bank);
        systick_reg.stk_run(bank);
    }

    fn stk_load(&self, bank: &mut RegisterBank)
        ensures
            final(bank)@ == put(
                old(bank)@,
                STK | STK_LOAD,
                (reg(old(bank)@, STK | STK_LOAD) & !0x00FF_FFFFu32) | self.cycles(),
            ),
    {
        let mut current_register_content = bank.read(STK | STK_LOAD);
        current_register_content = current_register_content & !(0x00FF_FFFFu32);
        bank.write(STK | STK_LOAD, current_register_content | self.cycles_until_zero);
    }

    fn stk_val_clr(&self, bank: &mut RegisterBank)
        ensures
            final(bank)@ == keep_bits(old(bank)@, STK | STK_VAL, !0x00FF_FFFFu32),
    {
        let v = bank.read(STK | STK_VAL);
        bank.write(STK | STK_VAL, v & !(0x00FF_FFFFu32));
    }

    fn stk_run(&self, bank: &mut RegisterBank)
        ensures
            final(bank)@ == put(
                old(bank)@,
                STK | STK_CTRL,
                (reg(old(bank)@, STK | STK_CTRL) & !0b111u32) | (0b100u32 | 0b010u32 | 0b001u32),
            ),
    {
        let mut existing_val = bank.read(STK | STK_CTRL);
        existing_val = existing_val & !(0b111u32);
        existing_val = existing_val | ((0b100u32) | (0b010u32) | (0b001u32));
        bank.write(STK | STK_CTRL, existing_val);
    }
}

/// Stops the SysTick counter: clears ENABLE.
pub fn disable_systick(bank: &mut RegisterBank)
    ensures
        final(bank)@ == keep_bits(old(bank)@, STK | STK_CTRL, !STK_ENABLE),
{
    let v = bank.read(STK | STK_CTRL);
    bank.write(STK | STK_CTRL, v & !(STK_ENABLE));
}

/// Starts the SysTick counter: sets ENABLE.
pub fn enable_systick(bank: &mut RegisterBank)
    ensures
        final(bank)@ == set_bits(old(bank)@, STK | STK_CTRL, STK_ENABLE),
{
    let v = bank.read(STK | STK_CTRL);
    bank.write(STK | STK_CTRL, v | STK_ENABLE);
}

proof fn lemma_load_bits(v: u32, cycles: u32)
    by (bit_vector)
    requires
        cycles <= 0x00FF_FFFF,
    ensures
        ((v & !0x00FF_FFFFu32) | cycles) & 0x00FF_FFFF == cycles,
        (v & !0x00FF_FFFFu32) & 0x00FF_FFFF == 0,
        ((v & !0b111u32) | (0b100u32 | 0b010u32 | 0b001u32)) & 0b111 == 0b111,
{
}

proof fn lemma_stk_addresses()
    ensures
        STK | STK_LOAD == 0xE000_E014u32,
        STK | STK_VAL == 0xE000_E018u32,
        STK | STK_CTRL == 0xE000_E010u32,
{
    assert(0xE000_E010u32 | 0x04u32 == 0xE000_E014u32) by (bit_vector);
    assert(0xE000_E010u32 | 0x08u32 == 0xE000_E018u32) by (bit_vector);
    assert(0xE000_E010u32 | 0x00u32 == 0xE000_E010u32) by (bit_vector);
}

/// A period that fits the 24-bit counter becomes the reload value; the
/// current value is cleared and the counter runs from the processor clock
/// with its exception enabled.
pub proof fn law_set_up_loads_period(s: BusState, cycles: u32)
    requires
        cycles <= 0x00FF_FFFF,
    ensures
        ({
            let after = set_up_effect(s, cycles);
            &&& reg(after, STK | STK_LOAD) & 0x00FF_FFFF == cycles
            &&& reg(after, STK | STK_VAL) & 0x00FF_FFFF == 0
            &&& reg(after, STK | STK_CTRL) & 0b111 == 0b111
        }),
{
    lemma_stk_addresses();
    lemma_load_bits(reg(s, STK | STK_LOAD), cycles);
    let s1 = put(s, STK | STK_LOAD, (reg(s, STK | STK_LOAD) & !0x00FF_FFFFu32) | cycles);
    lemma_load_bits(reg(s1, STK | STK_VAL), cycles);
    let s2 = keep_bits(s1, STK | STK_VAL, !0x00FF_FFFFu32);
    lemma_load_bits(reg(s2, STK | STK_CTRL), cycles);
}

} // verus!
