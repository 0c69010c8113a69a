//! General-purpose timer 3, which wakes a sleeping task.
use crate::mmio::{BusState, RegisterBank, keep_bits, put, reg, set_bits};
use crate::platform::{RCC, RCC_APB1RSTR, TIM3_BASEADRESS, TIM_CCR1, TIM_CNT, TIM_DIER, TIM_EGR, TIM_PSC};
use vstd::prelude::*;

verus! {

/// Status register of timer 3.
pub open spec fn sr_address() -> u32 {
    TIM3_BASEADRESS | 0x10
}

/// The register state after `clear_uif`.
pub open spec fn clear_uif_effect(s: BusState) -> BusState {
    let sr = sr_address();
    put(put(s, sr, reg(s, sr) & !0b1111u32), sr, reg(s, sr) & !(0b1u32 << 6u32))
}

/// The register state after `reset_timer`.
pub open spec fn reset_timer_effect(s: BusState) -> BusState {
    let rst = RCC | RCC_APB1RSTR;
    keep_bits(set_bits(s, rst, 0b10), rst, !0b10u32)
}

/// Starts the counter: sets CEN in CR1.
pub fn start(bank: &mut RegisterBank)
    ensures
        final(bank)@ == set_bits(old(bank)@, TIM3_BASEADRESS, 0b1),
{
    let v = bank.read(TIM3_BASEADRESS);
    bank.write(TIM3_BASEADRESS, v | 0b1);
}

/// Clears UDIS in CR1, so that update events are generated.
pub fn clear_udis(bank: &mut RegisterBank)
    ensures
        final(bank)@ == keep_bits(old(bank)@, TIM3_BASEADRESS, !0b10u32),
{
    let v = bank.read(TIM3_BASEADRESS);
    bank.write(TIM3_BASEADRESS, v & !(0b10u32));
}

/// Resets the low 16 bits of the counter to 0.
pub fn flush(bank: &mut RegisterBank)
    ensures
        final(bank)@ == keep_bits(old(bank)@, TIM3_BASEADRESS | TIM_CNT, !0xFFFFu32),
{
    let timx_cnt: u32 = TIM3_BASEADRESS | TIM_CNT;
    let v = bank.read(timx_cnt);
    bank.write(timx_cnt, v & !(0xFFFFu32));
}

/// Clears the interrupt flags of the status register: it writes the status
/// with bits 0-3 cleared, then the status as read before with bit 6 cleared.
pub fn clear_uif(bank: &mut RegisterBank)
    ensures
        final(bank)@ == clear_uif_effect(old(bank)@),
{
    let tim3_sr = TIM3_BASEADRESS | 0x10;
    let existing_value = bank.read(tim3_sr);
    bank.write(tim3_sr, existing_value & !(0b1111u32));
    bank.write(tim3_sr, existing_value & !(0b1u32 << 6u32));
}

/// Sets UG in the event generation register, which reinitialises the counter.
pub fn set_ug(bank: &mut RegisterBank)
    ensures
        final(bank)@ == set_bits(old(bank)@, TIM3_BASEADRESS | TIM_EGR, 0b1),
{
    let tim3_egr = TIM3_BASEADRESS | TIM_EGR;
    let existing_value = bank.read(tim3_egr);
    bank.write(tim3_egr, existing_value | 0b1);
}

/// Stops the counter: clears CEN in CR1.
pub fn stop(bank: &mut RegisterBank)
    ensures
        final(bank)@ == keep_bits(old(bank)@, TIM3_BASEADRESS, !0b1u32),
{
    let v = bank.read(TIM3_BASEADRESS);
    bank.write(TIM3_BASEADRESS, v & !(0b1u32));
}

/// Enables the capture/compare 1 interrupt (CC1IE in DIER).
pub fn enable_interrupt(bank: &mut RegisterBank)
    ensures
        final(bank)@ == set_bits(old(bank)@, TIM3_BASEADRESS | TIM_DIER, 0b10),
{
    let tim3_dier: u32 = TIM3_BASEADRESS | TIM_DIER;
    let v = bank.read(tim3_dier);
    bank.write(tim3_dier, v | 0b10);
}

/// ORs `threshold` into capture/compare register 1.
pub fn set_ccr(bank: &mut RegisterBank, threshold: u16)
    ensures
        final(bank)@ == set_bits(old(bank)@, TIM3_BASEADRESS | TIM_CCR1, threshold as u32),
{
    let tim3_ccr1: u32 = TIM3_BASEADRESS | TIM_CCR1;
    let v = bank.read(tim3_ccr1);
    bank.write(tim3_ccr1, v | threshold as u32);
}

/// ORs `value` into the prescaler.
pub fn set_prescaler(bank: &mut RegisterBank, value: u16)
    ensures
        final(bank)@ == set_bits(old(bank)@, TIM3_BASEADRESS | TIM_PSC, value as u32),
{
    let tim3_psc: u32 = TIM3_BASEADRESS | TIM_PSC;
    let v = bank.read(tim3_psc);
    bank.write(tim3_psc, v | value as u32);
}

/// Pulses the timer 3 reset bit of RCC_APB1RSTR: sets it, then clears it.
pub fn reset_timer(bank: &mut RegisterBank)
    ensures
        final(bank)@ == reset_timer_effect(old(bank)@),
{
    let rcc_apb1rstr: u32 = 0x4002_1000 | 0x10;
    let existing_value = bank.read(rcc_apb1rstr);
    bank.write(rcc_apb1rstr, existing_value | 0b10);
    let existing_value = bank.read(rcc_apb1rstr);
    bank.write(rcc_apb1rstr, existing_value & !(0b10u32));
}

/// The counter without its top bit, times 125.
pub fn read_value(bank: &RegisterBank) -> (value: u32)
    requires
        (reg(bank@, TIM3_BASEADRESS | 0x24) & !(0b1u32 << 31u32)) * 125 <= u32::MAX,
    ensures
        value == (reg(bank@, TIM3_BASEADRESS | 0x24) & !(0b1u32 << 31u32)) * 125,
{
    let timx_cnt: u32 = TIM3_BASEADRESS | 0x24;
    (bank.read(timx_cnt) & !(0b1u32 << 31u32)) * 125
}

proof fn lemma_flag_masks(v: u32)
    by (bit_vector)
    ensures
        (v & !0b1111u32) & 0b1111 == 0,
        (v & !(0b1u32 << 6u32)) & 0x40 == 0,
{
}

/// Clearing the interrupt flags issues two writes to the status register:
/// the first with the flags of bits 0-3 zero, the second with bit 6 zero
/// (the flags clear when 0 is written to them).
pub proof fn law_clear_uif_writes_zero_flags(s: BusState)
    ensures
        ({
            let sr = sr_address();
            let v = reg(s, sr);
            &&& clear_uif_effect(s).1 == s.1.push((sr, v & !0b1111u32)).push(
                (sr, v & !(0b1u32 << 6u32)),
            )
            &&& (v & !0b1111u32) & 0b1111 == 0
            &&& (v & !(0b1u32 << 6u32)) & 0x40 == 0
        }),
{
    lemma_flag_masks(reg(s, sr_address()));
}

} // verus!
