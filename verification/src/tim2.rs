//! General-purpose timer 2, used to measure durations.
use crate::mmio::{BusState, RegisterBank, keep_bits, reg, set_bits};
use crate::platform::{RCC, RCC_APB1RSTR, TIM2_BASEADRESS, TIM_CNT};
use vstd::prelude::*;

verus! {

/// The register state after `reset_timer`.
pub open spec fn reset_timer_effect(s: BusState) -> BusState {
    let rst = RCC | RCC_APB1RSTR;
    keep_bits(set_bits(s, rst, 0b1), rst, !0b1u32)
}

/// Starts the counter: sets CEN in CR1.
pub fn start_measurement(bank: &mut RegisterBank)
    ensures
        final(bank)@ == set_bits(old(bank)@, TIM2_BASEADRESS, 0b1),
{
    let v = bank.read(TIM2_BASEADRESS);
    bank.write(TIM2_BASEADRESS, v | 0b1);
}

/// Stops the counter: clears CEN in CR1.
pub fn stop_measurement(bank: &mut RegisterBank)
    ensures
        final(bank)@ == keep_bits(old(bank)@, TIM2_BASEADRESS, !0b1u32),
{
    let v = bank.read(TIM2_BASEADRESS);
    bank.write(TIM2_BASEADRESS, v & !(0b1u32));
}

/// Pulses the timer 2 reset bit of RCC_APB1RSTR: sets it, then clears it.
pub fn reset_timer(bank: &mut RegisterBank)
    ensures
        final(bank)@ == reset_timer_effect(old(bank)@),
{
    let rcc_apb1rstr: u32 = RCC | RCC_APB1RSTR;
    let existing_value = bank.read(rcc_apb1rstr);
    bank.write(rcc_apb1rstr, existing_value | 0b1);
    let existing_value = bank.read(rcc_apb1rstr);
    bank.write(rcc_apb1rstr, existing_value & !(0b1u32));
}

/// The counter without its top bit, times 125.
pub fn read_value(bank: &RegisterBank) -> (value: u32)
    requires
        (reg(bank@, TIM2_BASEADRESS | TIM_CNT) & !(0b1u32 << 31u32)) * 125 <= u32::MAX,
    ensures
        value == (reg(bank@, TIM2_BASEADRESS | TIM_CNT) & !(0b1u32 << 31u32)) * 125,
{
    let timx_cnt: u32 = TIM2_BASEADRESS | TIM_CNT;
    (bank.read(timx_cnt) & !(0b1u32 << 31u32)) * 125
}

} // verus!
