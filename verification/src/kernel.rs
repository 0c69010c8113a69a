//! The kernel's start-up configuration and its exception handlers: what
//! each of them writes to the peripherals and does to the task table.
use crate::gpio::{
    GPIOA_BASE, GPIOE_BASE, GpioX, ModerTypes, OutputState, OutputTypes, af_effect,
    bit, field2, field4, law_af_sets_field, law_moder_sets_field, law_push_pull_clears_pin,
    lemma_one_ascii_char, moder_effect, odr_effect, otyper_effect,
};
use crate::mmio::{BusState, RegisterBank, keep_bits, put, reg, set_bits};
use crate::platform::{
    CLOCK, NVIC_ISER, RCC, RCC_AHBENR, RCC_APB1ENR, RCC_APB2ENR, STK, STK_CTRL, STK_ENABLE,
    TIM3_BASEADRESS, TIM_CCR1, TIM_DIER, TIM_EGR, TIM_PSC, USART1_BASEADRESS,
};
use crate::sched::{TaskStates, TaskTable, has_runnable};
use crate::sys::TrapReason;
use crate::tim3::clear_uif_effect;
use crate::uart::{enable_effect, law_enable_sets_baud};
use crate::{systick, tim3, uart};
use vstd::prelude::*;

verus! {

/// Interrupt control and state register of the system control block.
pub const ICSR_ADDRESS: u32 = 0xE000ED04 | 0x04;

/// Baud rate of the console.
pub const CONSOLE_BAUD: u32 = 9600;

/// Prescaler of timer 3.
pub const TIM3_PRESCALER: u16 = 1000;

/// The register state after `set_pending`: PENDSVSET set in ICSR.
pub open spec fn pending_effect(s: BusState) -> BusState {
    set_bits(s, ICSR_ADDRESS, 0b1u32 << 28u32)
}

/// The register state after `disable_systick`.
pub open spec fn systick_off(s: BusState) -> BusState {
    keep_bits(s, STK | STK_CTRL, !STK_ENABLE)
}

/// The register state after `enable_systick`.
pub open spec fn systick_on(s: BusState) -> BusState {
    set_bits(s, STK | STK_CTRL, STK_ENABLE)
}

/// The register state after `setup_clock_system`: AHBENR holds the clock
/// enables of ports A and E; TIM2 and TIM3 are enabled in APB1ENR; USART1
/// and SYSCFG are enabled in APB2ENR.
pub open spec fn clock_effect(s: BusState) -> BusState {
    let s1 = put(s, RCC | RCC_AHBENR, (1u32 << 17u32) | (1u32 << 21u32));
    let s2 = set_bits(s1, RCC | RCC_APB1ENR, 0b11);
    set_bits(s2, RCC | RCC_APB2ENR, (0b1u32 << 14u32) | 0b1)
}

/// The register state after one LED pin of port E is made a push-pull output.
pub open spec fn led_effect(s: BusState, pin: u8) -> BusState {
    otyper_effect(
        moder_effect(s, GPIOE_BASE, pin, ModerTypes::GeneralPurposeOutputMode),
        GPIOE_BASE,
        pin,
        OutputTypes::PushPull,
    )
}

/// The register state after `enable_gpio_e_leds`: pins 11, 12, 14 and 13
/// of port E made push-pull outputs, in this order.
pub open spec fn leds_effect(s: BusState) -> BusState {
    led_effect(led_effect(led_effect(led_effect(s, 11), 12), 14), 13)
}

/// The register state after `enable_serial_printing`: PA9 in alternate
/// function 7 (USART1 TX), push-pull, and USART1 enabled at 9600 baud.
pub open spec fn serial_effect(s: BusState) -> BusState {
    let s1 = moder_effect(s, GPIOA_BASE, 9, ModerTypes::AlternateFunctionMode);
    let s2 = otyper_effect(s1, GPIOA_BASE, 9, OutputTypes::PushPull);
    let s3 = af_effect(s2, GPIOA_BASE, 9, 7);
    enable_effect(s3, USART1_BASEADRESS, CONSOLE_BAUD)
}

/// The register state after the timer 3 set-up of the reset handler:
/// prescaler, update generation, flags cleared, update events enabled and
/// the compare interrupt enabled.
pub open spec fn tim3_setup_effect(s: BusState) -> BusState {
    let s1 = set_bits(s, TIM3_BASEADRESS | TIM_PSC, TIM3_PRESCALER as u32);
    let s2 = set_bits(s1, TIM3_BASEADRESS | TIM_EGR, 0b1);
    let s3 = clear_uif_effect(s2);
    let s4 = keep_bits(s3, TIM3_BASEADRESS, !0b10u32);
    set_bits(s4, TIM3_BASEADRESS | TIM_DIER, 0b10)
}

/// The register state after the peripheral configuration that the reset
/// handler performs before it prints its banner: clocks, LEDs, console and
/// timer 3.
pub open spec fn reset_effect(s: BusState) -> BusState {
    tim3_setup_effect(serial_effect(leds_effect(clock_effect(s))))
}

/// The register state after the timer 3 interrupt (line 29) is enabled in
/// the NVIC.
pub open spec fn tim3_irq_enabled_effect(s: BusState) -> BusState {
    set_bits(s, NVIC_ISER, 0b1u32 << 29u32)
}

/// The register state after a sleep of `ms` milliseconds was programmed:
/// `ms * 8` (truncated to 16 bits) ORed into CCR1, UG set, the counter
/// started.
pub open spec fn sleep_timer_effect(s: BusState, ms: u32) -> BusState {
    let s1 = set_bits(s, TIM3_BASEADRESS | TIM_CCR1, ((ms * 8) as u16) as u32);
    let s2 = set_bits(s1, TIM3_BASEADRESS | TIM_EGR, 0b1);
    set_bits(s2, TIM3_BASEADRESS, 0b1)
}

/// The register state after the timer 3 interrupt: SysTick stopped, the
/// timer stopped, its flags cleared, its counter's low half cleared, and
/// SysTick running again.
pub open spec fn tim3_irq_effect(s: BusState) -> BusState {
    let s1 = keep_bits(systick_off(s), TIM3_BASEADRESS, !0b1u32);
    let s2 = keep_bits(clear_uif_effect(s1), TIM3_BASEADRESS | 0x24, !0xFFFFu32);
    systick_on(s2)
}

/// Turns on the clocks of GPIO ports A and E, of TIM2 and TIM3, and of
/// USART1 and SYSCFG.
pub fn setup_clock_system(bank: &mut RegisterBank)
    ensures
        final(bank)@ == clock_effect(old(bank)@),
{
    let rcc_ahbenr: u32 = 0x40021000 | 0x14;
    bank.write(rcc_ahbenr, 1u32 << 17u32 | 1u32 << 21u32);
    let rcc_apb1enr: u32 = 0x40021000 | 0x1C;
    let existing_value = bank.read(rcc_apb1enr);
    bank.write(rcc_apb1enr, existing_value | 0b11);
    let rcc_apb2enr: u32 = 0x4002_1000 | 0x18;
    let existing_value = bank.read(rcc_apb2enr);
    bank.write(rcc_apb2enr, existing_value | (0b1u32 << 14u32 | 0b1));
}

/// The pin `pin` of port E.
fn port_e_pin(pin: u8) -> (g: GpioX)
    ensures
        g.base() == GPIOE_BASE,
        g.pin() == pin,
{
    let e = "E";
    proof {
        reveal_strlit("E");
        lemma_one_ascii_char(e, 'E');
        assert('E' as u8 == 0x45u8);
    }
    GpioX::new(e, pin)
}

/// Makes one LED pin of port E a push-pull output.
fn enable_led(bank: &mut RegisterBank, pin: u8)
    requires
        pin < 16,
    ensures
        final(bank)@ == led_effect(old(bank)@, pin),
{
    let port = port_e_pin(pin);
    port.set_moder(bank, ModerTypes::GeneralPurposeOutputMode);
    port.set_otyper(bank, OutputTypes::PushPull);
}

/// Makes the pins of the LEDs PE11, PE12, PE14 and PE13 push-pull outputs.
pub fn enable_gpio_e_leds(bank: &mut RegisterBank)
    ensures
        final(bank)@ == leds_effect(old(bank)@),
{
    enable_led(bank, 11);
    enable_led(bank, 12);
    enable_led(bank, 14);
    enable_led(bank, 13);
}

/// Routes USART1 TX to PA9 and enables USART1 at 9600 baud.
pub fn enable_serial_printing(bank: &mut RegisterBank)
    ensures
        final(bank)@ == serial_effect(old(bank)@),
{
    let a = "A";
    proof {
        reveal_strlit("A");
        lemma_one_ascii_char(a, 'A');
    }
    let gpio_port_a0 = GpioX::new(a, 9);
    gpio_port_a0.set_moder(bank, ModerTypes::AlternateFunctionMode);
    gpio_port_a0.set_otyper(bank, OutputTypes::PushPull);
    gpio_port_a0.into_af(bank, 7);
    let usart1 = uart::new(1, CONSOLE_BAUD);
    usart1.enable(bank);
}

/// The register state after one pin is made a push-pull output driven high.
pub open spec fn lit_pin_effect(s: BusState, base: u32, pin: u8) -> BusState {
    let s1 = moder_effect(s, base, pin, ModerTypes::GeneralPurposeOutputMode);
    odr_effect(otyper_effect(s1, base, pin, OutputTypes::PushPull), base, pin, OutputState::High)
}

/// The register state after `light_test_leds`: the clocks of ports A and E
/// on, then PA0, PE9, PE11 and PE14 push-pull outputs driven high.
pub open spec fn test_leds_effect(s: BusState) -> BusState {
    let s1 = put(s, RCC | RCC_AHBENR, (1u32 << 17u32) | (1u32 << 21u32));
    let s2 = lit_pin_effect(s1, GPIOA_BASE, 0);
    lit_pin_effect(lit_pin_effect(lit_pin_effect(s2, GPIOE_BASE, 9), GPIOE_BASE, 11), GPIOE_BASE, 14)
}

/// Makes `port` a push-pull output and drives it high.
fn light_pin(bank: &mut RegisterBank, port: &GpioX)
    requires
        port.pin() < 16,
    ensures
        final(bank)@ == lit_pin_effect(old(bank)@, port.base(), port.pin()),
{
    port.set_moder(bank, ModerTypes::GeneralPurposeOutputMode);
    port.set_otyper(bank, OutputTypes::PushPull);
    port.set_odr(bank, OutputState::High);
}

/// The start-up of the bare LED test image: turns on the clocks of GPIO
/// ports A and E, and lights PA0, PE9, PE11 and PE14.
pub fn light_test_leds(bank: &mut RegisterBank)
    ensures
        final(bank)@ == test_leds_effect(old(bank)@),
{
    let rcc_ahbenr: u32 = 0x40021000 | 0x14;
    bank.write(rcc_ahbenr, 1u32 << 17u32 | 1u32 << 21u32);
    let a = "A";
    proof {
        reveal_strlit("A");
        lemma_one_ascii_char(a, 'A');
    }
    let gpioa_0 = GpioX::new(a, 0);
    light_pin(bank, &gpioa_0);
    light_pin(bank, &port_e_pin(9));
    light_pin(bank, &port_e_pin(11));
    light_pin(bank, &port_e_pin(14));
}

/// Requests the PendSV exception, which switches tasks.
pub fn set_pending(bank: &mut RegisterBank)
    ensures
        final(bank)@ == pending_effect(old(bank)@),
{
    let icsr_pendsvset: u32 = 0xE000ED04 | 0x04;
    let existing_value = bank.read(icsr_pendsvset);
    bank.write(icsr_pendsvset, existing_value | (0b1u32 << 28u32));
}

/// The peripheral configuration that the reset handler performs before it
/// prints its banner and initialises memory: clocks, LEDs, console and
/// timer 3.
pub fn reset_configuration(bank: &mut RegisterBank)
    ensures
        final(bank)@ == reset_effect(old(bank)@),
{
    setup_clock_system(bank);
    enable_gpio_e_leds(bank);
    enable_serial_printing(bank);
    tim3::set_prescaler(bank, TIM3_PRESCALER);
    tim3::set_ug(bank);
    tim3::clear_uif(bank);
    tim3::clear_udis(bank);
    tim3::enable_interrupt(bank);
}

/// The last step of the reset handler, after the banner and the memory
/// initialisation: enables the timer 3 interrupt (line 29) in the NVIC.
pub fn enable_tim3_irq(bank: &mut RegisterBank)
    ensures
        final(bank)@ == tim3_irq_enabled_effect(old(bank)@),
{
    let nvic_iser: u32 = 0xE000E100;
    let existing_value = bank.read(nvic_iser);
    bank.write(nvic_iser, existing_value | 0b1u32 << 29u32);
}

/// SysTick exception: stops SysTick and requests a task switch.
#[allow(non_snake_case)]
pub fn SysTick(bank: &mut RegisterBank)
    ensures
        final(bank)@ == pending_effect(systick_off(old(bank)@)),
{
    systick::disable_systick(bank);
    set_pending(bank);
}

/// PendSV exception: saves `psp` for the running task, hands the processor
/// round robin to the next runnable task, whose saved stack pointer it
/// returns, and restarts SysTick.
#[allow(non_snake_case)]
pub fn PendSV(bank: &mut RegisterBank, table: &mut TaskTable, psp: u32) -> (sp: u32)
    requires
        old(table).wf(),
        old(table).entries().len() > 0,
        has_runnable(old(table).entries()),
    ensures
        final(bank)@ == systick_on(old(bank)@),
        final(table).wf(),
        TaskTable::preempted(*old(table), *final(table), psp, sp),
{
    let sp = table.context_switch(psp);
    systick::enable_systick(bank);
    sp
}

/// Timer 3 interrupt, raised when a sleep is over: stops the timer, clears
/// its flags and counter, saves `psp` for the running task and makes the
/// sleeping task the running one, returning its saved stack pointer.
#[allow(non_snake_case)]
pub fn Tim3Interrupt(bank: &mut RegisterBank, table: &mut TaskTable, psp: u32) -> (sp: u32)
    requires
        old(table).wf(),
    ensures
        final(bank)@ == tim3_irq_effect(old(bank)@),
        final(table).wf(),
        TaskTable::resumed_sleeper(*old(table), *final(table), psp, sp),
{
    systick::disable_systick(bank);
    tim3::stop(bank);
    tim3::clear_uif(bank);
    tim3::flush(bank);
    let sp = table.priority_schedule(psp);
    systick::enable_systick(bank);
    sp
}

/// The register state after a supervisor call for `reason` with `payload`.
pub open spec fn trap_effect(s: BusState, reason: TrapReason, payload: u32) -> BusState {
    match reason {
        TrapReason::Sleep => pending_effect(sleep_timer_effect(s, payload)),
        TrapReason::YieldTask => pending_effect(s),
        TrapReason::TerminateTask => pending_effect(s),
        TrapReason::EnableRt => systick_off(s),
        TrapReason::DisableRt => systick_on(s),
        TrapReason::WriteStdOut => systick_on(s),
    }
}

/// Supervisor call: serves the trap `reason` of the running task. For a
/// sleep, `payload` is the time to sleep; the result tells whether the
/// zero-terminated string that `payload` points to is to be written to the
/// console, which is the case exactly for `WriteStdOut`.
#[allow(non_snake_case)]
pub fn SVCall(bank: &mut RegisterBank, table: &mut TaskTable, reason: TrapReason, payload: u32) -> (print: bool)
    requires
        old(table).wf(),
        reason == TrapReason::Sleep ==> payload * 8 <= u32::MAX,
    ensures
        final(bank)@ == trap_effect(old(bank)@, reason, payload),
        final(table).wf(),
        reason == TrapReason::Sleep ==> TaskTable::marked_sleeping(*old(table), *final(table)),
        reason == TrapReason::TerminateTask ==> TaskTable::state_set(
            *old(table),
            *final(table),
            TaskStates::TERMINATED,
        ),
        reason != TrapReason::Sleep && reason != TrapReason::TerminateTask ==> *final(table)
            == *old(table),
        print == (reason == TrapReason::WriteStdOut),
{
    match reason {
        TrapReason::Sleep => {
            let time_to_sleep = payload;
            tim3::set_ccr(bank, (time_to_sleep * 8) as u16);
            tim3::set_ug(bank);
            table.mark_self_as_sleeping();
            tim3::start(bank);
            set_pending(bank);
            false
        },
        TrapReason::YieldTask => {
            set_pending(bank);
            false
        },
        TrapReason::TerminateTask => {
            table.terminate_task();
            set_pending(bank);
            false
        },
        TrapReason::EnableRt => {
            systick::disable_systick(bank);
            false
        },
        TrapReason::DisableRt => {
            systick::enable_systick(bank);
            false
        },
        TrapReason::WriteStdOut => {
            systick::enable_systick(bank);
            true
        },
    }
}

/// The addresses that the handlers touch, as numbers.
proof fn lemma_addresses()
    ensures
        STK | STK_CTRL == 0xE000_E010u32,
        TIM3_BASEADRESS | TIM_CCR1 == 0x4000_0434u32,
        TIM3_BASEADRESS | TIM_EGR == 0x4000_0414u32,
        TIM3_BASEADRESS | 0x10 == 0x4000_0410u32,
        TIM3_BASEADRESS | 0x24 == 0x4000_0424u32,
        ICSR_ADDRESS == 0xE000_ED04u32,
{
    assert(0xE000_E010u32 | 0x00u32 == 0xE000_E010u32) by (bit_vector);
    assert(0x4000_0400u32 | 0x34u32 == 0x4000_0434u32) by (bit_vector);
    assert(0x4000_0400u32 | 0x14u32 == 0x4000_0414u32) by (bit_vector);
    assert(0x4000_0400u32 | 0x10u32 == 0x4000_0410u32) by (bit_vector);
    assert(0x4000_0400u32 | 0x24u32 == 0x4000_0424u32) by (bit_vector);
    assert(0xE000ED04u32 | 0x04u32 == 0xE000_ED04u32) by (bit_vector);
}

proof fn lemma_enable_bit(v: u32)
    by (bit_vector)
    ensures
        (v & !1u32) & 1 == 0,
        (v | 1u32) & 1 == 1,
        ((v & !1u32) & !1u32) == (v & !1u32),
        ((v | 1u32) & !1u32) == (v & !1u32),
{
}

proof fn lemma_low_half(v: u32)
    by (bit_vector)
    ensures
        (v & !0xFFFFu32) & 0xFFFF == 0,
        (v & !0xFFFFu32) >> 16 == v >> 16,
{
}

proof fn lemma_or_contains(v: u32, c: u32)
    by (bit_vector)
    ensures
        (v | c) & c == c,
        ((v | (1u32 << 28u32)) >> 28u32) & 1 == 1,
{
}

/// The real-time traps switch preemption: after `EnableRt` the SysTick
/// counter is stopped (ENABLE clear), after `DisableRt` and `WriteStdOut`
/// it runs (ENABLE set); the other bits of its control register are kept.
pub proof fn law_rt_traps_switch_preemption(s: BusState, payload: u32)
    ensures
        reg(trap_effect(s, TrapReason::EnableRt, payload), STK | STK_CTRL) & 1 == 0,
        reg(trap_effect(s, TrapReason::DisableRt, payload), STK | STK_CTRL) & 1 == 1,
        reg(trap_effect(s, TrapReason::WriteStdOut, payload), STK | STK_CTRL) & 1 == 1,
        reg(trap_effect(s, TrapReason::EnableRt, payload), STK | STK_CTRL) & !1u32 == reg(
            s,
            STK | STK_CTRL,
        ) & !1u32,
        reg(trap_effect(s, TrapReason::DisableRt, payload), STK | STK_CTRL) & !1u32 == reg(
            s,
            STK | STK_CTRL,
        ) & !1u32,
{
    lemma_enable_bit(reg(s, STK | STK_CTRL));
}

/// A sleep trap programs the compare value `ms * 8` into CCR1, starts
/// timer 3, and requests a task switch.
pub proof fn law_sleep_trap_starts_timer(s: BusState, ms: u32)
    requires
        ms * 8 <= u32::MAX,
    ensures
        ({
            let after = trap_effect(s, TrapReason::Sleep, ms);
            let c = ((ms * 8) as u16) as u32;
            &&& reg(after, TIM3_BASEADRESS | TIM_CCR1) & c == c
            &&& reg(after, TIM3_BASEADRESS) & 1 == 1
            &&& (reg(after, ICSR_ADDRESS) >> 28u32) & 1 == 1
        }),
{
    lemma_addresses();
    let c = ((ms * 8) as u16) as u32;
    lemma_or_contains(reg(s, TIM3_BASEADRESS | TIM_CCR1), c);
    let s2 = set_bits(
        set_bits(s, TIM3_BASEADRESS | TIM_CCR1, c),
        TIM3_BASEADRESS | TIM_EGR,
        0b1,
    );
    lemma_enable_bit(reg(s2, TIM3_BASEADRESS));
    lemma_or_contains(reg(sleep_timer_effect(s, ms), ICSR_ADDRESS), 0);
}

/// When a sleep is over, the timer 3 interrupt leaves the timer stopped,
/// the low half of its counter 0, and SysTick running.
pub proof fn law_timer_irq_stops_timer(s: BusState)
    ensures
        ({
            let after = tim3_irq_effect(s);
            &&& reg(after, TIM3_BASEADRESS) & 1 == 0
            &&& reg(after, TIM3_BASEADRESS | 0x24) & 0xFFFF == 0
            &&& reg(after, STK | STK_CTRL) & 1 == 1
        }),
{
    lemma_addresses();
    let s1 = keep_bits(systick_off(s), TIM3_BASEADRESS, !0b1u32);
    lemma_enable_bit(reg(systick_off(s), TIM3_BASEADRESS));
    lemma_low_half(reg(clear_uif_effect(s1), TIM3_BASEADRESS | 0x24));
    let s2 = keep_bits(clear_uif_effect(s1), TIM3_BASEADRESS | 0x24, !0xFFFFu32);
    lemma_enable_bit(reg(s2, STK | STK_CTRL));
}

/// The console set-up makes PA9 an alternate-function pin (MODER field 9
/// becomes 0b10 where it was clear) that is push-pull (bit 9 of GPIOA OTYPER
/// is 0) and carries AF7, USART1 TX (field 1 of AFRH is 7); USART1 gets the
/// divisor 833 for 9600 baud and has TE, RE and UE set.
pub proof fn law_serial_setup_pa9_usart1(s: BusState)
    ensures
        ({
            let after = serial_effect(s);
            &&& bit(reg(after, 0x4800_0004u32), 9) == 0
            &&& field4(reg(after, 0x4800_0024u32), 1) == 7
            &&& field2(reg(s, 0x4800_0000u32), 9) == 0 ==> field2(reg(after, 0x4800_0000u32), 9)
                == 0b10
            &&& reg(after, 0x4001_380Cu32) == 833
            &&& reg(after, 0x4001_3800u32) & 0b1101 == 0b1101
        }),
{
    assert(0x4800_0000u32 | 0x00u32 == 0x4800_0000u32) by (bit_vector);
    assert(0x4800_0000u32 | 0x04u32 == 0x4800_0004u32) by (bit_vector);
    assert(0x4800_0000u32 | 0x24u32 == 0x4800_0024u32) by (bit_vector);
    assert(0x4001_3800u32 | 0x0Cu32 == 0x4001_380Cu32) by (bit_vector);
    let s1 = moder_effect(s, GPIOA_BASE, 9, ModerTypes::AlternateFunctionMode);
    let s2 = otyper_effect(s1, GPIOA_BASE, 9, OutputTypes::PushPull);
    let s3 = af_effect(s2, GPIOA_BASE, 9, 7);
    if field2(reg(s, 0x4800_0000u32), 9) == 0 {
        law_moder_sets_field(s, GPIOA_BASE, 9, ModerTypes::AlternateFunctionMode);
    }
    law_push_pull_clears_pin(s1, GPIOA_BASE, 9);
    law_af_sets_field(s2, GPIOA_BASE, 9, 7);
    law_enable_sets_baud(s3, USART1_BASEADRESS, CONSOLE_BAUD);
    assert(CLOCK / CONSOLE_BAUD == 833);
}

proof fn lemma_led_registers(m: u32, o: u32)
    by (bit_vector)
    ensures
        ({
            let o4 = (((o & (!1u32 << 11u32)) & (!1u32 << 12u32)) & (!1u32 << 14u32)) & (!1u32
                << 13u32);
            &&& (o4 >> 11u32) & 1 == 0
            &&& (o4 >> 12u32) & 1 == 0
            &&& (o4 >> 13u32) & 1 == 0
            &&& (o4 >> 14u32) & 1 == 0
            &&& (o4 >> 15u32) == (o >> 15u32)
        }),
        ({
            let m4 = (((m | (1u32 << 22u32)) | (1u32 << 24u32)) | (1u32 << 28u32)) | (1u32
                << 26u32);
            (m >> 22u32) & 0xFF == 0 ==> (m4 >> 22u32) & 0xFF == 0b0101_0101
        }),
{
}

/// The LED set-up makes PE11 to PE14 push-pull (bits 11 to 14 of GPIOE
/// OTYPER are 0; the bits of pins 15 and up keep their values) and, where
/// their MODER fields were clear, general-purpose outputs (each of MODER
/// fields 11 to 14 becomes 0b01).
pub proof fn law_leds_setup(s: BusState)
    ensures
        ({
            let after = leds_effect(s);
            let o = reg(after, 0x4800_1004u32);
            let m = reg(after, 0x4800_1000u32);
            &&& bit(o, 11) == 0 && bit(o, 12) == 0 && bit(o, 13) == 0 && bit(o, 14) == 0
            &&& o >> 15u32 == reg(s, 0x4800_1004u32) >> 15u32
            &&& (reg(s, 0x4800_1000u32) >> 22u32) & 0xFF == 0 ==> field2(m, 11) == 0b01
                && field2(m, 12) == 0b01 && field2(m, 13) == 0b01 && field2(m, 14) == 0b01
        }),
{
    assert(0x4800_1000u32 | 0x00u32 == 0x4800_1000u32) by (bit_vector);
    assert(0x4800_1000u32 | 0x04u32 == 0x4800_1004u32) by (bit_vector);
    let m0 = reg(s, 0x4800_1000u32);
    let o0 = reg(s, 0x4800_1004u32);
    lemma_led_registers(m0, o0);
    let m4 = (((m0 | (1u32 << 22u32)) | (1u32 << 24u32)) | (1u32 << 28u32)) | (1u32 << 26u32);
    assert(reg(leds_effect(s), 0x4800_1000u32) == m4);
    if (m0 >> 22u32) & 0xFF == 0 {
        assert(field2(m4, 11) == 0b01 && field2(m4, 12) == 0b01 && field2(m4, 13) == 0b01
            && field2(m4, 14) == 0b01) by (bit_vector)
            requires
                (m4 >> 22u32) & 0xFF == 0b0101_0101,
        ;
    }
}

} // verus!
