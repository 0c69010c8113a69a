//! Addresses, register offsets and bit positions of the STM32F303 and of the
//! Cortex-M4 core.
use vstd::prelude::*;

verus! {

/// Core clock in Hz.
pub const CLOCK: u32 = 8_000_000;

/// System control block.
pub const SCB: u32 = 0xE000_ED00;

/// SysTick timer.
pub const STK: u32 = 0xE000_E010;

/// Interrupt control and state register, offset in the SCB.
pub const SCB_ICSR: u32 = 0x04;

/// SysTick control and status register, offset in the SysTick block.
pub const STK_CTRL: u32 = 0x00;

/// SysTick reload value register.
pub const STK_LOAD: u32 = 0x04;

/// SysTick current value register.
pub const STK_VAL: u32 = 0x08;

/// SysTick calibration value register.
pub const STK_CALIB: u32 = 0x0C;

/// PENDSVSET bit of ICSR.
pub const ICSR_PENDSVSET: u32 = 28;

/// ENABLE bit of the SysTick control register.
pub const STK_ENABLE: u32 = 0b1;

/// Nested vectored interrupt controller, interrupt set-enable register 0.
pub const NVIC_ISER: u32 = 0xE000_E100;

pub const TIM2_BASEADRESS: u32 = 0x4000_0000;

pub const TIM3_BASEADRESS: u32 = 0x4000_0400;

pub const USART1_BASEADRESS: u32 = 0x4001_3800;

/// Reset and clock control.
pub const RCC: u32 = 0x4002_1000;

pub const RCC_APB1RSTR: u32 = 0x10;

pub const RCC_AHBENR: u32 = 0x14;

pub const RCC_APB2ENR: u32 = 0x18;

pub const RCC_APB1ENR: u32 = 0x1C;

/// USART transmit data register.
pub const USART1_TDR: u32 = 0x28;

/// USART interrupt and status register.
pub const USART1_ISR: u32 = 0x1C;

/// Timer DMA/interrupt enable register.
pub const TIM_DIER: u32 = 0x0C;

/// Timer event generation register.
pub const TIM_EGR: u32 = 0x14;

/// Timer counter.
pub const TIM_CNT: u32 = 0x24;

/// Timer prescaler.
pub const TIM_PSC: u32 = 0x28;

/// Timer capture/compare register 1.
pub const TIM_CCR1: u32 = 0x34;

/// Clock enable bit of GPIO port A in RCC_AHBENR.
pub const IOPAEN: u32 = 17;

/// Clock enable bit of GPIO port E in RCC_AHBENR.
pub const IOPEEN: u32 = 21;

/// Clock enable bit of USART1 in RCC_APB2ENR.
pub const USART1EN: u32 = 14;

} // verus!
