//! A verified model of a small Cortex-M4 real-time kernel: memory-mapped
//! peripheral drivers over a register bank, and a round-robin task table.
pub mod cp;
pub mod dp;
pub mod gpio;
pub mod kernel;
pub mod mmio;
pub mod platform;
pub mod sched;
pub mod svc;
pub mod sys;
pub mod systick;
pub mod tim2;
pub mod tim3;
pub mod uart;
pub mod user;
