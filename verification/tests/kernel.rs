use rtos::kernel::{
    enable_gpio_e_leds, enable_serial_printing, light_test_leds, reset_configuration,
    enable_tim3_irq,
    set_pending, setup_clock_system, PendSV, SVCall, SysTick, Tim3Interrupt,
};
use rtos::mmio::RegisterBank;
use rtos::sched::{TaskStates, TaskTable};
use rtos::sys::TrapReason;

const STK_CTRL: u32 = 0xE000_E010;
const ICSR: u32 = 0xE000_ED04;
const TIM3: u32 = 0x4000_0400;

fn three_tasks() -> TaskTable {
    let mut t = TaskTable::new();
    t.insert(0x100);
    t.insert(0x200);
    t.insert(0x300);
    t
}

#[test]
fn clock_system_enables() {
    let mut bank = RegisterBank::new();
    bank.load(0x4002_101C, 0x100);
    setup_clock_system(&mut bank);
    assert_eq!(bank.read(0x4002_1014), (1 << 17) | (1 << 21));
    assert_eq!(bank.read(0x4002_101C), 0x103);
    assert_eq!(bank.read(0x4002_1018), (1 << 14) | 1);
}

#[test]
fn leds_become_outputs() {
    let mut bank = RegisterBank::new();
    enable_gpio_e_leds(&mut bank);
    assert_eq!(bank.read(0x4800_1000), 0x1540_0000);
    assert_eq!(bank.read(0x4800_1004), 0);
    assert_eq!(bank.take_writes().len(), 8);
}

#[test]
fn serial_printing_routes_pa9_to_usart1() {
    let mut bank = RegisterBank::new();
    enable_serial_printing(&mut bank);
    assert_eq!(bank.read(0x4800_0000), 0b10 << 18);
    assert_eq!(bank.read(0x4800_0024), 7 << 4);
    assert_eq!(bank.read(0x4001_380C), 833);
    assert_eq!(bank.read(0x4001_3800), 0b1101);
}

#[test]
fn reset_configuration_then_tim3_interrupt_line() {
    let mut bank = RegisterBank::new();
    reset_configuration(&mut bank);
    assert_eq!(bank.read(0xE000_E100), 0);
    enable_tim3_irq(&mut bank);
    assert_eq!(bank.read(0xE000_E100), 1 << 29);
    assert_eq!(bank.read(TIM3 | 0x28), 1000);
    assert_eq!(bank.read(TIM3 | 0x0C), 0b10);
    assert_eq!(bank.read(TIM3 | 0x14), 1);
    assert_eq!(bank.read(0x4800_1000), 0x1540_0000);
}

#[test]
fn test_leds_are_lit() {
    let mut bank = RegisterBank::new();
    light_test_leds(&mut bank);
    assert_eq!(bank.read(0x4800_0014), 1);
    assert_eq!(bank.read(0x4800_1014), (1 << 9) | (1 << 11) | (1 << 14));
    assert_eq!(bank.read(0x4800_1000), (1 << 18) | (1 << 22) | (1 << 28));
}

#[test]
fn systick_handler_requests_switch() {
    let mut bank = RegisterBank::new();
    bank.load(STK_CTRL, 0b111);
    SysTick(&mut bank);
    assert_eq!(bank.read(STK_CTRL), 0b110);
    assert_eq!(bank.read(ICSR), 1 << 28);
    let mut bank2 = RegisterBank::new();
    set_pending(&mut bank2);
    assert_eq!(bank2.read(ICSR), 1 << 28);
}

#[test]
fn pendsv_switches_and_restarts_systick() {
    let mut bank = RegisterBank::new();
    let mut t = three_tasks();
    assert_eq!(PendSV(&mut bank, &mut t, 0x180), 0x200);
    assert_eq!(t.entry(0).unwrap().sp, 0x180);
    assert_eq!(t.current_task(), 1);
    assert_eq!(bank.read(STK_CTRL), 1);
}

#[test]
fn sleep_trap_programs_timer_and_blocks_task() {
    let mut bank = RegisterBank::new();
    let mut t = three_tasks();
    let print = SVCall(&mut bank, &mut t, TrapReason::Sleep, 500);
    assert!(!print);
    assert_eq!(bank.read(TIM3 | 0x34), 4000);
    assert_eq!(bank.read(TIM3 | 0x14), 1);
    assert_eq!(bank.read(TIM3), 1);
    assert_eq!(bank.read(ICSR), 1 << 28);
    assert_eq!(t.entry(0).unwrap().state, TaskStates::BLOCKED);
    assert_eq!(t.currently_sleeping(), 0);
}

#[test]
fn sleep_trap_truncates_compare_value() {
    let mut bank = RegisterBank::new();
    let mut t = three_tasks();
    SVCall(&mut bank, &mut t, TrapReason::Sleep, 10_000);
    assert_eq!(bank.read(TIM3 | 0x34), (80_000u32 as u16) as u32);
}

#[test]
fn other_traps() {
    let mut t = three_tasks();
    let mut bank = RegisterBank::new();
    assert!(!SVCall(&mut bank, &mut t, TrapReason::YieldTask, 0));
    assert_eq!(bank.read(ICSR), 1 << 28);
    assert_eq!(t.entry(0).unwrap().state, TaskStates::READY);

    let mut bank = RegisterBank::new();
    bank.load(STK_CTRL, 0b111);
    assert!(!SVCall(&mut bank, &mut t, TrapReason::EnableRt, 0));
    assert_eq!(bank.read(STK_CTRL), 0b110);
    assert!(!SVCall(&mut bank, &mut t, TrapReason::DisableRt, 0));
    assert_eq!(bank.read(STK_CTRL), 0b111);

    let mut bank = RegisterBank::new();
    assert!(SVCall(&mut bank, &mut t, TrapReason::WriteStdOut, 0x2000_0000));
    assert_eq!(bank.read(STK_CTRL), 1);

    let mut bank = RegisterBank::new();
    assert!(!SVCall(&mut bank, &mut t, TrapReason::TerminateTask, 0));
    assert_eq!(t.entry(0).unwrap().state, TaskStates::TERMINATED);
    assert_eq!(bank.read(ICSR), 1 << 28);
}

#[test]
fn timer_interrupt_wakes_sleeping_task() {
    let mut bank = RegisterBank::new();
    let mut t = three_tasks();
    SVCall(&mut bank, &mut t, TrapReason::Sleep, 500);
    let sp = PendSV(&mut bank, &mut t, 0x1F0);
    assert_eq!(sp, 0x200);
    bank.load(TIM3 | 0x24, 0x0001_0FA0);
    let sp = Tim3Interrupt(&mut bank, &mut t, 0x2F0);
    assert_eq!(sp, 0x1F0);
    assert_eq!(t.current_task(), 0);
    assert_eq!(t.entry(0).unwrap().state, TaskStates::RUNNING);
    assert_eq!(t.entry(1).unwrap().sp, 0x2F0);
    assert_eq!(bank.read(TIM3) & 1, 0);
    assert_eq!(bank.read(TIM3 | 0x24), 0x0001_0000);
    assert_eq!(bank.read(STK_CTRL) & 1, 1);
}
