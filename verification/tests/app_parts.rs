use rtos::dp::Peripherals;
use rtos::mmio::RegisterBank;
use rtos::svc::{sprint_buffer, SvcResult};
use rtos::user::fibonacci;

#[test]
fn serial_token_taken_once() {
    let mut p = Peripherals::new();
    let serial = p.take_serial();
    let mut bank = RegisterBank::new();
    let mut ahb1 = serial.ahb1();
    ahb1.rcc(&mut bank, |rcc, mut b| {
        rcc.iopeen(&mut b);
        b
    });
    assert_eq!(bank.read(0x4002_1014), 1 << 21);
    let g = serial.ahb2().gpioe();
    assert_eq!(g.moder, 0x4800_1000);
    assert_eq!(g.odr, 0x4800_1014);
    assert_eq!(g.brr, 0x4800_1028);
    bank.write(g.odr, 1 << 13);
    assert_eq!(bank.read(0x4800_1014), 1 << 13);
}

#[test]
fn sprint_buffer_pads_with_zeros() {
    let b = sprint_buffer("Task 1: Started\n");
    assert_eq!(b.len(), 32);
    assert_eq!(&b[..16], "Task 1: Started\n".as_bytes());
    assert!(b[16..].iter().all(|c| *c == 0));
}

#[test]
fn sprint_buffer_truncates_long_text() {
    let text = "0123456789abcdefghijklmnopqrstuvwxyz";
    let b = sprint_buffer(text);
    assert_eq!(&b[..], &text.as_bytes()[..32]);
}

#[test]
fn svc_results_compare() {
    assert_eq!(SvcResult::Char(b'8'), SvcResult::Char(56));
    assert_ne!(SvcResult::Empty, SvcResult::Char(0));
}

#[test]
fn fibonacci_values() {
    assert_eq!(fibonacci(0), 1);
    assert_eq!(fibonacci(1), 1);
    assert_eq!(fibonacci(2), 2);
    assert_eq!(fibonacci(10), 89);
    assert_eq!(fibonacci(21), 17711);
    assert_eq!(fibonacci(22), 28657);
}
