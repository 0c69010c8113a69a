use rtos::cp::{trigger_PendSV, SystemTimer};
use rtos::gpio::{GpioX, ModerTypes, OutputState, OutputTypes};
use rtos::mmio::RegisterBank;
use rtos::systick::{disable_systick, enable_systick, STK};
use rtos::{tim2, tim3, uart};

const TIM3: u32 = 0x4000_0400;
const TIM2: u32 = 0x4000_0000;

#[test]
fn tim3_start_and_stop_toggle_cen() {
    let mut bank = RegisterBank::new();
    bank.load(TIM3, 0b1000_0010);
    tim3::start(&mut bank);
    assert_eq!(bank.read(TIM3), 0b1000_0011);
    tim3::clear_udis(&mut bank);
    assert_eq!(bank.read(TIM3), 0b1000_0001);
    tim3::stop(&mut bank);
    assert_eq!(bank.read(TIM3), 0b1000_0000);
}

#[test]
fn tim3_flush_clears_low_half_of_counter() {
    let mut bank = RegisterBank::new();
    bank.load(TIM3 | 0x24, 0x8001_2345);
    tim3::flush(&mut bank);
    assert_eq!(bank.read(TIM3 | 0x24), 0x8001_0000);
}

#[test]
fn tim3_clear_uif_writes_twice() {
    let mut bank = RegisterBank::new();
    bank.load(TIM3 | 0x10, 0x5F);
    tim3::clear_uif(&mut bank);
    assert_eq!(bank.take_writes(), vec![(TIM3 | 0x10, 0x50), (TIM3 | 0x10, 0x1F)]);
    assert_eq!(bank.read(TIM3 | 0x10), 0x1F);
}

#[test]
fn tim3_configuration_registers() {
    let mut bank = RegisterBank::new();
    tim3::set_ug(&mut bank);
    tim3::enable_interrupt(&mut bank);
    tim3::set_ccr(&mut bank, 4000);
    tim3::set_prescaler(&mut bank, 1000);
    assert_eq!(bank.read(TIM3 | 0x14), 1);
    assert_eq!(bank.read(TIM3 | 0x0C), 2);
    assert_eq!(bank.read(TIM3 | 0x34), 4000);
    assert_eq!(bank.read(TIM3 | 0x28), 1000);
    // set_ccr ORs into the register
    tim3::set_ccr(&mut bank, 0x0F);
    assert_eq!(bank.read(TIM3 | 0x34), 4000 | 0x0F);
}

#[test]
fn tim3_reset_pulses_reset_bit() {
    let mut bank = RegisterBank::new();
    bank.load(0x4002_1010, 0x100);
    tim3::reset_timer(&mut bank);
    assert_eq!(bank.take_writes(), vec![(0x4002_1010, 0x102), (0x4002_1010, 0x100)]);
}

#[test]
fn tim3_read_value_scales_counter() {
    let mut bank = RegisterBank::new();
    bank.load(TIM3 | 0x24, 0x8000_0010);
    assert_eq!(tim3::read_value(&bank), 16 * 125);
}

#[test]
fn tim2_measurement() {
    let mut bank = RegisterBank::new();
    tim2::start_measurement(&mut bank);
    assert_eq!(bank.read(TIM2), 1);
    tim2::stop_measurement(&mut bank);
    assert_eq!(bank.read(TIM2), 0);
    bank.load(TIM2 | 0x24, 0x8000_0003);
    assert_eq!(tim2::read_value(&bank), 375);
    bank.load(0x4002_1010, 0x6);
    tim2::reset_timer(&mut bank);
    let w = bank.take_writes();
    assert_eq!(&w[w.len() - 2..], &[(0x4002_1010, 0x7), (0x4002_1010, 0x6)]);
}

#[test]
fn uart_enable_programs_baud_and_enables() {
    let mut bank = RegisterBank::new();
    let u = uart::new(1, 9600);
    u.enable(&mut bank);
    assert_eq!(bank.read(0x4001_380C), 833);
    assert_eq!(bank.read(0x4001_3800), 0b1101);
    assert_eq!(
        bank.take_writes(),
        vec![(0x4001_380C, 833), (0x4001_3800, 0b1100), (0x4001_3800, 0b1101)]
    );
}

#[test]
fn uart_any_bus_is_usart1() {
    let mut bank = RegisterBank::new();
    uart::new(3, 115200).enable(&mut bank);
    assert_eq!(bank.read(0x4001_380C), 69);
}

#[test]
fn dec_frame_of_zero_is_all_zero() {
    assert_eq!(uart::dec_frame(0), vec![0u32; 32]);
}

#[test]
fn dec_frame_sends_digits_most_significant_first() {
    let f = uart::dec_frame(1234);
    assert_eq!(f.len(), 32);
    assert!(f[..28].iter().all(|w| *w == 0));
    assert_eq!(&f[28..], &[0x31, 0x32, 0x33, 0x34]);
}

#[test]
fn dec_frame_digits_stand_for_the_number() {
    for n in [7u32, 10, 905, 65535, 4_294_967_295] {
        let f = uart::dec_frame(n);
        let digits: Vec<u32> = f.into_iter().filter(|w| *w != 0).collect();
        assert!(digits.iter().all(|d| (0x30..=0x39).contains(d)));
        let value = digits.iter().fold(0u64, |acc, d| acc * 10 + (*d as u64 - 0x30));
        assert_eq!(value, n as u64);
    }
    let f = uart::dec_frame(4_294_967_295);
    assert!(f[..22].iter().all(|w| *w == 0));
}

#[test]
fn str_frame_sends_character_codes() {
    assert_eq!(uart::str_frame("Hi\n"), vec![72, 105, 10]);
    assert_eq!(uart::str_frame(""), Vec::<u32>::new());
    assert_eq!(uart::str_frame("é"), vec![0xE9]);
}

#[test]
fn gpio_port_selection() {
    for (name, base) in [("A", 0x4800_0000u32), ("B", 0x4800_0400), ("C", 0x4800_0800), ("E", 0x4800_1000), ("D", 0x4800_0000), ("AB", 0x4800_0000)] {
        let mut bank = RegisterBank::new();
        GpioX::new(name, 1).set_moder(&mut bank, ModerTypes::AnalogMode);
        assert_eq!(bank.take_writes(), vec![(base, 0b11 << 2)]);
    }
}

#[test]
fn gpio_set_moder_ors_mode_code() {
    let mut bank = RegisterBank::new();
    let p = GpioX::new("E", 11);
    p.set_moder(&mut bank, ModerTypes::GeneralPurposeOutputMode);
    assert_eq!(bank.read(0x4800_1000), 0x0040_0000);
    p.set_moder(&mut bank, ModerTypes::InputMode);
    assert_eq!(bank.read(0x4800_1000), 0x0040_0000);
    GpioX::new("E", 12).set_moder(&mut bank, ModerTypes::AlternateFunctionMode);
    assert_eq!(bank.read(0x4800_1000), 0x0240_0000);
}

#[test]
fn gpio_set_odr_high_and_low() {
    let mut bank = RegisterBank::new();
    let p = GpioX::new("E", 9);
    p.set_odr(&mut bank, OutputState::High);
    assert_eq!(bank.read(0x4800_1014), 1 << 9);
    p.set_odr(&mut bank, OutputState::Low);
    assert_eq!(bank.read(0x4800_1014), (1 << 9) ^ (!0u32 << 9));
}

#[test]
fn gpio_set_otyper() {
    let mut bank = RegisterBank::new();
    bank.load(0x4800_1004, 0xFFFF);
    let p = GpioX::new("E", 4);
    p.set_otyper(&mut bank, OutputTypes::PushPull);
    assert_eq!(bank.read(0x4800_1004), 0xFFE0);
    p.set_otyper(&mut bank, OutputTypes::OpenDrain);
    assert_eq!(bank.read(0x4800_1004), 0xFFF0);
}

#[test]
fn gpio_into_af_low_and_high_register() {
    let mut bank = RegisterBank::new();
    bank.load(0x4800_0024, 0xFFFF_FFFF);
    GpioX::new("A", 9).into_af(&mut bank, 7);
    assert_eq!(bank.read(0x4800_0024), 0xFFFF_FF70);
    GpioX::new("A", 2).into_af(&mut bank, 5);
    assert_eq!(bank.read(0x4800_0020), 0x500);
}

#[test]
fn systick_set_up_and_switch() {
    let mut bank = RegisterBank::new();
    bank.load(0xE000_E014, 0xFF00_0000);
    bank.load(0xE000_E018, 0x0012_3456);
    STK::set_up_systick(&mut bank, 4);
    assert_eq!(bank.read(0xE000_E014), 0xFF00_0000 | 32000);
    assert_eq!(bank.read(0xE000_E018), 0);
    assert_eq!(bank.read(0xE000_E010), 0b111);
    disable_systick(&mut bank);
    assert_eq!(bank.read(0xE000_E010), 0b110);
    enable_systick(&mut bank);
    assert_eq!(bank.read(0xE000_E010), 0b111);
}

#[test]
fn system_timer_reload_and_enable() {
    let mut bank = RegisterBank::new();
    let st = SystemTimer::take();
    let st = st.set_reload(&mut bank, 0x3FFFF);
    assert_eq!(bank.read(0xE000_E014), 0x3FFFF);
    let st = st.set_reload(&mut bank, 0x0100_0000);
    assert_eq!(bank.read(0xE000_E014), 0x3FFFF);
    st.enable(&mut bank);
    assert_eq!(bank.read(0xE000_E010), 0b11);
}

#[test]
fn trigger_pendsv_sets_pendsvset() {
    let mut bank = RegisterBank::new();
    trigger_PendSV(&mut bank);
    assert_eq!(bank.read(0xE000_ED04), 1 << 28);
}

#[test]
fn cstr_frame_stops_at_first_zero() {
    assert_eq!(uart::cstr_frame(b"wake up!\n\r\0"), vec![119, 97, 107, 101, 32, 117, 112, 33, 10, 13]);
    assert_eq!(uart::cstr_frame(b"ab\0cd\0"), vec![97, 98]);
    assert_eq!(uart::cstr_frame(b"\0"), Vec::<u32>::new());
    assert_eq!(uart::cstr_frame(b"xyz"), vec![120, 121, 122]);
}
