use rtos::mmio::RegisterBank;

#[test]
fn read_gives_back_last_write() {
    let mut bank = RegisterBank::new();
    assert_eq!(bank.read(0x4000_0400), 0);
    bank.write(0x4000_0400, 5);
    bank.write(0x4000_0400, 7);
    assert_eq!(bank.read(0x4000_0400), 7);
    assert_eq!(bank.read(0x4000_0404), 0);
}

#[test]
fn journal_keeps_writes_in_order() {
    let mut bank = RegisterBank::new();
    bank.write(1, 10);
    bank.write(2, 20);
    bank.write(1, 30);
    assert_eq!(bank.take_writes(), vec![(1, 10), (2, 20), (1, 30)]);
    assert_eq!(bank.take_writes(), vec![]);
    assert_eq!(bank.read(1), 30);
}

#[test]
fn load_is_not_journaled() {
    let mut bank = RegisterBank::new();
    bank.load(0x48001000, 0xA800_0000);
    assert_eq!(bank.read(0x48001000), 0xA800_0000);
    assert_eq!(bank.take_writes(), vec![]);
}
