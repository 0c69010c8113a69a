//! USART1, the serial line of the console (9600 baud, TX on PA9).
use crate::mmio::{BusState, RegisterBank, put, reg, set_bits};
use crate::platform::{CLOCK, USART1_BASEADRESS};
use vstd::prelude::*;

verus! {

/// The decimal digits of `n`, least significant first; none for 0.
pub open spec fn decimal_digits(n: nat) -> Seq<u8>
    decreases n,
{
    if n == 0 {
        Seq::<u8>::empty()
    } else {
        seq![((n % 10) + 0x30) as u8] + decimal_digits(n / 10)
    }
}

/// Ten to the power `k`.
pub open spec fn pow10(k: nat) -> nat
    decreases k,
{
    if k == 0 {
        1
    } else {
        10 * pow10((k - 1) as nat)
    }
}

/// The 32-byte buffer in which `print_dec` collects the digits of `n`:
/// the digits, least significant first, then zero bytes.
pub open spec fn dec_buffer(n: nat) -> Seq<u8> {
    Seq::new(
        32,
        |i: int|
            if i < decimal_digits(n).len() {
                decimal_digits(n)[i]
            } else {
                0u8
            },
    )
}

/// The words that `print_dec` sends for `n`: the buffer read backwards,
/// that is zero bytes, then the digits, most significant first.
pub open spec fn dec_words(n: nat) -> Seq<u32> {
    Seq::new(32, |i: int| dec_buffer(n)[31 - i] as u32)
}

/// The words that `print_str` sends for `msg`: each character's code.
pub open spec fn str_words(msg: Seq<char>) -> Seq<u32> {
    Seq::new(msg.len(), |i: int| msg[i] as u32)
}

/// A number below `10^k` has at most `k` decimal digits.
proof fn lemma_digits_len(n: nat, k: nat)
    requires
        n < pow10(k),
    ensures
        decimal_digits(n).len() <= k,
    decreases k,
{
    if n != 0 {
        assert(k > 0);
        let p = pow10((k - 1) as nat);
        assert(n / 10 < p) by (nonlinear_arith)
            requires
                n < 10 * p,
        ;
        lemma_digits_len(n / 10, (k - 1) as nat);
    }
}

/// A `u32` has at most ten decimal digits.
proof fn lemma_u32_digits(n: u32)
    ensures
        decimal_digits(n as nat).len() <= 10,
{
    reveal_with_fuel(pow10, 11);
    assert(pow10(10) == 10_000_000_000);
    lemma_digits_len(n as nat, 10);
}

/// The words to send to the transmit data register to print `dec` in
/// decimal: 32 words, the buffer of digits read backwards.
pub fn dec_frame(dec: u32) -> (frame: Vec<u32>)
    ensures
        frame@ == dec_words(dec as nat),
{
    proof {
        lemma_u32_digits(dec);
    }
    let mut buffer: Vec<u8> = Vec::new();
    let mut i: usize = 0;
    while i < 32
        invariant
            i <= 32,
            buffer@.len() == i,
            forall|j: int| 0 <= j < i ==> buffer@[j] == 0u8,
        decreases 32 - i,
    {
        buffer.push(0u8);
        i = i + 1;
    }
    let mut d: u32 = dec;
    let mut cnt: u8 = 0;
    while d > 0
        invariant
            buffer@.len() == 32,
            cnt as int + decimal_digits(d as nat).len() == decimal_digits(dec as nat).len(),
            decimal_digits(dec as nat).len() <= 10,
            buffer@.subrange(0, cnt as int) + decimal_digits(d as nat) == decimal_digits(dec as nat),
            forall|j: int| cnt <= j < 32 ==> buffer@[j] == 0u8,
        decreases d,
    {
        let ghost rest = decimal_digits(d as nat);
        let ghost pre = buffer@.subrange(0, cnt as int);
        let digit = (d % 10 + 0x30) as u8;
        assert(rest == seq![digit] + decimal_digits((d / 10) as nat));
        buffer.set(cnt as usize, digit);
        assert(buffer@.subrange(0, cnt as int) == pre);
        assert(buffer@.subrange(0, cnt as int + 1) == pre.push(digit));
        assert(pre.push(digit) + decimal_digits((d / 10) as nat) == pre + rest);
        d = d / 10;
        cnt = cnt + 1;
    }
    assert(buffer@ == dec_buffer(dec as nat)) by {
        assert(decimal_digits(d as nat).len() == 0);
        assert(buffer@.subrange(0, cnt as int) == decimal_digits(dec as nat));
        assert forall|j: int| 0 <= j < 32 implies buffer@[j] == dec_buffer(dec as nat)[j] by {
            if j < cnt {
                assert(buffer@[j] == buffer@.subrange(0, cnt as int)[j]);
            }
        }
    }
    let mut frame: Vec<u32> = Vec::new();
    let mut k: usize = 0;
    while k < 32
        invariant
            k <= 32,
            buffer@ == dec_buffer(dec as nat),
            frame@.len() == k,
            forall|j: int| 0 <= j < k ==> frame@[j] == dec_words(dec as nat)[j],
        decreases 32 - k,
    {
        frame.push(buffer[31 - k] as u32);
        k = k + 1;
    }
    assert(frame@ == dec_words(dec as nat));
    frame
}

/// The words to send to the transmit data register to print `msg`: the
/// code of each of its characters.
pub fn str_frame(msg: &str) -> (frame: Vec<u32>)
    ensures
        frame@ == str_words(msg@),
        frame@.len() == msg@.len(),
        forall|i: int| 0 <= i < msg@.len() ==> #[trigger] frame@[i] == msg@[i] as u32,
{
    let mut frame: Vec<u32> = Vec::new();
    for c in it: msg.chars()
        invariant
            frame@.len() == it.index(),
            it.seq() == msg@,
            forall|j: int| 0 <= j < it.index() ==> frame@[j] == msg@[j] as u32,
    {
        frame.push(c as u32);
    }
    assert(frame@ == str_words(msg@));
    frame
}

/// The register state after `enable` on the USART at `base`: BRR holds the
/// clock divided by `baud`, then TE and RE are set in CR1, then UE.
pub open spec fn enable_effect(s: BusState, base: u32, baud: u32) -> BusState {
    let s1 = put(s, base | 0x0C, (CLOCK / baud) as u32);
    set_bits(set_bits(s1, base, 0b1100), base, 0b1)
}

/// The words to send to the transmit data register to print the
/// zero-terminated string whose bytes start `bytes`: the code of each byte
/// before the first zero byte, which is not sent (all bytes when there is
/// no zero byte).
pub fn cstr_frame(bytes: &[u8]) -> (frame: Vec<u32>)
    ensures
        frame@.len() <= bytes@.len(),
        forall|i: int|
            0 <= i < frame@.len() ==> #[trigger] bytes@[i] != 0u8 && frame@[i] == bytes@[i] as u32,
        frame@.len() < bytes@.len() ==> bytes@[frame@.len() as int] == 0u8,
{
    let mut frame: Vec<u32> = Vec::new();
    let mut i: usize = 0;
    while i < bytes.len() && bytes[i] != 0u8
        invariant
            i <= bytes@.len(),
            frame@.len() == i,
            forall|j: int| 0 <= j < i ==> #[trigger] bytes@[j] != 0u8 && frame@[j] == bytes@[j] as u32,
        decreases bytes@.len() - i,
    {
        let b = bytes[i];
        assert(b == bytes@[i as int]);
        frame.push(b as u32);
        i = i + 1;
    }
    frame
}

/// A USART peripheral configured for a baud rate.
pub struct UsartX {
    usart_base_adress: u32,
    bus_number: u8,
    baudrate: u32,
}

/// USART1 register block; every bus number selects it.
pub open spec fn usart_base(bus_number: u8) -> u32 {
    USART1_BASEADRESS
}

/// The USART for `bus_number` at `baudrate` (USART1 for every bus number).
pub fn new(bus_number: u8, baudrate: u32) -> (u: UsartX)
    ensures
        u.base() == usart_base(bus_number),
        u.bus() == bus_number,
        u.baud() == baudrate,
{
    UsartX {
        usart_base_adress: match bus_number {
            1 => USART1_BASEADRESS,
            _ => USART1_BASEADRESS,
        },
        bus_number,
        baudrate,
    }
}

impl UsartX {
    /// Base address of the register block.
    pub closed spec fn base(&self) -> u32 {
        self.usart_base_adress
    }

    /// Bus number the peripheral was made for.
    pub closed spec fn bus(&self) -> u8 {
        self.bus_number
    }

    /// Configured baud rate.
    pub closed spec fn baud(&self) -> u32 {
        self.baudrate
    }

    /// Programs the baud rate divisor and enables transmitter, receiver and
    /// the USART.
    pub fn enable(&self, bank: &mut RegisterBank)
        requires
            self.baud() != 0,
        ensures
            final(bank)@ == enable_effect(old(bank)@, self.base(), self.baud()),
    {
        let usartx_brr = self.usart_base_adress | 0x0C;
        let baudrate_divisor = 8_000_000 / self.baudrate;
        bank.write(usartx_brr, baudrate_divisor);
        let usart1_cr1 = self.usart_base_adress;
        let existing_value = bank.read(usart1_cr1);
        bank.write(usart1_cr1, existing_value | (0b1100));
        let existing_value = bank.read(usart1_cr1);
        bank.write(usart1_cr1, existing_value | (0b1));
    }
}

/// The number that a sequence of decimal digits, least significant first,
/// stands for.
pub open spec fn digits_value(d: Seq<u8>) -> nat
    decreases d.len(),
{
    if d.len() == 0 {
        0
    } else {
        ((d[0] - 0x30) as nat) + 10 * digits_value(d.drop_first())
    }
}

/// The digits that `print_dec` sends are ASCII decimal digits, and they
/// stand for the number printed.
pub proof fn law_decimal_digits_round_trip(n: nat)
    ensures
        digits_value(decimal_digits(n)) == n,
        forall|i: int|
            0 <= i < decimal_digits(n).len() ==> 0x30 <= #[trigger] decimal_digits(n)[i] <= 0x39,
    decreases n,
{
    if n != 0 {
        law_decimal_digits_round_trip(n / 10);
        let d = decimal_digits(n);
        assert(d.drop_first() =~= decimal_digits(n / 10));
        assert forall|i: int| 0 <= i < d.len() implies 0x30 <= #[trigger] d[i] <= 0x39 by {
            if i > 0 {
                assert(d[i] == decimal_digits(n / 10)[i - 1]);
            }
        }
    }
}

proof fn lemma_enable_bits(v: u32)
    by (bit_vector)
    ensures
        ((v | 0b1100u32) | 0b1u32) & 0b1101 == 0b1101,
{
}

/// Enabling the USART at `base` leaves the clock divided by the baud rate
/// in BRR, and TE, RE and UE set in CR1.
pub proof fn law_enable_sets_baud(s: BusState, base: u32, baud: u32)
    requires
        baud != 0,
        base | 0x0C != base,
    ensures
        reg(enable_effect(s, base, baud), base | 0x0C) == CLOCK / baud,
        reg(enable_effect(s, base, baud), base) & 0b1101 == 0b1101,
{
    let s1 = put(s, base | 0x0C, (CLOCK / baud) as u32);
    lemma_enable_bits(reg(s1, base));
}

/// Printing a string sends one word per character, in order: as many words
/// as the string has characters, word `i` the code of character `i`.
pub proof fn law_str_words_one_per_char(msg: Seq<char>)
    ensures
        str_words(msg).len() == msg.len(),
        forall|i: int| 0 <= i < msg.len() ==> #[trigger] str_words(msg)[i] == msg[i] as u32,
{
}

/// The frame of `print_dec` has 32 words: first zero words, then the
/// decimal digits of `n`, the least significant last.
pub proof fn law_dec_words_layout(n: u32)
    ensures
        ({
            let d = decimal_digits(n as nat);
            &&& dec_words(n as nat).len() == 32
            &&& forall|i: int| 0 <= i < 32 - d.len() ==> #[trigger] dec_words(n as nat)[i] == 0
            &&& forall|j: int| 0 <= j < d.len() ==> #[trigger] dec_words(n as nat)[31 - j] == d[j] as u32
        }),
{
    lemma_u32_digits(n);
}

} // verus!
