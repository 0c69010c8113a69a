//! General-purpose I/O ports: one pin of a port, and its mode, output type,
//! output state and alternate function.
use crate::mmio::{BusState, RegisterBank, keep_bits, put, reg, set_bits};
use vstd::prelude::*;
use vstd::string::StringSliceAdditionalSpecFns;

verus! {

pub const GPIOA_BASE: u32 = 0x4800_0000;

pub const GPIOB_BASE: u32 = 0x4800_0400;

pub const GPIOC_BASE: u32 = 0x4800_0800;

pub const GPIOE_BASE: u32 = 0x4800_1000;

/// Output driver of a pin.
#[derive(Clone, Copy, PartialEq, Eq, Structural, Debug)]
pub enum OutputTypes {
    PushPull,
    OpenDrain,
}

/// Mode of a pin.
#[derive(Clone, Copy, PartialEq, Eq, Structural, Debug)]
pub enum ModerTypes {
    InputMode,
    GeneralPurposeOutputMode,
    AlternateFunctionMode,
    AnalogMode,
}

/// Level driven on an output pin.
#[derive(Clone, Copy, PartialEq, Eq, Structural, Debug)]
pub enum OutputState {
    High,
    Low,
}

/// The two-bit MODER code of a mode.
pub open spec fn moder_code(m: ModerTypes) -> u32 {
    match m {
        ModerTypes::InputMode => 0b00,
        ModerTypes::GeneralPurposeOutputMode => 0b01,
        ModerTypes::AlternateFunctionMode => 0b10,
        ModerTypes::AnalogMode => 0b11,
    }
}

/// The base address of the port named by `mnemonic`, the bytes of a
/// one-letter name: ports A, B, C and E by their letter, port A for any
/// other name.
pub open spec fn port_base(mnemonic: Seq<u8>) -> u32 {
    if mnemonic.len() != 1 {
        GPIOA_BASE
    } else if mnemonic[0] == 0x42u8 {
        GPIOB_BASE
    } else if mnemonic[0] == 0x43u8 {
        GPIOC_BASE
    } else if mnemonic[0] == 0x45u8 {
        GPIOE_BASE
    } else {
        GPIOA_BASE
    }
}

/// Mode register of the port at `base`.
pub open spec fn moder_address(base: u32) -> u32 {
    base | 0x00
}

/// Output type register of the port at `base`.
pub open spec fn otyper_address(base: u32) -> u32 {
    base | 0x04
}

/// Output data register of the port at `base`.
pub open spec fn odr_address(base: u32) -> u32 {
    base | 0x14
}

/// Alternate function register that holds `pin`: AFRL for pins 0-7, AFRH
/// for the others.
pub open spec fn afr_address(base: u32, pin: u8) -> u32 {
    base | (if pin < 8 {
        0x20u32
    } else {
        0x24u32
    })
}

/// Position of `pin` in its alternate function register.
pub open spec fn afr_slot(pin: u8) -> u8 {
    if pin > 7 {
        (pin - 8) as u8
    } else {
        pin
    }
}

/// The register state after `set_moder` on `pin` of the port at `base`: the
/// mode code ORed into the pin's two-bit field of MODER.
pub open spec fn moder_effect(s: BusState, base: u32, pin: u8, m: ModerTypes) -> BusState {
    set_bits(s, moder_address(base), moder_code(m) << ((pin * 2) as u32))
}

/// The register state after `set_odr`: High sets the pin's bit of ODR; Low
/// XORs ODR with all ones shifted left by the pin number.
pub open spec fn odr_effect(s: BusState, base: u32, pin: u8, o: OutputState) -> BusState {
    match o {
        OutputState::High => set_bits(s, odr_address(base), 1u32 << (pin as u32)),
        OutputState::Low => put(
            s,
            odr_address(base),
            reg(s, odr_address(base)) ^ (!0u32 << (pin as u32)),
        ),
    }
}

/// The register state after `set_otyper`: PushPull ANDs OTYPER with `!1`
/// shifted left by the pin number, which clears the pin's bit and the bits
/// below it; OpenDrain sets the pin's bit.
pub open spec fn otyper_effect(s: BusState, base: u32, pin: u8, t: OutputTypes) -> BusState {
    match t {
        OutputTypes::PushPull => keep_bits(s, otyper_address(base), !1u32 << (pin as u32)),
        OutputTypes::OpenDrain => set_bits(s, otyper_address(base), 1u32 << (pin as u32)),
    }
}

/// The register state after `into_af`: the alternate function register
/// ANDed with `!0xF` shifted to the pin's 4-bit field, then ORed with
/// `af_number` shifted there.
pub open spec fn af_effect(s: BusState, base: u32, pin: u8, af_number: u32) -> BusState {
    let shift = (afr_slot(pin) * 4) as u32;
    let addr = afr_address(base, pin);
    put(s, addr, (reg(s, addr) & (!0xFu32 << shift)) | (af_number << shift))
}

/// The bytes of a one-character ASCII string.
pub proof fn lemma_one_ascii_char(s: &str, c: char)
    requires
        s@.len() == 1,
        s@[0] == c,
        c <= '\u{7f}',
    ensures
        s.spec_bytes() == seq![c as u8],
{
    assert(vstd::utf8::is_ascii_chars(s@));
    vstd::utf8::is_ascii_chars_encode_utf8(s@);
    assert(s.spec_bytes() =~= seq![c as u8]);
}

/// One pin of a GPIO port.
pub struct GpioX {
    gpio_base_adress: u32,
    pin_number: u8,
}

impl GpioX {
    /// Base address of the pin's port.
    pub closed spec fn base(&self) -> u32 {
        self.gpio_base_adress
    }

    /// Number of the pin in its port.
    pub closed spec fn pin(&self) -> u8 {
        self.pin_number
    }

    /// The pin `pin_number` of the port named `port_mnemonic` ("A", "B",
    /// "C" or "E"; any other name selects port A).
    pub fn new(port_mnemonic: &str, pin_number: u8) -> (g: GpioX)
        ensures
            g.base() == port_base(port_mnemonic.spec_bytes()),
            g.pin() == pin_number,
    {
        let bytes = port_mnemonic.as_bytes();
        let gpio_base_adress = if bytes.len() == 1 && bytes[0] == 0x41u8 {
            GPIOA_BASE
        } else if bytes.len() == 1 && bytes[0] == 0x42u8 {
            GPIOB_BASE
        } else if bytes.len() == 1 && bytes[0] == 0x43u8 {
            GPIOC_BASE
        } else if bytes.len() == 1 && bytes[0] == 0x45u8 {
            GPIOE_BASE
        } else {
            GPIOA_BASE
        };
        GpioX { gpio_base_adress, pin_number }
    }

    /// ORs the code of `moder_type` into the pin's field of MODER. The
    /// field is not cleared first, so the result is the mode only for a pin
    /// whose field held 0.
    pub fn set_moder(&self, bank: &mut RegisterBank, moder_type: ModerTypes)
        requires
            self.pin() < 16,
        ensures
            final(bank)@ == moder_effect(old(bank)@, self.base(), self.pin(), moder_type),
    {
        let gpiox_moder_offset: u32 = 0x00;
        let gpiox_moder = self.gpio_base_adress | gpiox_moder_offset;
        let mut current_register_content: u32 = bank.read(gpiox_moder);
        let shift = (self.pin_number * 2) as u32;
        let updated_register_content = match moder_type {
            ModerTypes::InputMode => {
                current_register_content = current_register_content | (0b00u32 << shift);
                current_register_content
            },
            ModerTypes::GeneralPurposeOutputMode => {
                current_register_content = current_register_content | (0b01u32 << shift);
                current_register_content
            },
            ModerTypes::AlternateFunctionMode => {
                current_register_content = current_register_content | (0b10u32 << shift);
                current_register_content
            },
            ModerTypes::AnalogMode => {
                current_register_content = current_register_content | (0b11u32 << shift);
                current_register_content
            },
        };
        bank.write(gpiox_moder, updated_register_content);
    }

    /// Drives the pin: High sets its bit of ODR; Low XORs ODR with all ones
    /// shifted left by the pin number.
    pub fn set_odr(&self, bank: &mut RegisterBank, odr_type: OutputState)
        requires
            self.pin() < 32,
        ensures
            final(bank)@ == odr_effect(old(bank)@, self.base(), self.pin(), odr_type),
    {
        let gpiox_odr_offset: u32 = 0x14;
        let gpiox_odr = self.gpio_base_adress | gpiox_odr_offset;
        let mut current_register_content: u32 = bank.read(gpiox_odr);
        let shift = self.pin_number as u32;
        let updated_register_content = match odr_type {
            OutputState::High => {
                current_register_content = current_register_content | (0b1u32 << shift);
                current_register_content
            },
            OutputState::Low => {
                current_register_content = current_register_content ^ (!(0b0u32) << shift);
                current_register_content
            },
        };
        bank.write(gpiox_odr, updated_register_content);
    }

    /// Sets the pin's output type: PushPull ANDs OTYPER with `!1` shifted
    /// left by the pin number; OpenDrain sets the pin's bit.
    pub fn set_otyper(&self, bank: &mut RegisterBank, output_type: OutputTypes)
        requires
            self.pin() < 32,
        ensures
            final(bank)@ == otyper_effect(old(bank)@, self.base(), self.pin(), output_type),
    {
        let gpiox_otyper_offset: u32 = 0x04;
        let gpiox_otyper = self.gpio_base_adress | gpiox_otyper_offset;
        let mut current_register_content: u32 = bank.read(gpiox_otyper);
        let shift = self.pin_number as u32;
        let updated_register_content = match output_type {
            OutputTypes::PushPull => {
                current_register_content = current_register_content & (!(1u32) << shift);
                current_register_content
            },
            OutputTypes::OpenDrain => {
                current_register_content = current_register_content | (1u32 << shift);
                current_register_content
            },
        };
        bank.write(gpiox_otyper, updated_register_content);
    }

    /// Selects alternate function `af_number` for the pin in AFRL (pins
    /// 0-7) or AFRH (pins 8-15).
    pub fn into_af(&self, bank: &mut RegisterBank, af_number: u32)
        requires
            self.pin() < 16,
        ensures
            final(bank)@ == af_effect(old(bank)@, self.base(), self.pin(), af_number),
    {
        let gpiox_af_offset: u32 = if self.pin_number < 8 {
            0x20
        } else {
            0x24
        };
        let gpiox_af = self.gpio_base_adress | gpiox_af_offset;
        let mut current_register_content: u32 = bank.read(gpiox_af);
        let mut pin = self.pin_number;
        if self.pin_number > 7 {
            pin = pin - 8;
        }
        let shift = (pin * 4) as u32;
        current_register_content = current_register_content & (!(0xFu32) << shift);
        current_register_content = current_register_content | (af_number << shift);
        bank.write(gpiox_af, current_register_content);
    }
}

/// Bit `q` of `v`.
pub open spec fn bit(v: u32, q: u32) -> u32 {
    (v >> q) & 1
}

/// The two-bit field `q` of `v`.
pub open spec fn field2(v: u32, q: u32) -> u32 {
    (v >> (q * 2)) & 0b11
}

/// The four-bit field `q` of `v`.
pub open spec fn field4(v: u32, q: u32) -> u32 {
    (v >> (q * 4)) & 0xF
}

proof fn lemma_or_bit(v: u32, p: u32, q: u32)
    by (bit_vector)
    requires
        p < 32,
        q < 32,
    ensures
        ((v | (1u32 << p)) >> p) & 1 == 1,
        q != p ==> ((v | (1u32 << p)) >> q) & 1 == (v >> q) & 1,
{
}

proof fn lemma_and_not_one_bit(v: u32, p: u32, q: u32)
    by (bit_vector)
    requires
        p < 32,
        q < 32,
    ensures
        ((v & (!1u32 << p)) >> p) & 1 == 0,
        q > p ==> ((v & (!1u32 << p)) >> q) & 1 == (v >> q) & 1,
{
}

proof fn lemma_or_field2(v: u32, c: u32, p: u32, q: u32)
    by (bit_vector)
    requires
        p < 16,
        q < 16,
        c < 4,
        (v >> (p * 2)) & 0b11 == 0,
    ensures
        ((v | (c << (p * 2))) >> (p * 2)) & 0b11 == c,
        q != p ==> ((v | (c << (p * 2))) >> (q * 2)) & 0b11 == (v >> (q * 2)) & 0b11,
{
}

proof fn lemma_af_field4(v: u32, af: u32, p: u32, q: u32)
    by (bit_vector)
    requires
        p < 8,
        q < 8,
        af < 16,
    ensures
        (((v & (!0xFu32 << (p * 4))) | (af << (p * 4))) >> (p * 4)) & 0xF == af,
        q > p ==> (((v & (!0xFu32 << (p * 4))) | (af << (p * 4))) >> (q * 4)) & 0xF == (v >> (q
            * 4)) & 0xF,
{
}

/// ORing the bit of `pin` into `v` sets that bit and keeps every other.
proof fn lemma_or_pin(v: u32, pin: u8)
    requires
        pin < 32,
    ensures
        bit(v | (1u32 << (pin as u32)), pin as u32) == 1,
        forall|q: u32|
            q < 32 && q != pin ==> #[trigger] bit(v | (1u32 << (pin as u32)), q) == bit(v, q),
{
    assert forall|q: u32| q < 32 && q != pin implies #[trigger] bit(v | (1u32 << (pin as u32)), q)
        == bit(v, q) by {
        lemma_or_bit(v, pin as u32, q);
    }
    lemma_or_bit(v, pin as u32, pin as u32);
}

/// Driving a pin high sets its bit of ODR and keeps every other bit.
pub proof fn law_odr_high_sets_pin(s: BusState, base: u32, pin: u8)
    requires
        pin < 32,
    ensures
        ({
            let before = reg(s, odr_address(base));
            let after = reg(odr_effect(s, base, pin, OutputState::High), odr_address(base));
            &&& bit(after, pin as u32) == 1
            &&& forall|q: u32| q < 32 && q != pin ==> #[trigger] bit(after, q) == bit(before, q)
        }),
{
    let before = reg(s, odr_address(base));
    lemma_or_pin(before, pin);
}

/// An open-drain pin has its bit of OTYPER set, every other bit kept.
pub proof fn law_open_drain_sets_pin(s: BusState, base: u32, pin: u8)
    requires
        pin < 32,
    ensures
        ({
            let before = reg(s, otyper_address(base));
            let after = reg(
                otyper_effect(s, base, pin, OutputTypes::OpenDrain),
                otyper_address(base),
            );
            &&& bit(after, pin as u32) == 1
            &&& forall|q: u32| q < 32 && q != pin ==> #[trigger] bit(after, q) == bit(before, q)
        }),
{
    let before = reg(s, otyper_address(base));
    lemma_or_pin(before, pin);
}

/// A push-pull pin has its bit of OTYPER cleared; the bits of the pins
/// above it are kept.
pub proof fn law_push_pull_clears_pin(s: BusState, base: u32, pin: u8)
    requires
        pin < 32,
    ensures
        ({
            let before = reg(s, otyper_address(base));
            let after = reg(
                otyper_effect(s, base, pin, OutputTypes::PushPull),
                otyper_address(base),
            );
            &&& bit(after, pin as u32) == 0
            &&& forall|q: u32| pin < q < 32 ==> #[trigger] bit(after, q) == bit(before, q)
        }),
{
    let before = reg(s, otyper_address(base));
    assert forall|q: u32| pin < q < 32 implies bit(before & (!1u32 << (pin as u32)), q) == bit(
        before,
        q,
    ) by {
        lemma_and_not_one_bit(before, pin as u32, q);
    }
    lemma_and_not_one_bit(before, pin as u32, pin as u32);
}

/// Setting the mode of a pin whose MODER field is clear (its reset value
/// for most pins) makes the field the mode's code; the fields of the other
/// pins are kept.
pub proof fn law_moder_sets_field(s: BusState, base: u32, pin: u8, m: ModerTypes)
    requires
        pin < 16,
        field2(reg(s, moder_address(base)), pin as u32) == 0,
    ensures
        ({
            let before = reg(s, moder_address(base));
            let after = reg(moder_effect(s, base, pin, m), moder_address(base));
            &&& field2(after, pin as u32) == moder_code(m)
            &&& forall|q: u32| q < 16 && q != pin ==> #[trigger] field2(after, q) == field2(before, q)
        }),
{
    let before = reg(s, moder_address(base));
    let c = moder_code(m);
    assert((pin * 2) as u32 == (pin as u32) * 2);
    assert forall|q: u32| q < 16 && q != pin implies field2(before | (c << ((pin as u32) * 2)), q)
        == field2(before, q) by {
        lemma_or_field2(before, c, pin as u32, q);
    }
    lemma_or_field2(before, c, pin as u32, pin as u32);
}

/// Selecting alternate function `af_number` (below 16) for a pin makes the
/// pin's four-bit field of its alternate function register `af_number`;
/// the fields of the pins above it are kept.
pub proof fn law_af_sets_field(s: BusState, base: u32, pin: u8, af_number: u32)
    requires
        pin < 16,
        af_number < 16,
    ensures
        ({
            let addr = afr_address(base, pin);
            let slot = afr_slot(pin) as u32;
            let before = reg(s, addr);
            let after = reg(af_effect(s, base, pin, af_number), addr);
            &&& field4(after, slot) == af_number
            &&& forall|q: u32| slot < q < 8 ==> #[trigger] field4(after, q) == field4(before, q)
        }),
{
    let addr = afr_address(base, pin);
    let p = afr_slot(pin) as u32;
    let before = reg(s, addr);
    assert((afr_slot(pin) * 4) as u32 == p * 4);
    assert forall|q: u32| p < q < 8 implies field4(
        (before & (!0xFu32 << (p * 4))) | (af_number << (p * 4)),
        q,
    ) == field4(before, q) by {
        lemma_af_field4(before, af_number, p, q);
    }
    lemma_af_field4(before, af_number, p, p);
}

/// Selecting an alternate function writes exactly one register: AFRL
/// (`base | 0x20`) for pins 0 to 7 and AFRH (`base | 0x24`) for pins 8 to
/// 15. In it, the four-bit field of the pin's number modulo 8 becomes
/// `af_number` (below 16), and the fields above it keep their values.
pub proof fn law_af_selects_register(s: BusState, base: u32, pin: u8, af_number: u32)
    requires
        pin < 16,
        af_number < 16,
    ensures
        ({
            let addr = if pin <= 7 {
                base | 0x20u32
            } else {
                base | 0x24u32
            };
            let after = af_effect(s, base, pin, af_number);
            &&& after.0 == s.0.insert(addr, reg(after, addr))
            &&& after.1 == s.1.push((addr, reg(after, addr)))
            &&& field4(reg(after, addr), (pin % 8) as u32) == af_number
            &&& forall|q: u32|
                (pin % 8) < q < 8 ==> #[trigger] field4(reg(after, addr), q) == field4(
                    reg(s, addr),
                    q,
                )
        }),
{
    assert(afr_slot(pin) as int == pin % 8);
    law_af_sets_field(s, base, pin, af_number);
}

} // verus!
