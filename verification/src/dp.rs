//! Device peripherals behind the bus: the serial token that is handed out
//! once, the AHB1 view of the clock control, and the AHB2 view of GPIO
//! port E.
use crate::mmio::{RegisterBank, set_bits};
use vstd::prelude::*;

verus! {

/// RCC_AHBENR, the AHB peripheral clock enable register.
pub const RCC_AHBENR: u32 = 0x4002_1000 | 0x14;

/// GPIO port E.
pub const GPIOE_BASE: u32 = 0x4800_1000;

/// The owner of the device peripherals; the serial token can be taken once.
pub struct Peripherals {
    serial: Option<Serial>,
}

/// Token for the peripherals on the bus.
#[derive(Clone, Copy)]
pub struct Serial;

/// The clock control seen from the AHB1 bus.
pub struct AHB1 {
    rcc: RCC,
}

/// Clock control; its AHBENR register lies at `RCC_AHBENR`.
#[derive(Clone, Copy)]
pub struct RCC;

/// GPIO port E seen from the AHB2 bus.
pub struct AHB2 {
    gpioe: u32,
}

/// The register block of a GPIO port, in the order of its registers. Each
/// field names its register by address, so that a read or write through the
/// block (`RegisterBank::read(g.odr)`, `RegisterBank::write(g.odr, v)`)
/// reaches the register itself.
#[derive(Clone, Copy, Debug)]
pub struct GPIO {
    pub moder: u32,
    pub otyper: u32,
    pub ospeedr: u32,
    pub pupdr: u32,
    pub idr: u32,
    pub odr: u32,
    pub bsrr: u32,
    pub lckr: u32,
    pub afrl: u32,
    pub afrh: u32,
    pub brr: u32,
}

/// The register block of the GPIO port at `base`.
pub open spec fn gpio_block(base: u32) -> GPIO {
    GPIO {
        moder: base | 0x00,
        otyper: base | 0x04,
        ospeedr: base | 0x08,
        pupdr: base | 0x0C,
        idr: base | 0x10,
        odr: base | 0x14,
        bsrr: base | 0x18,
        lckr: base | 0x1C,
        afrl: base | 0x20,
        afrh: base | 0x24,
        brr: base | 0x28,
    }
}

impl Peripherals {
    /// Whether the serial token is still there to be taken.
    pub closed spec fn has_serial(&self) -> bool {
        self.serial is Some
    }

    /// All peripherals, none taken yet.
    pub fn new() -> (p: Peripherals)
        ensures
            p.has_serial(),
    {
        Peripherals { serial: Some(Serial) }
    }

    /// Takes the serial token; it can be taken only once.
    pub fn take_serial(&mut self) -> (s: Serial)
        requires
            old(self).has_serial(),
        ensures
            !final(self).has_serial(),
    {
        let mut p: Option<Serial> = None;
        std::mem::swap(&mut p, &mut self.serial);
        p.unwrap()
    }
}

impl Serial {
    /// The AHB1 bus, through which the clock control is reached.
    pub fn ahb1(&self) -> AHB1 {
        AHB1 { rcc: RCC }
    }

    /// The AHB2 bus, through which GPIO port E is reached.
    pub fn ahb2(&self) -> (a: AHB2)
        ensures
            a.port() == GPIOE_BASE,
    {
        AHB2 { gpioe: GPIOE_BASE }
    }
}

impl AHB1 {
    /// Hands the clock control and the register space to `f`, and keeps
    /// the register space `f` gives back.
    pub fn rcc<F: FnOnce(&RCC, RegisterBank) -> RegisterBank>(
        &mut self,
        bank: &mut RegisterBank,
        f: F,
    )
        requires
            call_requires(f, (&RCC, *old(bank))),
        ensures
            call_ensures(f, (&RCC, *old(bank)), *final(bank)),
    {
        let mut tmp = RegisterBank::new();
        std::mem::swap(&mut tmp, bank);
        *bank = f(&self.rcc, tmp);
    }
}

impl RCC {
    /// Enables the clock of I/O port E (IOPEEN, bit 21 of AHBENR).
    pub fn iopeen(&self, bank: &mut RegisterBank)
        ensures
            final(bank)@ == set_bits(old(bank)@, RCC_AHBENR, 1u32 << 21u32),
    {
        let v = bank.read(RCC_AHBENR);
        bank.write(RCC_AHBENR, v | (1u32 << 21u32));
    }
}

impl AHB2 {
    /// Base address of the port this bus view reaches.
    pub closed spec fn port(&self) -> u32 {
        self.gpioe
    }

    /// The register block of GPIO port E.
    pub fn gpioe(self) -> (g: GPIO)
        ensures
            g == gpio_block(self.port()),
    {
        let b = self.gpioe;
        GPIO {
            moder: b | 0x00,
            otyper: b | 0x04,
            ospeedr: b | 0x08,
            pupdr: b | 0x0C,
            idr: b | 0x10,
            odr: b | 0x14,
            bsrr: b | 0x18,
            lckr: b | 0x1C,
            afrl: b | 0x20,
            afrh: b | 0x24,
            brr: b | 0x28,
        }
    }
}

} // verus!
