//! The GPIO function-select and pull-control interface the console
//! driver needs: routing two pins to the mini UART's alternate function
//! and driving the pull-up/down clock sequence.
//!
//! Only the three registers the driver touches are modelled; the rest
//! of the GPIO block belongs to other subsystems.

use vstd::prelude::*;

use crate::bitfield::Field;
use crate::bitfield::FieldValue;
use crate::bitfield::low_bits;
use crate::registers::ReadWrite;
use crate::registers::WriteOnly;

verus! {

pub(crate) proof fn lemma_gpio_constants()
    by (bit_vector)
    ensures
        low_bits(3) == 7u32,
        low_bits(1) == 1u32,
        2u32 & 7u32 == 2u32,
        1u32 & 1u32 == 1u32,
        7u32 << 12u32 == 0x7000u32,
        2u32 << 12u32 == 0x2000u32,
        7u32 << 15u32 == 0x38000u32,
        2u32 << 15u32 == 0x10000u32,
        1u32 << 14u32 == 0x4000u32,
        1u32 << 15u32 == 0x8000u32,
        0x7000u32 | 0x38000u32 == 0x3F000u32,
        0x2000u32 | 0x10000u32 == 0x12000u32,
        0x4000u32 | 0x8000u32 == 0xC000u32,
{
}

/// Function-select field of GPIO pin 14: three bits choosing among the
/// pin's alternate functions.
pub fn fsel14() -> (f: Field)
    ensures
        f == (Field { shift: 12u32, width: 3u32 }),
        f.wf(),
        f.mask() == 0x7000u32,
{
    proof {
        lemma_gpio_constants();
    }
    Field::new(12, 3)
}

/// Function-select field of GPIO pin 15.
pub fn fsel15() -> (f: Field)
    ensures
        f == (Field { shift: 15u32, width: 3u32 }),
        f.wf(),
        f.mask() == 0x38000u32,
{
    proof {
        lemma_gpio_constants();
    }
    Field::new(15, 3)
}

/// Routes pin 14 to the mini UART transmit line: alternate function 5,
/// select pattern 0b010.
pub fn fsel14_txd1() -> (fv: FieldValue)
    ensures
        fv.mask == 0x7000u32,
        fv.value == 0x2000u32,
        fv.wf(),
{
    proof {
        lemma_gpio_constants();
    }
    fsel14().val(2)
}

/// Routes pin 15 to the mini UART receive line: alternate function 5,
/// select pattern 0b010.
pub fn fsel15_rxd1() -> (fv: FieldValue)
    ensures
        fv.mask == 0x38000u32,
        fv.value == 0x10000u32,
        fv.wf(),
{
    proof {
        lemma_gpio_constants();
    }
    fsel15().val(2)
}

/// Asserts the pull-up/down clock on pin 14.
pub fn pudclk14_assert() -> (fv: FieldValue)
    ensures
        fv.mask == 0x4000u32,
        fv.value == 0x4000u32,
        fv.wf(),
{
    proof {
        lemma_gpio_constants();
    }
    Field::new(14, 1).val(1)
}

/// Asserts the pull-up/down clock on pin 15.
pub fn pudclk15_assert() -> (fv: FieldValue)
    ensures
        fv.mask == 0x8000u32,
        fv.value == 0x8000u32,
        fv.wf(),
{
    proof {
        lemma_gpio_constants();
    }
    Field::new(15, 1).val(1)
}

/// The GPIO registers the console driver uses: function select for
/// pins 10-19, the pull-state register and the pull-clock register for
/// the low pin bank.
#[allow(non_snake_case)]
pub struct Gpio {
    pub GPFSEL1: ReadWrite,
    pub GPPUD: WriteOnly,
    pub GPPUDCLK0: WriteOnly,
}

impl Gpio {
    /// A GPIO block whose function-select register currently reads
    /// `gpfsel1`; the write-only registers start cleared.
    pub fn new(gpfsel1: u32) -> (g: Gpio)
        ensures
            g.GPFSEL1.value() == gpfsel1,
            g.GPPUD.value() == 0,
            g.GPPUDCLK0.value() == 0,
    {
        Gpio {
            GPFSEL1: ReadWrite::new(gpfsel1),
            GPPUD: WriteOnly::new(0),
            GPPUDCLK0: WriteOnly::new(0),
        }
    }
}

} // verus!
