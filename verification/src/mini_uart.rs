//! Polling-mode mini UART console driver.
//!
//! The driver is written against the modelled register block of
//! [`crate::registers`]: the same sequence of typed register accesses a
//! kernel performs on the memory-mapped peripheral, with the peripheral's
//! observable behaviour (bytes put on the line, bytes waiting in the
//! receive FIFO, the line-status bits) carried alongside the registers.
//! The unverified shell that owns the real device performs the identical
//! accesses at the block's base address.
//!
//! Register block layout on the device (byte offsets from the base):
//! 0x00 reserved, 0x04 `AUX_ENABLES`, 0x08-0x3F reserved, 0x40
//! `AUX_MU_IO`, 0x44 `AUX_MU_IER`, 0x48 `AUX_MU_IIR`, 0x4C `AUX_MU_LCR`,
//! 0x50 `AUX_MU_MCR`, 0x54 `AUX_MU_LSR`, 0x58-0x5F reserved, 0x60
//! `AUX_MU_CNTL`, 0x64 reserved, 0x68 `AUX_MU_BAUD`. The data register
//! at 0x40 appears here as the pair of FIFO operations `io_write` and
//! `io_read`; reserved slots carry no state.

use vstd::prelude::*;

use crate::arch::loop_delay;
use crate::arch::loop_until;
use crate::bitfield::Field;
use crate::bitfield::FieldValue;
use crate::bitfield::low_bits;
use crate::gpio::Gpio;
use crate::gpio::fsel14_txd1;
use crate::gpio::fsel15_rxd1;
use crate::gpio::lemma_gpio_constants;
use crate::gpio::pudclk14_assert;
use crate::gpio::pudclk15_assert;
use crate::registers::ReadOnly;
use crate::registers::ReadWrite;
use crate::registers::WriteOnly;

verus! {

/// Base address of the mini UART register block on the target board:
/// the peripheral window base plus the block's offset.
pub const UART1_BASE: u32 = 0x3F00_0000 + 0x21_5000;

pub(crate) proof fn lemma_uart_constants()
    by (bit_vector)
    ensures
        low_bits(1) == 1u32,
        low_bits(2) == 3u32,
        low_bits(16) == 0xFFFFu32,
        1u32 & 1u32 == 1u32,
        0u32 & 1u32 == 0u32,
        1u32 & 3u32 == 1u32,
        2u32 & 3u32 == 2u32,
        3u32 & 3u32 == 3u32,
        0u32 & 3u32 == 0u32,
        1u32 << 0u32 == 1u32,
        0u32 << 0u32 == 0u32,
        3u32 << 0u32 == 3u32,
        0xFFFFu32 << 0u32 == 0xFFFFu32,
        1u32 << 1u32 == 2u32,
        2u32 << 1u32 == 4u32,
        3u32 << 1u32 == 6u32,
        1u32 << 5u32 == 0x20u32,
        1u32 << 6u32 == 0x40u32,
        1u32 | 2u32 == 3u32,
        6u32 & 2u32 == 2u32,
        0u32 & 2u32 == 0u32,
        4u32 & 2u32 == 0u32,
        2u32 & 2u32 == 2u32,
        (0x60u32 >> 5u32) & 1u32 == 1u32,
        (0x61u32 >> 5u32) & 1u32 == 1u32,
        (0x60u32 >> 6u32) & 1u32 == 1u32,
        (0x61u32 >> 6u32) & 1u32 == 1u32,
        (0x61u32 >> 0u32) & 1u32 == 1u32,
        (0x60u32 >> 0u32) & 1u32 == 0u32,
{
}

/// The peripheral-enable bit: while clear, every other mini UART
/// register is inaccessible.
pub fn mini_uart_enable() -> (f: Field)
    ensures
        f == (Field { shift: 0u32, width: 1u32 }),
        f.wf(),
        f.mask() == 1u32,
{
    proof {
        lemma_uart_constants();
    }
    Field::new(0, 1)
}

/// Enables the mini UART.
pub fn mini_uart_enable_set() -> (fv: FieldValue)
    ensures
        fv.mask == 1u32,
        fv.value == 1u32,
        fv.wf(),
{
    proof {
        lemma_uart_constants();
    }
    mini_uart_enable().val(1)
}

/// Disables the mini UART.
pub fn mini_uart_enable_clear() -> (fv: FieldValue)
    ensures
        fv.mask == 1u32,
        fv.value == 0u32,
        fv.wf(),
{
    proof {
        lemma_uart_constants();
    }
    mini_uart_enable().val(0)
}

/// The two-bit FIFO-clear field of the interrupt-identify register.
pub fn fifo_clear() -> (f: Field)
    ensures
        f == (Field { shift: 1u32, width: 2u32 }),
        f.wf(),
        f.mask() == 6u32,
{
    proof {
        lemma_uart_constants();
    }
    Field::new(1, 2)
}

/// Clears the receive FIFO only.
pub fn fifo_clear_rx() -> (fv: FieldValue)
    ensures
        fv.mask == 6u32,
        fv.value == 2u32,
        fv.wf(),
{
    proof {
        lemma_uart_constants();
    }
    fifo_clear().val(1)
}

/// Clears the transmit FIFO only.
pub fn fifo_clear_tx() -> (fv: FieldValue)
    ensures
        fv.mask == 6u32,
        fv.value == 4u32,
        fv.wf(),
{
    proof {
        lemma_uart_constants();
    }
    fifo_clear().val(2)
}

/// Clears both FIFOs.
pub fn fifo_clear_all() -> (fv: FieldValue)
    ensures
        fv.mask == 6u32,
        fv.value == 6u32,
        fv.wf(),
{
    proof {
        lemma_uart_constants();
    }
    fifo_clear().val(3)
}

/// The two-bit data-size field of the line-control register; only two
/// of its four patterns are legal.
pub fn data_size() -> (f: Field)
    ensures
        f == (Field { shift: 0u32, width: 2u32 }),
        f.wf(),
        f.mask() == 3u32,
{
    proof {
        lemma_uart_constants();
    }
    Field::new(0, 2)
}

/// Seven-bit data frames.
pub fn data_size_seven_bit() -> (fv: FieldValue)
    ensures
        fv.mask == 3u32,
        fv.value == 0u32,
        fv.wf(),
{
    proof {
        lemma_uart_constants();
    }
    data_size().val(0)
}

/// Eight-bit data frames.
pub fn data_size_eight_bit() -> (fv: FieldValue)
    ensures
        fv.mask == 3u32,
        fv.value == 3u32,
        fv.wf(),
{
    proof {
        lemma_uart_constants();
    }
    data_size().val(3)
}

/// Line-status bit: the transmitter is completely idle, the shift
/// register included.
pub fn lsr_tx_idle() -> (f: Field)
    ensures
        f == (Field { shift: 6u32, width: 1u32 }),
        f.wf(),
        f.mask() == 0x40u32,
{
    proof {
        lemma_uart_constants();
    }
    Field::new(6, 1)
}

/// Line-status bit: the transmit FIFO can accept at least one byte.
pub fn lsr_tx_empty() -> (f: Field)
    ensures
        f == (Field { shift: 5u32, width: 1u32 }),
        f.wf(),
        f.mask() == 0x20u32,
{
    proof {
        lemma_uart_constants();
    }
    Field::new(5, 1)
}

/// Line-status bit: the receive FIFO holds at least one byte.
pub fn lsr_data_ready() -> (f: Field)
    ensures
        f == (Field { shift: 0u32, width: 1u32 }),
        f.wf(),
        f.mask() == 1u32,
{
    proof {
        lemma_uart_constants();
    }
    Field::new(0, 1)
}

/// Enables the transmitter.
pub fn cntl_tx_enabled() -> (fv: FieldValue)
    ensures
        fv.mask == 2u32,
        fv.value == 2u32,
        fv.wf(),
{
    proof {
        lemma_uart_constants();
    }
    Field::new(1, 1).val(1)
}

/// Enables the receiver.
pub fn cntl_rx_enabled() -> (fv: FieldValue)
    ensures
        fv.mask == 1u32,
        fv.value == 1u32,
        fv.wf(),
{
    proof {
        lemma_uart_constants();
    }
    Field::new(0, 1).val(1)
}

/// The sixteen-bit baud-rate divisor field, carrying `divisor`.
pub fn baud_rate(divisor: u16) -> (fv: FieldValue)
    ensures
        fv.mask == 0xFFFFu32,
        fv.value == divisor as u32,
        fv.wf(),
{
    proof {
        lemma_uart_constants();
        let d = divisor;
        assert((d as u32) & 0xFFFFu32 == (d as u32) && (d as u32) << 0u32 == (d as u32))
            by (bit_vector);
    }
    Field::new(0, 16).val(divisor as u32)
}

/// The mini UART register block together with the peripheral behaviour
/// a driver can observe: the bytes the transmitter has put on the line
/// and the bytes waiting in the receive FIFO.
#[allow(non_snake_case)]
pub struct RegisterBlock {
    pub AUX_ENABLES: ReadWrite,
    pub AUX_MU_IER: WriteOnly,
    pub AUX_MU_IIR: WriteOnly,
    pub AUX_MU_LCR: WriteOnly,
    pub AUX_MU_MCR: WriteOnly,
    pub AUX_MU_LSR: ReadOnly,
    pub AUX_MU_CNTL: WriteOnly,
    pub AUX_MU_BAUD: WriteOnly,
    /// Bytes the transmitter has put on the line, oldest first.
    pub tx_line: Vec<u8>,
    /// Bytes received and not yet read, oldest first.
    pub rx_fifo: Vec<u8>,
}

/// The configuration registers of `a` and `b` agree; the status
/// register and the FIFOs may differ.
pub open spec fn same_config(a: RegisterBlock, b: RegisterBlock) -> bool {
    &&& a.AUX_ENABLES == b.AUX_ENABLES
    &&& a.AUX_MU_IER == b.AUX_MU_IER
    &&& a.AUX_MU_IIR == b.AUX_MU_IIR
    &&& a.AUX_MU_LCR == b.AUX_MU_LCR
    &&& a.AUX_MU_MCR == b.AUX_MU_MCR
    &&& a.AUX_MU_CNTL == b.AUX_MU_CNTL
    &&& a.AUX_MU_BAUD == b.AUX_MU_BAUD
}

impl RegisterBlock {
    /// The line-status register tracks the peripheral: the data-ready
    /// bit rises and falls with the receive FIFO, and the transmitter
    /// bits stay set because every transmitted byte goes straight onto
    /// the line.
    pub open spec fn wf(self) -> bool {
        self.AUX_MU_LSR.value() == if self.rx_fifo@.len() > 0 {
            0x61u32
        } else {
            0x60u32
        }
    }

    /// A block as it comes out of reset: registers cleared, FIFOs
    /// empty, transmitter idle.
    pub fn new() -> (rb: RegisterBlock)
        ensures
            rb.wf(),
            rb.AUX_ENABLES.value() == 0,
            rb.AUX_MU_IER.value() == 0,
            rb.AUX_MU_IIR.value() == 0,
            rb.AUX_MU_LCR.value() == 0,
            rb.AUX_MU_MCR.value() == 0,
            rb.AUX_MU_LSR.value() == 0x60,
            rb.AUX_MU_CNTL.value() == 0,
            rb.AUX_MU_BAUD.value() == 0,
            rb.tx_line@ == Seq::<u8>::empty(),
            rb.rx_fifo@ == Seq::<u8>::empty(),
    {
        RegisterBlock {
            AUX_ENABLES: ReadWrite::new(0),
            AUX_MU_IER: WriteOnly::new(0),
            AUX_MU_IIR: WriteOnly::new(0),
            AUX_MU_LCR: WriteOnly::new(0),
            AUX_MU_MCR: WriteOnly::new(0),
            AUX_MU_LSR: ReadOnly::new(0x60),
            AUX_MU_CNTL: WriteOnly::new(0),
            AUX_MU_BAUD: WriteOnly::new(0),
            tx_line: Vec::new(),
            rx_fifo: Vec::new(),
        }
    }

    /// The device side: a byte arrives on the line, enters the receive
    /// FIFO, and the data-ready bit rises with it.
    pub fn device_receive(&mut self, b: u8)
        ensures
            final (self).rx_fifo@ == old(self).rx_fifo@.push(b),
            final (self).tx_line@ == old(self).tx_line@,
            final (self).wf(),
            same_config(*old(self), *final (self)),
    {
        self.rx_fifo.push(b);
        self.AUX_MU_LSR.device_set(0x61);
    }

    /// A processor write of the data register: the byte (the low eight
    /// bits of the written word) goes onto the line.
    pub fn io_write(&mut self, v: u32)
        ensures
            final (self).tx_line@ == old(self).tx_line@.push(v as u8),
            final (self).rx_fifo@ == old(self).rx_fifo@,
            final (self).AUX_MU_LSR == old(self).AUX_MU_LSR,
            same_config(*old(self), *final (self)),
            old(self).wf() ==> final (self).wf(),
    {
        proof {
            let w = v;
            assert(w & 0xFFu32 <= 0xFFu32 && (w & 0xFFu32) as u8 == w as u8) by (bit_vector);
        }
        self.tx_line.push((v & 0xFF) as u8);
    }

    /// A processor read of the data register: the oldest received byte
    /// leaves the FIFO, and the data-ready bit falls when it empties.
    pub fn io_read(&mut self) -> (b: u8)
        requires
            old(self).wf(),
            old(self).rx_fifo@.len() > 0,
        ensures
            b == old(self).rx_fifo@[0],
            final (self).rx_fifo@ == old(self).rx_fifo@.drop_first(),
            final (self).tx_line@ == old(self).tx_line@,
            final (self).wf(),
            same_config(*old(self), *final (self)),
    {
        let b = self.rx_fifo.remove(0);
        if self.rx_fifo.len() == 0 {
            self.AUX_MU_LSR.device_set(0x60);
        } else {
            self.AUX_MU_LSR.device_set(0x61);
        }
        proof {
            assert(self.rx_fifo@ =~= old(self).rx_fifo@.drop_first());
        }
        b
    }

    /// A processor write of the interrupt-identify register: the
    /// FIFO-clear bits empty the corresponding FIFO. The transmit FIFO
    /// of the model is always already empty, so only the receive side
    /// is observable.
    pub fn iir_write(&mut self, fv: FieldValue)
        requires
            fv.wf(),
            old(self).wf(),
        ensures
            final (self).AUX_MU_IIR.value() == fv.value,
            final (self).rx_fifo@ == if fv.value & 2u32 != 0 {
                Seq::<u8>::empty()
            } else {
                old(self).rx_fifo@
            },
            final (self).tx_line@ == old(self).tx_line@,
            final (self).wf(),
            final (self).AUX_ENABLES == old(self).AUX_ENABLES,
            final (self).AUX_MU_IER == old(self).AUX_MU_IER,
            final (self).AUX_MU_LCR == old(self).AUX_MU_LCR,
            final (self).AUX_MU_MCR == old(self).AUX_MU_MCR,
            final (self).AUX_MU_CNTL == old(self).AUX_MU_CNTL,
            final (self).AUX_MU_BAUD == old(self).AUX_MU_BAUD,
    {
        self.AUX_MU_IIR.write(fv);
        if fv.value & 2 != 0 {
            self.rx_fifo.clear();
            self.AUX_MU_LSR.device_set(0x60);
        }
    }
}

/// The byte a character write puts on the line: the low eight bits of
/// its code point.
pub open spec fn byte_of(c: char) -> u8 {
    (c as u32) as u8
}

/// The bytes one character contributes to the output line: a line feed
/// is preceded by an injected carriage return; every other character
/// passes through unaltered.
pub open spec fn translated(c: char) -> Seq<u8> {
    if c == '\n' {
        seq![13u8, 10u8]
    } else {
        seq![byte_of(c)]
    }
}

/// The byte sequence a whole string produces on the output line.
pub open spec fn out_bytes(s: Seq<char>) -> Seq<u8>
    decreases s.len(),
{
    if s.len() == 0 {
        Seq::<u8>::empty()
    } else {
        out_bytes(s.drop_last()) + translated(s.last())
    }
}

/// The character a received byte surfaces as: a carriage return
/// arrives as a line feed; every other byte passes through unaltered.
pub open spec fn in_char(b: u8) -> char {
    if b == 13u8 {
        '\n'
    } else {
        b as char
    }
}

proof fn lemma_out_bytes_step(s: Seq<char>, i: int)
    requires
        0 <= i < s.len(),
    ensures
        out_bytes(s.take(i + 1)) == out_bytes(s.take(i)) + translated(s[i]),
{
    let t = s.take(i + 1);
    assert(t.drop_last() =~= s.take(i));
    assert(out_bytes(t) == out_bytes(t.drop_last()) + translated(t.last()));
}

/// Computes the exact byte sequence a string produces on the output
/// line, with line endings translated; the kernel's shell sends these
/// bytes to the device one by one.
pub fn translate_out(string: &str) -> (bytes: Vec<u8>)
    ensures
        bytes@ == out_bytes(string@),
{
    let len = string.unicode_len();
    let mut bytes: Vec<u8> = Vec::new();
    let mut i: usize = 0;
    while i < len
        invariant
            i <= len,
            len == string@.len(),
            bytes@ == out_bytes(string@.take(i as int)),
        decreases len - i,
    {
        let c = string.get_char(i);
        if c == '\n' {
            bytes.push(13);
        }
        bytes.push((c as u32) as u8);
        proof {
            lemma_out_bytes_step(string@, i as int);
            assert(('\n' as u32) as u8 == 10u8);
            assert(bytes@ =~= out_bytes(string@.take(i + 1)));
        }
        i = i + 1;
    }
    proof {
        assert(string@.take(len as int) =~= string@);
    }
    bytes
}

/// The console driver: a handle on the mini UART register block. The
/// handle owns the modelled block; the kernel's unverified shell keeps
/// the block in step with the device at the base address.
pub struct MiniUart {
    pub base_addr: usize,
    pub regs: RegisterBlock,
}

impl MiniUart {
    /// The base address the handle was created over.
    pub open spec fn base(self) -> usize {
        self.base_addr
    }

    /// The driver is usable while its view of the line-status register
    /// tracks the peripheral.
    pub open spec fn wf(self) -> bool {
        self.regs.wf()
    }

    /// A handle at the board's fixed mini UART base address.
    pub fn new_default() -> (u: MiniUart)
        ensures
            u.base() == UART1_BASE as usize,
            u.wf(),
            u.regs.tx_line@ == Seq::<u8>::empty(),
            u.regs.rx_fifo@ == Seq::<u8>::empty(),
            u.regs.AUX_ENABLES.value() == 0,
    {
        MiniUart::new(UART1_BASE as usize)
    }

    /// A handle at an explicit base address, for a device mapped
    /// elsewhere or for testing.
    pub fn new(base_addr: usize) -> (u: MiniUart)
        ensures
            u.base() == base_addr,
            u.wf(),
            u.regs.tx_line@ == Seq::<u8>::empty(),
            u.regs.rx_fifo@ == Seq::<u8>::empty(),
            u.regs.AUX_ENABLES.value() == 0,
    {
        MiniUart { base_addr, regs: RegisterBlock::new() }
    }

    /// Brings the device from Disabled to Configured: enables the
    /// peripheral, masks interrupts, fixes eight-bit frames with no
    /// parity, clears the FIFOs, programs the baud divisor for the
    /// fixed target rate, routes the two pins to the peripheral with
    /// the mandatory settling delays around the pull-clock toggle, and
    /// enables transmit and receive.
    pub fn init(&mut self, gpio: &mut Gpio)
        requires
            old(self).wf(),
        ensures
            final (self).wf(),
            final (self).base() == old(self).base(),
            final (self).regs.AUX_ENABLES.value() == (old(self).regs.AUX_ENABLES.value() & !1u32)
                | 1u32,
            final (self).regs.AUX_MU_IER.value() == 0,
            final (self).regs.AUX_MU_IIR.value() == 6,
            final (self).regs.AUX_MU_LCR.value() == 3,
            final (self).regs.AUX_MU_MCR.value() == 0,
            final (self).regs.AUX_MU_CNTL.value() == 3,
            final (self).regs.AUX_MU_BAUD.value() == 270,
            final (self).regs.rx_fifo@ == Seq::<u8>::empty(),
            final (self).regs.tx_line@ == old(self).regs.tx_line@,
            final (gpio).GPFSEL1.value() == (old(gpio).GPFSEL1.value() & !0x3F000u32)
                | 0x12000u32,
            final (gpio).GPPUD.value() == 0,
            final (gpio).GPPUDCLK0.value() == 0,
    {
        proof {
            lemma_uart_constants();
            lemma_gpio_constants();
        }
        self.regs.AUX_ENABLES.modify(mini_uart_enable_set());
        self.regs.AUX_MU_IER.set(0);
        self.regs.AUX_MU_CNTL.set(0);
        self.regs.AUX_MU_LCR.write(data_size_eight_bit());
        self.regs.AUX_MU_MCR.set(0);
        self.regs.AUX_MU_IER.set(0);
        self.regs.iir_write(fifo_clear_all());
        self.regs.AUX_MU_BAUD.write(baud_rate(270));

        // route the two UART pins to their alternate function
        gpio.GPFSEL1.modify(fsel14_txd1().combine(fsel15_rxd1()));

        // pull-up/down sequence: each step needs a settling delay
        gpio.GPPUD.set(0);
        loop_delay(150);
        gpio.GPPUDCLK0.write(pudclk14_assert().combine(pudclk15_assert()));
        loop_delay(150);
        gpio.GPPUDCLK0.set(0);

        self.regs.AUX_MU_CNTL.write(cntl_rx_enabled().combine(cntl_tx_enabled()));

        // clear the FIFOs once more before use
        self.regs.iir_write(fifo_clear_all());
    }

    /// Spins until the transmitter is completely idle: everything
    /// handed to the driver has been put on the line.
    pub fn wait_tx_fifo_empty(&self)
        requires
            self.wf(),
    {
        let lsr = &self.regs.AUX_MU_LSR;
        let ready = || -> (b: bool)
            ensures
                b,
            {
                proof {
                    lemma_uart_constants();
                }
                lsr.is_set(lsr_tx_idle())
            };
        loop_until(ready);
    }

    /// Sends one character: spins until the transmit FIFO can accept a
    /// byte, then writes the character's byte to the data register.
    pub fn putc(&mut self, c: char)
        requires
            old(self).wf(),
        ensures
            final (self).wf(),
            final (self).base() == old(self).base(),
            final (self).regs.tx_line@ == old(self).regs.tx_line@.push(byte_of(c)),
            final (self).regs.rx_fifo@ == old(self).regs.rx_fifo@,
            same_config(old(self).regs, final (self).regs),
    {
        {
            let lsr = &self.regs.AUX_MU_LSR;
            let ready = || -> (b: bool)
                ensures
                    b,
                {
                    proof {
                        lemma_uart_constants();
                    }
                    lsr.is_set(lsr_tx_empty())
                };
            loop_until(ready);
        }
        self.regs.io_write(c as u32);
    }

    /// Sends a string, translating line endings: every line feed is
    /// preceded by an injected carriage return; no other character is
    /// altered.
    pub fn puts(&mut self, string: &str)
        requires
            old(self).wf(),
        ensures
            final (self).wf(),
            final (self).base() == old(self).base(),
            final (self).regs.tx_line@ == old(self).regs.tx_line@ + out_bytes(string@),
            final (self).regs.rx_fifo@ == old(self).regs.rx_fifo@,
            same_config(old(self).regs, final (self).regs),
    {
        let len = string.unicode_len();
        let mut i: usize = 0;
        while i < len
            invariant
                old(self).wf(),
                self.wf(),
                self.base() == old(self).base(),
                i <= len,
                len == string@.len(),
                self.regs.tx_line@ == old(self).regs.tx_line@ + out_bytes(
                    string@.take(i as int),
                ),
                self.regs.rx_fifo@ == old(self).regs.rx_fifo@,
                same_config(old(self).regs, self.regs),
            decreases len - i,
        {
            let c = string.get_char(i);
            if c == '\n' {
                self.putc('\r');
            }
            self.putc(c);
            proof {
                lemma_out_bytes_step(string@, i as int);
                assert(('\r' as u32) as u8 == 13u8);
                assert(('\n' as u32) as u8 == 10u8);
                assert(self.regs.tx_line@ =~= old(self).regs.tx_line@ + out_bytes(
                    string@.take(i + 1),
                ));
            }
            i = i + 1;
        }
        proof {
            assert(string@.take(len as int) =~= string@);
        }
    }

    /// Receives one character: spins until the receive FIFO holds a
    /// byte, reads it, and surfaces a received carriage return as a
    /// line feed. In the model nothing arrives while the driver spins,
    /// so a byte must already be waiting.
    pub fn getc(&mut self) -> (c: char)
        requires
            old(self).wf(),
            old(self).regs.rx_fifo@.len() > 0,
        ensures
            final (self).wf(),
            final (self).base() == old(self).base(),
            c == in_char(old(self).regs.rx_fifo@[0]),
            final (self).regs.rx_fifo@ == old(self).regs.rx_fifo@.drop_first(),
            final (self).regs.tx_line@ == old(self).regs.tx_line@,
            same_config(old(self).regs, final (self).regs),
    {
        {
            let lsr = &self.regs.AUX_MU_LSR;
            let ready = || -> (b: bool)
                ensures
                    b,
                {
                    proof {
                        lemma_uart_constants();
                    }
                    lsr.is_set(lsr_data_ready())
                };
            loop_until(ready);
        }
        let b = self.regs.io_read();
        if b == 13 {
            '\n'
        } else {
            b as char
        }
    }

    /// Spins until the transmitter is idle, so every character handed
    /// to the driver is on the line.
    pub fn flush(&self)
        requires
            self.wf(),
    {
        self.wait_tx_fifo_empty();
    }

    /// Tears the console down: clears the peripheral-enable bit, after
    /// which the enable bit reads back as cleared and no further I/O
    /// is to be attempted. The owning scope calls this as it ends.
    pub fn shutdown(&mut self)
        requires
            old(self).wf(),
        ensures
            final (self).wf(),
            final (self).base() == old(self).base(),
            final (self).regs.AUX_ENABLES.value() == old(self).regs.AUX_ENABLES.value() & !1u32,
            final (self).regs.AUX_MU_IER == old(self).regs.AUX_MU_IER,
            final (self).regs.AUX_MU_IIR == old(self).regs.AUX_MU_IIR,
            final (self).regs.AUX_MU_LCR == old(self).regs.AUX_MU_LCR,
            final (self).regs.AUX_MU_MCR == old(self).regs.AUX_MU_MCR,
            final (self).regs.AUX_MU_CNTL == old(self).regs.AUX_MU_CNTL,
            final (self).regs.AUX_MU_BAUD == old(self).regs.AUX_MU_BAUD,
            final (self).regs.tx_line@ == old(self).regs.tx_line@,
            final (self).regs.rx_fifo@ == old(self).regs.rx_fifo@,
    {
        proof {
            let e = old(self).regs.AUX_ENABLES.value();
            assert((e & !1u32) | 0u32 == e & !1u32) by (bit_vector);
        }
        self.regs.AUX_ENABLES.modify(mini_uart_enable_clear());
    }
}

/// The inert console variant, for configurations without attached
/// serial hardware: it answers the same calls as [`MiniUart`], drops
/// every write silently and surfaces a fixed line feed on read. It
/// exists to keep the driver's call sites buildable in hardware-less
/// environments; callers must not rely on it for real I/O.
pub struct InertMiniUart {
    /// The configured state mirrors the real driver's lifecycle; no
    /// device state exists behind it.
    pub configured: bool,
}

impl InertMiniUart {
    pub fn new() -> (u: InertMiniUart)
        ensures
            !u.configured,
    {
        InertMiniUart { configured: false }
    }

    /// Configuration is a no-op: there is no peripheral and no pin to
    /// route, so the GPIO block is left exactly as it was.
    pub fn init(&mut self, gpio: &Gpio)
        ensures
            final (self).configured,
    {
        let _ = gpio;
        self.configured = true;
    }

    /// The write is dropped.
    pub fn putc(&mut self, c: char)
        ensures
            *final (self) == *old(self),
    {
        let _ = c;
    }

    /// The whole string is dropped.
    pub fn puts(&mut self, string: &str)
        ensures
            *final (self) == *old(self),
    {
        let _ = string;
    }

    /// Nothing ever arrives: a fixed line feed is returned so callers
    /// that parse input keep moving.
    pub fn getc(&mut self) -> (c: char)
        ensures
            c == '\n',
            *final (self) == *old(self),
    {
        '\n'
    }

    /// Nothing is in flight, so the transmitter is vacuously idle.
    pub fn flush(&self) {
    }

    pub fn wait_tx_fifo_empty(&self) {
    }
}

} // verus!
