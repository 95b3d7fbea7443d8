//! The UART that carries the log: what to write to its line control
//! register, and when it takes a byte.

use vstd::prelude::*;
use self::config::{Break, ParitySelect, Parity, StopBits, WordLength, DLAB};

pub mod config;

verus! {

/// Address of the first UART.
pub const UART0_BASE: u64 = 0x10000000;

/// Offset of the line control register.
pub const UART_LCR: u64 = 3;

/// Offset of the line status register.
pub const UART_LSR: u64 = 0x14;

/// A UART at a base address.
#[derive(Copy, Clone, Debug)]
pub struct Uart {
    pub base_address: u64,
}

/// The line control value of a group of settings, in arithmetic: the word
/// length code, and above it one bit each for the stop bits (worth 4), the
/// parity (8), the parity select (16), the break (64) and the divisor latch
/// access (128).
pub open spec fn lcr_value(
    word_length: WordLength,
    stop_bits: StopBits,
    parity_bit: Parity,
    parity_select: ParitySelect,
    brk: Break,
    dlab: DLAB,
) -> int {
    word_length.code() + 4 * stop_bits.code() + 8 * parity_bit.code() + 16 * parity_select.code()
        + 64 * brk.code() + 128 * dlab.code()
}

impl Uart {
    /// The UART at this base address.
    pub fn new(base_address: u64) -> (uart: Uart)
        ensures
            uart.base_address == base_address,
    {
        Uart { base_address }
    }

    /// The byte to write to the line control register for these settings.
    pub fn set_lcr(
        &self,
        word_length: WordLength,
        stop_bits: StopBits,
        parity_bit: Parity,
        parity_select: ParitySelect,
        brk: Break,
        dlab: DLAB,
    ) -> (lcr: u8)
        ensures
            lcr == lcr_value(word_length, stop_bits, parity_bit, parity_select, brk, dlab),
    {
        let w: u8 = word_length.bits();
        let s: u8 = stop_bits.bits();
        let p: u8 = parity_bit.bits();
        let e: u8 = parity_select.bits();
        let b: u8 = brk.bits();
        let d: u8 = dlab.bits();
        proof {
            lemma_lcr_bits(w, s, p, e, b, d);
        }
        w | (s << 2) | (p << 3) | (e << 4) | (b << 6) | (d << 7)
    }

    /// Whether a value of the line status register shows the transmit
    /// holding register empty, so that the UART takes a byte: bit 5.
    pub fn can_put(&self, lsr: u32) -> (ready: bool)
        ensures
            ready == ((lsr >> 5) & 1 == 1),
    {
        (lsr >> 5) & 1 == 1
    }
}

/// The fields of the line control register do not overlap, so joining
/// them bit by bit adds them up.
pub proof fn lemma_lcr_bits(w: u8, s: u8, p: u8, e: u8, b: u8, d: u8)
    by (bit_vector)
    requires
        w <= 3,
        s <= 1,
        p <= 1,
        e <= 1,
        b <= 1,
        d <= 1,
    ensures
        w | (s << 2) | (p << 3) | (e << 4) | (b << 6) | (d << 7) == w + 4 * s + 8 * p + 16 * e + 64
            * b + 128 * d,
{
}

} // verus!
