//! The vocabulary shared by all procedures: what the driver may ask of the
//! platform, and how it reads the answer.

use vstd::prelude::*;

verus! {

/// One access that the platform performs on the driver's behalf.
///
/// Register offsets are relative to the controller's base address, FIFO
/// offsets to the start of the byte-addressable FIFO window.
#[derive(Clone, Copy, Debug, PartialEq, Eq, Structural)]
pub enum Access {
    /// Volatile 32-bit read of the register at this offset.
    ReadReg(u32),
    /// Volatile 32-bit write of the value (second) to the register at this
    /// offset (first).
    WriteReg(u32, u32),
    /// Volatile byte read at this offset of the FIFO window.
    ReadFifo(usize),
    /// Volatile byte write of the value (second) at this offset (first) of
    /// the FIFO window.
    WriteFifo(usize, u8),
    /// Read of the monotonic tick counter.
    ReadTick,
}

/// What a procedure hands back each time it is begun or resumed.
#[derive(Clone, Copy, Debug)]
pub enum Step<T> {
    /// Perform this access, then resume with the value it produced.
    Do(Access),
    /// The procedure is over, with this result.
    Done(T),
}

/// The register word carried by a reply: its low 32 bits.
pub open spec fn word_of(reply: u64) -> u32 {
    (reply & 0xFFFF_FFFF) as u32
}

/// The FIFO byte carried by a reply: its low 8 bits.
pub open spec fn byte_of(reply: u64) -> u8 {
    (reply & 0xFF) as u8
}

/// Takes the register word out of a reply.
pub fn word(reply: u64) -> (w: u32)
    ensures
        w == word_of(reply),
{
    let low: u64 = reply & 0xFFFF_FFFF;
    assert(low <= 0xFFFF_FFFF) by (bit_vector)
        requires
            low == reply & 0xFFFF_FFFF,
    ;
    low as u32
}

/// Takes the FIFO byte out of a reply.
pub fn byte(reply: u64) -> (b: u8)
    ensures
        b == byte_of(reply),
{
    let low: u64 = reply & 0xFF;
    assert(low <= 0xFF) by (bit_vector)
        requires
            low == reply & 0xFF,
    ;
    low as u8
}

} // verus!
