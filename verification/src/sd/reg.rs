//! Register map of the controller and the bits of each register that the
//! driver reads or sets.

use vstd::prelude::*;

verus! {

/// Control register.
pub const REG_CTRL: u32 = 0x000;

/// CTRL: reset of the controller logic; clears itself.
pub const CTRL_CONTROLLER_RESET: u32 = 0x1;

/// CTRL: reset of the FIFO pointers; clears itself.
pub const CTRL_FIFO_RESET: u32 = 0x2;

/// CTRL: reset of the internal DMA interface; clears itself.
pub const CTRL_DMA_RESET: u32 = 0x4;

/// CTRL: the three reset bits together.
pub const CTRL_RESET_ALL: u32 = 0x7;

/// Power enable register.
pub const REG_PWREN: u32 = 0x004;

/// Clock divider register.
pub const REG_CLKDIV: u32 = 0x008;

/// Clock enable register.
pub const REG_CLKENA: u32 = 0x010;

/// Timeout register.
pub const REG_TMOUT: u32 = 0x014;

/// Default data timeout, in the unit of whoever uses it.
pub const DATA_TMOUT_DEFAULT: u32 = 0xFFFF_FF00;

/// Card type (bus width) register.
pub const REG_CTYPE: u32 = 0x018;

/// Block size register.
pub const REG_BLKSIZ: u32 = 0x01C;

/// Size of the one block that every transfer moves, in bytes.
pub const BLKSIZ_DEFAULT: u32 = 0x200;

/// Byte count register.
pub const REG_BYTCNT: u32 = 0x020;

/// Interrupt mask register.
pub const REG_INTMASK: u32 = 0x024;

/// Command argument register.
pub const REG_CMDARG: u32 = 0x028;

/// Command register; writing it issues the command.
pub const REG_CMD: u32 = 0x02C;

/// CMD: start the command; cleared by the controller once it is taken.
pub const CMD_START: u32 = 0x8000_0000;

/// CMD: route the command through the hold register.
pub const CMD_USE_HOLD_REG: u32 = 0x2000_0000;

/// CMD: only update the clock registers, send nothing to the card.
pub const CMD_UPDATE_CLOCK_ONLY: u32 = 0x0020_0000;

/// CMD: send the initialization sequence before the command.
pub const CMD_SEND_INITIALIZATION: u32 = 0x0000_8000;

/// CMD: the command stops or aborts a transfer.
pub const CMD_STOP_ABORT: u32 = 0x0000_4000;

/// CMD: wait for the previous data transfer to complete.
pub const CMD_WAIT_PRVDATA_COMPLETE: u32 = 0x0000_2000;

/// CMD: the data transfer is a write to the card.
pub const CMD_WRITE: u32 = 0x0000_0400;

/// CMD: a data transfer follows the command.
pub const CMD_DATA_EXPECTED: u32 = 0x0000_0200;

/// CMD: check the CRC of the response.
pub const CMD_CHECK_RESPONSE_CRC: u32 = 0x0000_0100;

/// CMD: the response is long (136 bits).
pub const CMD_RESPONSE_LENGTH: u32 = 0x0000_0080;

/// CMD: a response is expected.
pub const CMD_RESPONSE_EXPECT: u32 = 0x0000_0040;

/// CMD: the bits that hold the command index.
pub const CMD_INDEX: u32 = 0x0000_003F;

/// Response registers, least significant word first.
pub const REG_RESP0: u32 = 0x030;

pub const REG_RESP1: u32 = 0x034;

pub const REG_RESP2: u32 = 0x038;

pub const REG_RESP3: u32 = 0x03C;

/// Raw interrupt status register; a bit is cleared by writing it back.
pub const REG_RINTSTS: u32 = 0x044;

/// RINTSTS: every bit.
pub const INT_ALL: u32 = 0xFFFF_FFFF;

/// RINTSTS: end-bit error.
pub const INT_EBE: u32 = 0x8000;

/// RINTSTS: start-bit error.
pub const INT_SBE: u32 = 0x2000;

/// RINTSTS: hardware locked error, the write to CMD was rejected.
pub const INT_HLE: u32 = 0x1000;

/// RINTSTS: FIFO underrun or overrun.
pub const INT_FRUN: u32 = 0x0800;

/// RINTSTS: data read timeout.
pub const INT_DRTO: u32 = 0x0200;

/// RINTSTS: response timeout.
pub const INT_RTO: u32 = 0x0100;

/// RINTSTS: data CRC error.
pub const INT_DCRC: u32 = 0x0080;

/// RINTSTS: receive FIFO data request.
pub const INT_RXDR: u32 = 0x0020;

/// RINTSTS: transmit FIFO data request.
pub const INT_TXDR: u32 = 0x0010;

/// RINTSTS: data transfer over.
pub const INT_DTO: u32 = 0x0008;

/// RINTSTS: command done.
pub const INT_CMD: u32 = 0x0004;

/// RINTSTS: response error.
pub const INT_RE: u32 = 0x0002;

/// Status register.
pub const REG_STATUS: u32 = 0x048;

/// STATUS: the card holds the data line busy.
pub const STATUS_DATA_BUSY: u32 = 0x0200;

/// Hardware configuration register.
pub const REG_HCON: u32 = 0x070;

/// Bus mode register.
pub const REG_BMOD: u32 = 0x080;

/// Whether a register word has any bit of `mask` set.
pub open spec fn any_set(word: u32, mask: u32) -> bool {
    word & mask != 0
}


/// The field of a register that starts at bit `low` and is as wide as
/// `mask`, which is a run of ones from bit 0.
pub open spec fn bits_of(word: u32, low: u32, mask: u32) -> u32 {
    (word >> low) & mask
}

/// Data width of the host bus.
#[derive(Debug, Clone, Copy, PartialEq, Eq, Structural)]
pub enum DataWidth {
    Bits16,
    Bits32,
    Bits64,
    Other,
}

/// DMA interface of the controller.
#[derive(Debug, Clone, Copy, PartialEq, Eq, Structural)]
pub enum DmaInterface {
    Absent,
    DwDma,
    GenericDma,
    NonDwDma,
}

/// The hardware configuration register: how the controller was built.
#[derive(Debug, Clone, Copy)]
pub struct HardConf(pub u32);

impl View for HardConf {
    type V = u32;

    open spec fn view(&self) -> u32 {
        self.0
    }
}

impl From<u32> for HardConf {
    fn from(value: u32) -> (r: HardConf) {
        HardConf(value)
    }
}

impl vstd::std_specs::convert::FromSpecImpl<u32> for HardConf {
    open spec fn obeys_from_spec() -> bool {
        true
    }

    open spec fn from_spec(value: u32) -> HardConf {
        HardConf(value)
    }
}

impl HardConf {
    /// Whether the controller takes SD cards as well as MMC: bit 0.
    pub fn sd_mmc(&self) -> (b: bool)
        ensures
            b == any_set(self@, 0x1),
    {
        self.0 & 0x1 != 0
    }

    /// Number of cards less one: the five bits from bit 1.
    pub fn num_cards_sub1(&self) -> (n: u32)
        ensures
            n == bits_of(self@, 1, 0x1F),
    {
        (self.0 >> 1) & 0x1F
    }

    /// Whether the host bus is AHB, not APB: bit 6.
    pub fn ahb(&self) -> (b: bool)
        ensures
            b == any_set(self@, 0x40),
    {
        self.0 & 0x40 != 0
    }

    /// Data width of the host bus: the three bits from bit 7, which count
    /// 16, 32 and 64 bits from zero.
    pub fn h_data_width(&self) -> (w: DataWidth)
        ensures
            w == if bits_of(self@, 7, 0x7) == 0 {
                DataWidth::Bits16
            } else if bits_of(self@, 7, 0x7) == 1 {
                DataWidth::Bits32
            } else if bits_of(self@, 7, 0x7) == 2 {
                DataWidth::Bits64
            } else {
                DataWidth::Other
            },
    {
        let code: u32 = (self.0 >> 7) & 0x7;
        match code {
            0 => DataWidth::Bits16,
            1 => DataWidth::Bits32,
            2 => DataWidth::Bits64,
            _ => DataWidth::Other,
        }
    }

    /// Address width of the host bus, encoded: the six bits from bit 10.
    pub fn h_addr_width(&self) -> (w: u32)
        ensures
            w == bits_of(self@, 10, 0x3F),
    {
        (self.0 >> 10) & 0x3F
    }

    /// DMA interface: the two bits from bit 16.
    pub fn dma_interface(&self) -> (d: DmaInterface)
        ensures
            d == if bits_of(self@, 16, 0x3) == 0 {
                DmaInterface::Absent
            } else if bits_of(self@, 16, 0x3) == 1 {
                DmaInterface::DwDma
            } else if bits_of(self@, 16, 0x3) == 2 {
                DmaInterface::GenericDma
            } else {
                DmaInterface::NonDwDma
            },
    {
        let code: u32 = (self.0 >> 16) & 0x3;
        match code {
            0 => DmaInterface::Absent,
            1 => DmaInterface::DwDma,
            2 => DmaInterface::GenericDma,
            _ => DmaInterface::NonDwDma,
        }
    }

    /// Data width of the generic DMA interface, encoded: the three bits
    /// from bit 18.
    pub fn ge_dma_data_width(&self) -> (w: u32)
        ensures
            w == bits_of(self@, 18, 0x7),
    {
        (self.0 >> 18) & 0x7
    }

    /// Whether the FIFO memory is inside the controller: bit 21.
    pub fn fifo_ram_inside(&self) -> (b: bool)
        ensures
            b == any_set(self@, 0x20_0000),
    {
        self.0 & 0x20_0000 != 0
    }

    /// Whether the controller has a hold register: bit 22.
    pub fn impl_hold_reg(&self) -> (b: bool)
        ensures
            b == any_set(self@, 0x40_0000),
    {
        self.0 & 0x40_0000 != 0
    }

    /// Whether the clock false path is set: bit 23.
    pub fn set_clk_false_path(&self) -> (b: bool)
        ensures
            b == any_set(self@, 0x80_0000),
    {
        self.0 & 0x80_0000 != 0
    }

    /// Number of clock dividers less one: the two bits from bit 24.
    pub fn num_clk_div_sub1(&self) -> (n: u32)
        ensures
            n == bits_of(self@, 24, 0x3),
    {
        (self.0 >> 24) & 0x3
    }

    /// Whether the controller was optimized for area: bit 26.
    pub fn area_optimized(&self) -> (b: bool)
        ensures
            b == any_set(self@, 0x400_0000),
    {
        self.0 & 0x400_0000 != 0
    }

    /// Depth of the FIFO, encoded: the five bits from bit 27.
    pub fn fifo_depth(&self) -> (n: u32)
        ensures
            n == bits_of(self@, 27, 0x1F),
    {
        (self.0 >> 27) & 0x1F
    }
}

} // verus!
