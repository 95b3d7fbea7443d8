//! Settings of the UART's line control register.

use vstd::prelude::*;

verus! {

/// Divisor of the baud rate generator.
pub const DIVISOR: u8 = 13;

/// Word length.
#[derive(Copy, Clone, Debug, PartialEq, Eq, Structural)]
pub enum WordLength {
    FIVE,
    SIX,
    SEVEN,
    EIGHT,
}

/// Number of stop bits.
#[derive(Copy, Clone, Debug, PartialEq, Eq, Structural)]
pub enum StopBits {
    ONE,
    TWO,
}

/// Parity bits.
#[derive(Copy, Clone, Debug, PartialEq, Eq, Structural)]
pub enum Parity {
    DISABLE,
    ENABLE,
}

/// Parity select.
#[derive(Copy, Clone, Debug, PartialEq, Eq, Structural)]
pub enum ParitySelect {
    EVEN,
    ODD,
}

/// Break.
#[derive(Copy, Clone, Debug, PartialEq, Eq, Structural)]
pub enum Break {
    DISABLE,
    ENABLE,
}

/// Divisor latch access bit.
#[derive(Copy, Clone, Debug, PartialEq, Eq, Structural)]
pub enum DLAB {
    CLEAR,
    SET,
}

/// DMA mode select.
#[derive(Copy, Clone, Debug, PartialEq, Eq, Structural)]
pub enum DMAMode {
    MODE0,
    MODE1,
}

impl WordLength {
    /// The code of the word length in the line control register: the
    /// length minus five.
    pub open spec fn code(self) -> u8 {
        match self {
            WordLength::FIVE => 0,
            WordLength::SIX => 1,
            WordLength::SEVEN => 2,
            WordLength::EIGHT => 3,
        }
    }

    /// The code of the word length.
    pub fn bits(self) -> (b: u8)
        ensures
            b == self.code(),
    {
        match self {
            WordLength::FIVE => 0,
            WordLength::SIX => 1,
            WordLength::SEVEN => 2,
            WordLength::EIGHT => 3,
        }
    }
}

impl StopBits {
    /// The code of the setting: one for two stop bits.
    pub open spec fn code(self) -> u8 {
        match self {
            StopBits::ONE => 0,
            StopBits::TWO => 1,
        }
    }

    /// The code of the setting.
    pub fn bits(self) -> (b: u8)
        ensures
            b == self.code(),
    {
        match self {
            StopBits::ONE => 0,
            StopBits::TWO => 1,
        }
    }
}

impl Parity {
    /// The code of the setting: one for parity enabled.
    pub open spec fn code(self) -> u8 {
        match self {
            Parity::DISABLE => 0,
            Parity::ENABLE => 1,
        }
    }

    /// The code of the setting.
    pub fn bits(self) -> (b: u8)
        ensures
            b == self.code(),
    {
        match self {
            Parity::DISABLE => 0,
            Parity::ENABLE => 1,
        }
    }
}

impl ParitySelect {
    /// The code of the setting: one for odd parity.
    pub open spec fn code(self) -> u8 {
        match self {
            ParitySelect::EVEN => 0,
            ParitySelect::ODD => 1,
        }
    }

    /// The code of the setting.
    pub fn bits(self) -> (b: u8)
        ensures
            b == self.code(),
    {
        match self {
            ParitySelect::EVEN => 0,
            ParitySelect::ODD => 1,
        }
    }
}

impl Break {
    /// The code of the setting: one for break enabled.
    pub open spec fn code(self) -> u8 {
        match self {
            Break::DISABLE => 0,
            Break::ENABLE => 1,
        }
    }

    /// The code of the setting.
    pub fn bits(self) -> (b: u8)
        ensures
            b == self.code(),
    {
        match self {
            Break::DISABLE => 0,
            Break::ENABLE => 1,
        }
    }
}

impl DLAB {
    /// The code of the setting: one for the divisor latch open.
    pub open spec fn code(self) -> u8 {
        match self {
            DLAB::CLEAR => 0,
            DLAB::SET => 1,
        }
    }

    /// The code of the setting.
    pub fn bits(self) -> (b: u8)
        ensures
            b == self.code(),
    {
        match self {
            DLAB::CLEAR => 0,
            DLAB::SET => 1,
        }
    }
}

} // verus!
