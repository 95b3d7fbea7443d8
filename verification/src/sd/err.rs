//! The driver's errors, and the classification of data-phase interrupts.

use vstd::prelude::*;
use vstd::std_specs::convert::FromSpecImpl;
use super::reg::{any_set, INT_DCRC, INT_DRTO, INT_EBE, INT_FRUN, INT_HLE, INT_SBE};

verus! {

/// Why a procedure of the driver failed.
#[derive(Debug, Clone, Copy, PartialEq, Eq, Structural)]
pub enum CardError {
    /// An initialization failure that fits no other kind.
    CardInitErr,
    /// The controller raised an error interrupt.
    InterruptErr(Interrupt),
    /// A bounded wait ran out.
    TimeoutErr(Timeout),
    /// The card did not echo the interface condition that was sent.
    VoltagePattern,
    /// The data watchdog expired during a block transfer.
    DataTransferTimeout,
}

/// Which bounded wait ran out.
#[derive(Debug, Clone, Copy, PartialEq, Eq, Structural)]
pub enum Timeout {
    /// The reset bits of CTRL never cleared.
    WaitReset,
    /// The start bit of CMD never cleared.
    WaitCmdLine,
    /// The command-done interrupt never came.
    WaitCmdDone,
    /// The card never released the data line.
    WaitDataLine,
    /// Reserved.
    FifoStatus,
}

/// Which error interrupt the controller raised.
#[derive(Debug, Clone, Copy, PartialEq, Eq, Structural)]
pub enum Interrupt {
    ResponseTimeout,
    ResponseErr,
    EndBitErr,
    StartBitErr,
    HardwareLock,
    Fifo,
    DataReadTimeout,
    DataCrc,
}

impl From<Timeout> for CardError {
    fn from(value: Timeout) -> (e: CardError) {
        CardError::TimeoutErr(value)
    }
}

impl FromSpecImpl<Timeout> for CardError {
    open spec fn obeys_from_spec() -> bool {
        true
    }

    open spec fn from_spec(value: Timeout) -> CardError {
        CardError::TimeoutErr(value)
    }
}

impl From<Interrupt> for CardError {
    fn from(value: Interrupt) -> (e: CardError) {
        CardError::InterruptErr(value)
    }
}

impl FromSpecImpl<Interrupt> for CardError {
    open spec fn obeys_from_spec() -> bool {
        true
    }

    open spec fn from_spec(value: Interrupt) -> CardError {
        CardError::InterruptErr(value)
    }
}

impl Interrupt {
    /// The data-phase error that an interrupt status word reports: of the
    /// error bits that are set, the one of highest rank. From the highest
    /// rank down: end-bit error, start-bit error, hardware lock, FIFO
    /// under/overrun, data read timeout, data CRC error.
    pub open spec fn reported(mask: u32) -> Option<Interrupt> {
        if any_set(mask, INT_EBE) {
            Some(Interrupt::EndBitErr)
        } else if any_set(mask, INT_SBE) {
            Some(Interrupt::StartBitErr)
        } else if any_set(mask, INT_HLE) {
            Some(Interrupt::HardwareLock)
        } else if any_set(mask, INT_FRUN) {
            Some(Interrupt::Fifo)
        } else if any_set(mask, INT_DRTO) {
            Some(Interrupt::DataReadTimeout)
        } else if any_set(mask, INT_DCRC) {
            Some(Interrupt::DataCrc)
        } else {
            None
        }
    }

    /// Classifies an interrupt status word read during a data transfer:
    /// `Ok` when none of the six data-phase error bits is set, otherwise the
    /// error of highest rank among those set.
    pub fn check(mask: u32) -> (ret: Result<(), Interrupt>)
        ensures
            ret == match Interrupt::reported(mask) {
                Some(e) => Err::<(), Interrupt>(e),
                None => Ok::<(), Interrupt>(()),
            },
    {
        let mut ret = Ok(());
        if mask & INT_DCRC != 0 {
            ret = Err(Interrupt::DataCrc);
        }
        if mask & INT_DRTO != 0 {
            ret = Err(Interrupt::DataReadTimeout);
        }
        if mask & INT_FRUN != 0 {
            ret = Err(Interrupt::Fifo);
        }
        if mask & INT_HLE != 0 {
            ret = Err(Interrupt::HardwareLock);
        }
        if mask & INT_SBE != 0 {
            ret = Err(Interrupt::StartBitErr);
        }
        if mask & INT_EBE != 0 {
            ret = Err(Interrupt::EndBitErr);
        }
        ret
    }
}

} // verus!
