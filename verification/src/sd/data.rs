//! The data engine: moves the one block of a transfer through the FIFO by
//! programmed I/O, under the data watchdog.

use vstd::prelude::*;
use crate::bus::{byte, byte_of, Access, Step};
use crate::timer::{limit_after, ticks_in, Timer};
use super::err::{CardError, Interrupt};
use super::reg::{
    any_set, INT_DTO, INT_RXDR, INT_TXDR, REG_RINTSTS, REG_STATUS,
};
use super::utils::{fifo_cnt, fifo_count, Activity, Outcome, Task};

verus! {

/// Length of the data watchdog, in microseconds: the default data timeout
/// taken as microseconds.
pub const WATCHDOG_MICROS: u64 = 4_294_967_040;

/// Pause between two looks at the interrupt status, in microseconds.
pub const POLL_PAUSE_MICROS: u64 = 10;

/// Bytes in a block.
pub const BLOCK_LEN: usize = 512;

/// Where the transfer of a block from the card stands.
#[derive(Debug, Clone, Copy)]
pub enum ReadStage {
    /// Reading the tick counter, to start the watchdog.
    Arm,
    /// Reading the interrupt status.
    Status,
    /// Pausing; holds the interrupt status.
    Pause(u32),
    /// Reading the tick counter, to hold it against the watchdog; holds the
    /// interrupt status.
    Watchdog(u32),
    /// Reading STATUS, for the number of bytes in the FIFO.
    Level,
    /// Reading the next byte from the FIFO.
    Byte,
    /// Writing the receive request back, to clear it.
    Ack,
    /// Reading the interrupt status a last time.
    Settle,
    /// Writing this interrupt status back, to clear it.
    Clear(u32),
    /// Over, with this result.
    Finished(Result<(), CardError>),
}

/// The transfer of a block from the card, in progress.
#[derive(Debug, Clone, Copy)]
pub struct ReadData {
    pub stage: ReadStage,
    pub task: Task,
    /// The watchdog.
    pub timer: Timer,
    /// Number of bytes taken from the FIFO so far.
    pub offset: usize,
}

impl ReadData {
    /// What the engine does in its stage; nothing once it is over.
    pub open spec fn activity(self) -> Option<Activity> {
        match self.stage {
            ReadStage::Arm => Some(Activity::Io(Access::ReadTick)),
            ReadStage::Status => Some(Activity::Io(Access::ReadReg(REG_RINTSTS))),
            ReadStage::Pause(_) => Some(Activity::Pause(POLL_PAUSE_MICROS)),
            ReadStage::Watchdog(_) => Some(Activity::Io(Access::ReadTick)),
            ReadStage::Level => Some(Activity::Io(Access::ReadReg(REG_STATUS))),
            ReadStage::Byte => Some(Activity::Io(Access::ReadFifo(self.offset))),
            ReadStage::Ack => Some(Activity::Io(Access::WriteReg(REG_RINTSTS, INT_RXDR))),
            ReadStage::Settle => Some(Activity::Io(Access::ReadReg(REG_RINTSTS))),
            ReadStage::Clear(mask) => Some(Activity::Io(Access::WriteReg(REG_RINTSTS, mask))),
            ReadStage::Finished(_) => None,
        }
    }

    /// The engine at another stage.
    pub open spec fn at(self, stage: ReadStage) -> ReadData {
        ReadData { stage, task: self.task, timer: self.timer, offset: self.offset }
    }

    /// The engine at its next stage, given how the activity of this one
    /// ended.
    ///
    /// An interrupt status that shows the end of the transfer when the block
    /// is complete ends the loop; after it the engine clears what is
    /// pending and is done. Otherwise an error bit ends the engine with the
    /// error of highest rank. Otherwise the engine pauses and then looks at
    /// the watchdog, which ends it when it has run out. Otherwise, where
    /// the status asked for data or showed the end of the transfer, the
    /// engine takes bytes from the FIFO while it holds any and the block
    /// has room, and then clears the request.
    pub open spec fn advanced(self, outcome: Outcome) -> ReadData {
        match self.stage {
            ReadStage::Arm => ReadData {
                stage: ReadStage::Status,
                task: self.task,
                timer: Timer {
                    deadline: limit_after(outcome.reading(), ticks_in(WATCHDOG_MICROS) as u64),
                },
                offset: self.offset,
            },
            ReadStage::Status => if self.offset == BLOCK_LEN && any_set(outcome.word(), INT_DTO) {
                self.at(ReadStage::Settle)
            } else {
                match Interrupt::reported(outcome.word()) {
                    Some(e) => self.at(ReadStage::Finished(Err(CardError::InterruptErr(e)))),
                    None => self.at(ReadStage::Pause(outcome.word())),
                }
            },
            ReadStage::Pause(mask) => self.at(ReadStage::Watchdog(mask)),
            ReadStage::Watchdog(mask) => if outcome.reading() >= self.timer.deadline {
                self.at(ReadStage::Finished(Err(CardError::DataTransferTimeout)))
            } else if any_set(mask, INT_RXDR) || any_set(mask, INT_DTO) {
                self.at(ReadStage::Level)
            } else {
                self.at(ReadStage::Status)
            },
            ReadStage::Level => if fifo_count(outcome.word()) > 0 && self.offset < BLOCK_LEN {
                self.at(ReadStage::Byte)
            } else {
                self.at(ReadStage::Ack)
            },
            ReadStage::Byte => ReadData {
                stage: ReadStage::Level,
                task: self.task,
                timer: self.timer,
                offset: if self.offset < BLOCK_LEN {
                    (self.offset + 1) as usize
                } else {
                    self.offset
                },
            },
            ReadStage::Ack => self.at(ReadStage::Status),
            ReadStage::Settle => self.at(ReadStage::Clear(outcome.word())),
            ReadStage::Clear(_) => self.at(ReadStage::Finished(Ok(()))),
            ReadStage::Finished(_) => self,
        }
    }

    /// The block once the activity of the stage has ended: a byte read from
    /// the FIFO goes to the place of its offset, nothing else is stored.
    pub open spec fn placed(self, block: Seq<u8>, outcome: Outcome) -> Seq<u8> {
        if self.stage is Byte && self.offset < BLOCK_LEN {
            block.update(self.offset as int, byte_of(outcome.reading()))
        } else {
            block
        }
    }

    /// The block after one more reply: the reply that ends the read of a
    /// byte stores that byte, every other reply leaves the block as it is.
    pub open spec fn stores(self, block: Seq<u8>, reply: u64) -> Seq<u8> {
        match self.task.next(reply).1 {
            Step::Done(outcome) => if self.stage is Finished {
                block
            } else {
                self.placed(block, outcome)
            },
            Step::Do(_) => block,
        }
    }

    /// The engine as it is begun.
    pub open spec fn begun() -> ReadData {
        ReadData {
            stage: ReadStage::Arm,
            task: Task::Io(Access::ReadTick),
            timer: Timer { deadline: 0 },
            offset: 0,
        }
    }

    /// The access that is out; none once the engine is over.
    pub open spec fn pending(self) -> Option<Access> {
        match self.stage {
            ReadStage::Finished(_) => None,
            _ => Some(self.task.pending()),
        }
    }

    /// The result, once the engine is over.
    pub open spec fn result(self) -> Option<Result<(), CardError>> {
        match self.stage {
            ReadStage::Finished(result) => Some(result),
            _ => None,
        }
    }

    /// The engine after one more reply, and what follows: the activity of
    /// the stage goes on, or it is over and the next stage is entered with
    /// the first access of its activity. An engine that is over stays so.
    pub open spec fn next(self, reply: u64) -> (ReadData, Step<Result<(), CardError>>) {
        match self.stage {
            ReadStage::Finished(result) => (self, Step::Done(result)),
            _ => match self.task.next(reply).1 {
                Step::Do(access) => (
                    ReadData {
                        stage: self.stage,
                        task: self.task.next(reply).0,
                        timer: self.timer,
                        offset: self.offset,
                    },
                    Step::Do(access),
                ),
                Step::Done(outcome) => {
                    let moved = self.advanced(outcome);
                    match moved.stage {
                        ReadStage::Finished(result) => (
                            ReadData {
                                stage: moved.stage,
                                task: self.task.next(reply).0,
                                timer: moved.timer,
                                offset: moved.offset,
                            },
                            Step::Done(result),
                        ),
                        _ => (
                            ReadData {
                                stage: moved.stage,
                                task: moved.activity()->0.begun(),
                                timer: moved.timer,
                                offset: moved.offset,
                            },
                            Step::Do(moved.activity()->0.begun().pending()),
                        ),
                    }
                },
            },
        }
    }

    /// What to do in the stage.
    pub fn action(&self) -> (a: Option<Activity>)
        ensures
            a == self.activity(),
            a matches Some(activity) ==> activity.wf(),
    {
        match self.stage {
            ReadStage::Arm => Some(Activity::Io(Access::ReadTick)),
            ReadStage::Status => Some(Activity::Io(Access::ReadReg(REG_RINTSTS))),
            ReadStage::Pause(_) => Some(Activity::Pause(POLL_PAUSE_MICROS)),
            ReadStage::Watchdog(_) => Some(Activity::Io(Access::ReadTick)),
            ReadStage::Level => Some(Activity::Io(Access::ReadReg(REG_STATUS))),
            ReadStage::Byte => Some(Activity::Io(Access::ReadFifo(self.offset))),
            ReadStage::Ack => Some(Activity::Io(Access::WriteReg(REG_RINTSTS, INT_RXDR))),
            ReadStage::Settle => Some(Activity::Io(Access::ReadReg(REG_RINTSTS))),
            ReadStage::Clear(mask) => Some(Activity::Io(Access::WriteReg(REG_RINTSTS, mask))),
            ReadStage::Finished(_) => None,
        }
    }

    /// Moves to the next stage, and puts a byte read from the FIFO into the
    /// block.
    pub fn advance(&mut self, outcome: Outcome, buf: &mut [u8; 512])
        ensures
            *final(self) == old(self).advanced(outcome),
            final(buf)@ == old(self).placed(old(buf)@, outcome),
    {
        let mask: u32 = outcome.value();
        match self.stage {
            ReadStage::Arm => {
                self.timer = Timer::start(outcome.reply(), WATCHDOG_MICROS);
                self.stage = ReadStage::Status;
            },
            ReadStage::Status => {
                if self.offset == BLOCK_LEN && mask & INT_DTO != 0 {
                    self.stage = ReadStage::Settle;
                } else {
                    match Interrupt::check(mask) {
                        Err(e) => {
                            self.stage = ReadStage::Finished(Err(CardError::InterruptErr(e)));
                        },
                        Ok(_) => {
                            self.stage = ReadStage::Pause(mask);
                        },
                    }
                }
            },
            ReadStage::Pause(seen) => {
                self.stage = ReadStage::Watchdog(seen);
            },
            ReadStage::Watchdog(seen) => {
                if self.timer.timeout(outcome.reply()) {
                    self.stage = ReadStage::Finished(Err(CardError::DataTransferTimeout));
                } else if seen & INT_RXDR != 0 || seen & INT_DTO != 0 {
                    self.stage = ReadStage::Level;
                } else {
                    self.stage = ReadStage::Status;
                }
            },
            ReadStage::Level => {
                if fifo_cnt(mask) > 0 && self.offset < BLOCK_LEN {
                    self.stage = ReadStage::Byte;
                } else {
                    self.stage = ReadStage::Ack;
                }
            },
            ReadStage::Byte => {
                if self.offset < BLOCK_LEN {
                    buf[self.offset] = byte(outcome.reply());
                    self.offset += 1;
                }
                self.stage = ReadStage::Level;
            },
            ReadStage::Ack => {
                self.stage = ReadStage::Status;
            },
            ReadStage::Settle => {
                self.stage = ReadStage::Clear(mask);
            },
            ReadStage::Clear(_) => {
                self.stage = ReadStage::Finished(Ok(()));
            },
            ReadStage::Finished(_) => {},
        }
    }

    /// Takes the reply to the last access, puts a byte that it brought into
    /// `buf`, and says what to do next: the next access, or that the block
    /// is complete, or why it is not.
    pub fn resume(&mut self, reply: u64, buf: &mut [u8; 512]) -> (step: Step<
        Result<(), CardError>,
    >)
        ensures
            (*final(self), step) == old(self).next(reply),
            final(buf)@ == old(self).stores(old(buf)@, reply),
    {
        if let ReadStage::Finished(result) = self.stage {
            return Step::Done(result);
        }
        let mut task = self.task;
        match task.resume(reply) {
            Step::Do(access) => {
                self.task = task;
                Step::Do(access)
            },
            Step::Done(outcome) => {
                self.advance(outcome, buf);
                match self.action() {
                    Some(activity) => {
                        let (begun, access) = activity.begin();
                        self.task = begun;
                        Step::Do(access)
                    },
                    None => {
                        self.task = task;
                        match self.stage {
                            ReadStage::Finished(result) => Step::Done(result),
                            _ => Step::Done(Err(CardError::CardInitErr)),
                        }
                    },
                }
            },
        }
    }
}

/// Begins the transfer of a block from the card; the first access reads the
/// tick counter, to start the watchdog.
pub fn read_data() -> (begun: (ReadData, Access))
    ensures
        begun == (ReadData::begun(), Access::ReadTick),
{
    (
        ReadData {
            stage: ReadStage::Arm,
            task: Task::Io(Access::ReadTick),
            timer: Timer { deadline: 0 },
            offset: 0,
        },
        Access::ReadTick,
    )
}


/// Where the transfer of a block to the card stands.
#[derive(Debug, Clone, Copy)]
pub enum WriteStage {
    /// Reading the tick counter, to start the watchdog.
    Arm,
    /// Reading the interrupt status.
    Status,
    /// Pausing; holds the interrupt status.
    Pause(u32),
    /// Reading the tick counter, to hold it against the watchdog; holds the
    /// interrupt status.
    Watchdog(u32),
    /// Writing the next byte to the FIFO.
    Push,
    /// Writing the transmit request back, to clear it.
    Ack,
    /// Reading the interrupt status a last time.
    Settle,
    /// Writing this interrupt status back, to clear it.
    Clear(u32),
    /// Over, with this result.
    Finished(Result<(), CardError>),
}

/// The transfer of a block to the card, in progress.
#[derive(Debug, Clone, Copy)]
pub struct WriteData {
    pub stage: WriteStage,
    pub task: Task,
    /// The watchdog.
    pub timer: Timer,
    /// Offset of the byte that goes to the FIFO next.
    pub offset: usize,
}

impl WriteData {
    /// The byte of the block at the engine's offset; zero past the block.
    pub open spec fn byte_at(self, block: Seq<u8>) -> u8 {
        if self.offset < block.len() {
            block[self.offset as int]
        } else {
            0
        }
    }

    /// What the engine does in its stage; nothing once it is over.
    pub open spec fn activity(self, block: Seq<u8>) -> Option<Activity> {
        match self.stage {
            WriteStage::Arm => Some(Activity::Io(Access::ReadTick)),
            WriteStage::Status => Some(Activity::Io(Access::ReadReg(REG_RINTSTS))),
            WriteStage::Pause(_) => Some(Activity::Pause(POLL_PAUSE_MICROS)),
            WriteStage::Watchdog(_) => Some(Activity::Io(Access::ReadTick)),
            WriteStage::Push => Some(
                Activity::Io(Access::WriteFifo(self.offset, self.byte_at(block))),
            ),
            WriteStage::Ack => Some(Activity::Io(Access::WriteReg(REG_RINTSTS, INT_TXDR))),
            WriteStage::Settle => Some(Activity::Io(Access::ReadReg(REG_RINTSTS))),
            WriteStage::Clear(mask) => Some(Activity::Io(Access::WriteReg(REG_RINTSTS, mask))),
            WriteStage::Finished(_) => None,
        }
    }

    /// The engine at another stage.
    pub open spec fn at(self, stage: WriteStage) -> WriteData {
        WriteData { stage, task: self.task, timer: self.timer, offset: self.offset }
    }

    /// The engine at its next stage, given how the activity of this one
    /// ended.
    ///
    /// An interrupt status that shows the end of the transfer ends the
    /// loop; after it the engine clears what is pending and is done.
    /// Otherwise an error bit ends the engine with the error of highest
    /// rank. Otherwise the engine pauses and then looks at the watchdog,
    /// which ends it when it has run out. Otherwise, where the status asked
    /// for data, the engine writes the whole block to the FIFO, byte by
    /// byte from offset 0, and then clears the request.
    pub open spec fn advanced(self, outcome: Outcome) -> WriteData {
        match self.stage {
            WriteStage::Arm => WriteData {
                stage: WriteStage::Status,
                task: self.task,
                timer: Timer {
                    deadline: limit_after(outcome.reading(), ticks_in(WATCHDOG_MICROS) as u64),
                },
                offset: self.offset,
            },
            WriteStage::Status => if any_set(outcome.word(), INT_DTO) {
                self.at(WriteStage::Settle)
            } else {
                match Interrupt::reported(outcome.word()) {
                    Some(e) => self.at(WriteStage::Finished(Err(CardError::InterruptErr(e)))),
                    None => self.at(WriteStage::Pause(outcome.word())),
                }
            },
            WriteStage::Pause(mask) => self.at(WriteStage::Watchdog(mask)),
            WriteStage::Watchdog(mask) => if outcome.reading() >= self.timer.deadline {
                self.at(WriteStage::Finished(Err(CardError::DataTransferTimeout)))
            } else if any_set(mask, INT_TXDR) {
                WriteData {
                    stage: WriteStage::Push,
                    task: self.task,
                    timer: self.timer,
                    offset: 0,
                }
            } else {
                self.at(WriteStage::Status)
            },
            WriteStage::Push => if self.offset + 1 < BLOCK_LEN {
                WriteData {
                    stage: WriteStage::Push,
                    task: self.task,
                    timer: self.timer,
                    offset: (self.offset + 1) as usize,
                }
            } else {
                self.at(WriteStage::Ack)
            },
            WriteStage::Ack => self.at(WriteStage::Status),
            WriteStage::Settle => self.at(WriteStage::Clear(outcome.word())),
            WriteStage::Clear(_) => self.at(WriteStage::Finished(Ok(()))),
            WriteStage::Finished(_) => self,
        }
    }

    /// The engine as it is begun.
    pub open spec fn begun() -> WriteData {
        WriteData {
            stage: WriteStage::Arm,
            task: Task::Io(Access::ReadTick),
            timer: Timer { deadline: 0 },
            offset: 0,
        }
    }

    /// The access that is out; none once the engine is over.
    pub open spec fn pending(self) -> Option<Access> {
        match self.stage {
            WriteStage::Finished(_) => None,
            _ => Some(self.task.pending()),
        }
    }

    /// The result, once the engine is over.
    pub open spec fn result(self) -> Option<Result<(), CardError>> {
        match self.stage {
            WriteStage::Finished(result) => Some(result),
            _ => None,
        }
    }

    /// The engine after one more reply, and what follows, for this block:
    /// the activity of the stage goes on, or it is over and the next stage
    /// is entered with the first access of its activity. An engine that is
    /// over stays so.
    pub open spec fn next(self, reply: u64, block: Seq<u8>) -> (
        WriteData,
        Step<Result<(), CardError>>,
    ) {
        match self.stage {
            WriteStage::Finished(result) => (self, Step::Done(result)),
            _ => match self.task.next(reply).1 {
                Step::Do(access) => (
                    WriteData {
                        stage: self.stage,
                        task: self.task.next(reply).0,
                        timer: self.timer,
                        offset: self.offset,
                    },
                    Step::Do(access),
                ),
                Step::Done(outcome) => {
                    let moved = self.advanced(outcome);
                    match moved.stage {
                        WriteStage::Finished(result) => (
                            WriteData {
                                stage: moved.stage,
                                task: self.task.next(reply).0,
                                timer: moved.timer,
                                offset: moved.offset,
                            },
                            Step::Done(result),
                        ),
                        _ => (
                            WriteData {
                                stage: moved.stage,
                                task: moved.activity(block)->0.begun(),
                                timer: moved.timer,
                                offset: moved.offset,
                            },
                            Step::Do(moved.activity(block)->0.begun().pending()),
                        ),
                    }
                },
            },
        }
    }

    /// What to do in the stage.
    pub fn action(&self, buf: &[u8; 512]) -> (a: Option<Activity>)
        ensures
            a == self.activity(buf@),
            a matches Some(activity) ==> activity.wf(),
    {
        match self.stage {
            WriteStage::Arm => Some(Activity::Io(Access::ReadTick)),
            WriteStage::Status => Some(Activity::Io(Access::ReadReg(REG_RINTSTS))),
            WriteStage::Pause(_) => Some(Activity::Pause(POLL_PAUSE_MICROS)),
            WriteStage::Watchdog(_) => Some(Activity::Io(Access::ReadTick)),
            WriteStage::Push => {
                let value: u8 = if self.offset < BLOCK_LEN {
                    buf[self.offset]
                } else {
                    0
                };
                Some(Activity::Io(Access::WriteFifo(self.offset, value)))
            },
            WriteStage::Ack => Some(Activity::Io(Access::WriteReg(REG_RINTSTS, INT_TXDR))),
            WriteStage::Settle => Some(Activity::Io(Access::ReadReg(REG_RINTSTS))),
            WriteStage::Clear(mask) => Some(Activity::Io(Access::WriteReg(REG_RINTSTS, mask))),
            WriteStage::Finished(_) => None,
        }
    }

    /// Moves to the next stage.
    pub fn advance(&mut self, outcome: Outcome)
        ensures
            *final(self) == old(self).advanced(outcome),
    {
        let mask: u32 = outcome.value();
        match self.stage {
            WriteStage::Arm => {
                self.timer = Timer::start(outcome.reply(), WATCHDOG_MICROS);
                self.stage = WriteStage::Status;
            },
            WriteStage::Status => {
                if mask & INT_DTO != 0 {
                    self.stage = WriteStage::Settle;
                } else {
                    match Interrupt::check(mask) {
                        Err(e) => {
                            self.stage = WriteStage::Finished(Err(CardError::InterruptErr(e)));
                        },
                        Ok(_) => {
                            self.stage = WriteStage::Pause(mask);
                        },
                    }
                }
            },
            WriteStage::Pause(seen) => {
                self.stage = WriteStage::Watchdog(seen);
            },
            WriteStage::Watchdog(seen) => {
                if self.timer.timeout(outcome.reply()) {
                    self.stage = WriteStage::Finished(Err(CardError::DataTransferTimeout));
                } else if seen & INT_TXDR != 0 {
                    self.offset = 0;
                    self.stage = WriteStage::Push;
                } else {
                    self.stage = WriteStage::Status;
                }
            },
            WriteStage::Push => {
                if self.offset < BLOCK_LEN - 1 {
                    self.offset += 1;
                } else {
                    self.stage = WriteStage::Ack;
                }
            },
            WriteStage::Ack => {
                self.stage = WriteStage::Status;
            },
            WriteStage::Settle => {
                self.stage = WriteStage::Clear(mask);
            },
            WriteStage::Clear(_) => {
                self.stage = WriteStage::Finished(Ok(()));
            },
            WriteStage::Finished(_) => {},
        }
    }

    /// Takes the reply to the last access and says what to do next: the
    /// next access, which may carry a byte of `buf`, or that the block is
    /// with the card, or why it is not.
    pub fn resume(&mut self, reply: u64, buf: &[u8; 512]) -> (step: Step<Result<(), CardError>>)
        ensures
            (*final(self), step) == old(self).next(reply, buf@),
    {
        if let WriteStage::Finished(result) = self.stage {
            return Step::Done(result);
        }
        let mut task = self.task;
        match task.resume(reply) {
            Step::Do(access) => {
                self.task = task;
                Step::Do(access)
            },
            Step::Done(outcome) => {
                self.advance(outcome);
                match self.action(buf) {
                    Some(activity) => {
                        let (begun, access) = activity.begin();
                        self.task = begun;
                        Step::Do(access)
                    },
                    None => {
                        self.task = task;
                        match self.stage {
                            WriteStage::Finished(result) => Step::Done(result),
                            _ => Step::Done(Err(CardError::CardInitErr)),
                        }
                    },
                }
            },
        }
    }
}

/// Begins the transfer of a block to the card; the first access reads the
/// tick counter, to start the watchdog.
pub fn write_data() -> (begun: (WriteData, Access))
    ensures
        begun == (WriteData::begun(), Access::ReadTick),
{
    (
        WriteData {
            stage: WriteStage::Arm,
            task: Task::Io(Access::ReadTick),
            timer: Timer { deadline: 0 },
            offset: 0,
        },
        Access::ReadTick,
    )
}

/// The watchdog ends a transfer from the card. When the reading of the tick
/// counter that the engine holds against the watchdog is at or past the
/// deadline, the engine is over with the data transfer timeout, whatever
/// the interrupt status was.
pub proof fn lemma_read_watchdog(engine: ReadData, reply: u64)
    requires
        engine.stage is Watchdog,
        engine.task is Io,
        reply >= engine.timer.deadline,
    ensures
        engine.next(reply).1 == Step::<Result<(), CardError>>::Done(
            Err(CardError::DataTransferTimeout),
        ),
        engine.next(reply).0.result() == Some(
            Err::<(), CardError>(CardError::DataTransferTimeout),
        ),
{
}

/// The watchdog ends a transfer to the card in the same way.
pub proof fn lemma_write_watchdog(engine: WriteData, reply: u64, block: Seq<u8>)
    requires
        engine.stage is Watchdog,
        engine.task is Io,
        reply >= engine.timer.deadline,
    ensures
        engine.next(reply, block).1 == Step::<Result<(), CardError>>::Done(
            Err(CardError::DataTransferTimeout),
        ),
        engine.next(reply, block).0.result() == Some(
            Err::<(), CardError>(CardError::DataTransferTimeout),
        ),
{
}


/// The transfer from the card after it was begun and has taken `replies`,
/// in order.
pub open spec fn read_after(replies: Seq<u64>) -> ReadData
    decreases replies.len(),
{
    if replies.len() == 0 {
        ReadData::begun()
    } else {
        read_after(replies.drop_last()).next(replies.last()).0
    }
}

/// The block by then, where it was `block` when the transfer began.
pub open spec fn block_after(block: Seq<u8>, replies: Seq<u64>) -> Seq<u8>
    decreases replies.len(),
{
    if replies.len() == 0 {
        block
    } else {
        read_after(replies.drop_last()).stores(
            block_after(block, replies.drop_last()),
            replies.last(),
        )
    }
}

/// The bytes that the FIFO has handed out by then, in order: the replies to
/// the reads of the FIFO.
pub open spec fn fifo_bytes(replies: Seq<u64>) -> Seq<u8>
    decreases replies.len(),
{
    if replies.len() == 0 {
        Seq::empty()
    } else {
        let before = fifo_bytes(replies.drop_last());
        match read_after(replies.drop_last()).pending() {
            Some(Access::ReadFifo(_)) => before.push(byte_of(replies.last())),
            _ => before,
        }
    }
}

impl ReadData {
    /// Whether the engine is over, with success.
    pub open spec fn ended_well(self) -> bool {
        self.result() matches Some(Ok(_))
    }

    /// The activity in progress is the one of the stage, the offset stays
    /// within the block, a byte is read only where the block has room, and
    /// the engine leaves its loop only with a complete block.
    pub open spec fn wf(self) -> bool {
        &&& self.offset <= BLOCK_LEN
        &&& self.stage is Byte ==> self.offset < BLOCK_LEN
        &&& self.stage is Settle || self.stage is Clear || self.ended_well() ==> self.offset
            == BLOCK_LEN
        &&& match self.activity() {
            Some(Activity::Io(access)) => self.task == Task::Io(access),
            Some(Activity::Wait(_)) => false,
            Some(Activity::Pause(_)) => self.task is Pause,
            None => true,
        }
    }
}

/// The block fills with what the FIFO hands out, in order. However the
/// replies fall, the engine has stored as many bytes as the FIFO has handed
/// out, never more than a block; each read of the FIFO is at the offset of
/// the bytes stored before it; the front of the block holds those bytes in
/// the order in which they came, and the rest of the block is as it was.
/// Where the engine ends with success, the block is complete: it is the
/// first 512 bytes that the FIFO handed out.
pub proof fn lemma_block_is_what_the_fifo_gave(block: Seq<u8>, replies: Seq<u64>)
    requires
        block.len() == BLOCK_LEN,
    ensures
        read_after(replies).wf(),
        read_after(replies).offset == fifo_bytes(replies).len(),
        read_after(replies).pending() matches Some(Access::ReadFifo(offset)) ==> offset
            == read_after(replies).offset,
        block_after(block, replies).len() == BLOCK_LEN,
        forall|i: int|
            0 <= i < read_after(replies).offset ==> block_after(block, replies)[i] == fifo_bytes(
                replies,
            )[i],
        forall|i: int|
            read_after(replies).offset <= i < BLOCK_LEN ==> block_after(block, replies)[i]
                == block[i],
        read_after(replies).result() matches Some(Ok(_)) ==> block_after(
            block,
            replies,
        ) == fifo_bytes(replies),
    decreases replies.len(),
{
    if replies.len() > 0 {
        lemma_block_is_what_the_fifo_gave(block, replies.drop_last());
    }
    if read_after(replies).result() matches Some(Ok(_)) {
        assert(block_after(block, replies) =~= fifo_bytes(replies));
    }
}

/// The transfer to the card after it was begun on `block` and has taken
/// `replies`, in order.
pub open spec fn write_after(block: Seq<u8>, replies: Seq<u64>) -> WriteData
    decreases replies.len(),
{
    if replies.len() == 0 {
        WriteData::begun()
    } else {
        write_after(block, replies.drop_last()).next(replies.last(), block).0
    }
}

/// The steps that the engine has handed out by then: the first access, and
/// one step for each reply.
pub open spec fn write_steps(block: Seq<u8>, replies: Seq<u64>) -> Seq<
    Step<Result<(), CardError>>,
>
    decreases replies.len(),
{
    if replies.len() == 0 {
        seq![Step::Do(Access::ReadTick)]
    } else {
        write_steps(block, replies.drop_last()).push(
            write_after(block, replies.drop_last()).next(replies.last(), block).1,
        )
    }
}

impl WriteData {
    /// The activity in progress is the one of the stage, and a byte is
    /// written only from within the block.
    pub open spec fn wf(self, block: Seq<u8>) -> bool {
        &&& self.stage is Push ==> self.offset < BLOCK_LEN
        &&& match self.activity(block) {
            Some(Activity::Io(access)) => self.task == Task::Io(access),
            Some(Activity::Wait(_)) => false,
            Some(Activity::Pause(_)) => self.task is Pause,
            None => true,
        }
    }
}

/// A request for data is answered with the whole block, in order. Whenever
/// the engine clears the transmit request, the 512 steps before that wrote
/// the block to the FIFO, byte by byte from offset 0, each byte at its
/// offset. And no byte ever goes to the FIFO but the one that the block
/// holds at the offset written.
pub proof fn lemma_request_gets_the_block(block: Seq<u8>, replies: Seq<u64>)
    requires
        block.len() == BLOCK_LEN,
    ensures
        write_after(block, replies).wf(block),
        write_steps(block, replies).len() == replies.len() + 1,
        write_after(block, replies).pending() matches Some(access) ==> write_steps(
            block,
            replies,
        ).last() == Step::<Result<(), CardError>>::Do(access),
        write_after(block, replies).pending() matches Some(Access::WriteFifo(offset, value))
            ==> offset < BLOCK_LEN && value == block[offset as int],
        write_after(block, replies).stage is Push ==> replies.len() >= write_after(
            block,
            replies,
        ).offset && forall|i: int|
            0 <= i <= write_after(block, replies).offset ==> write_steps(
                block,
                replies,
            )[replies.len() - write_after(block, replies).offset + i] == Step::<
                Result<(), CardError>,
            >::Do(Access::WriteFifo(i as usize, block[i])),
        write_after(block, replies).stage is Ack ==> replies.len() >= BLOCK_LEN && write_steps(
            block,
            replies,
        ).last() == Step::<Result<(), CardError>>::Do(Access::WriteReg(REG_RINTSTS, INT_TXDR))
            && forall|i: int|
            0 <= i < BLOCK_LEN ==> write_steps(block, replies)[replies.len() - BLOCK_LEN + i]
                == Step::<Result<(), CardError>>::Do(Access::WriteFifo(i as usize, block[i])),
    decreases replies.len(),
{
    if replies.len() > 0 {
        lemma_request_gets_the_block(block, replies.drop_last());
    }
}

} // verus!
