//! The procedures around the two engines: the clock change, the recovery by
//! stop transmission, and the reading and writing of one block.

use vstd::prelude::*;
use crate::bus::{word_of, Access, Step};
use super::cmd::{read_single_block, stop_transmission, up_clk, write_single_block, Response};
use super::data::{read_data, write_data, ReadData, WriteData};
use super::send::{send_cmd, SendCmd};
use super::err::{CardError, Timeout};
use super::reg::{
    any_set, INT_ALL, INT_HLE, REG_CLKDIV, REG_CLKENA, REG_CMD, REG_CMDARG, REG_RESP0,
    REG_RINTSTS,
};
use super::utils::{Activity, Outcome, Task, Wait};

verus! {

/// Where a clock change stands.
#[derive(Debug, Clone, Copy)]
pub enum ClockStage {
    /// Waiting for the controller to take the previous command.
    Line,
    /// Switching the clock off.
    Disable,
    /// Writing the divider.
    Divide,
    /// Writing the argument of the clock update.
    Arg,
    /// Issuing the clock update that takes the divider over.
    Update,
    /// Waiting for the controller to take it.
    LineAgain,
    /// Issuing the clock update again.
    UpdateAgain,
    /// Waiting for the controller to take it.
    LineLast,
    /// Switching the clock on.
    Enable,
    /// Writing the argument of the last clock update.
    ArgLast,
    /// Issuing the clock update that takes the enable over.
    UpdateLast,
    /// Over, with this result.
    Finished(Result<(), Timeout>),
}

/// A change of the card clock, in progress: to the divider `div`, and
/// switched on with `ena` unless that is zero.
#[derive(Debug, Clone, Copy)]
pub struct ResetClock {
    pub ena: u32,
    pub div: u32,
    pub stage: ClockStage,
    pub task: Task,
}

impl ResetClock {
    /// What the procedure does in its stage; nothing once it is over.
    pub open spec fn activity(self) -> Option<Activity> {
        match self.stage {
            ClockStage::Line | ClockStage::LineAgain | ClockStage::LineLast => Some(
                Activity::Wait(Wait::CmdLine),
            ),
            ClockStage::Disable => Some(Activity::Io(Access::WriteReg(REG_CLKENA, 0))),
            ClockStage::Divide => Some(Activity::Io(Access::WriteReg(REG_CLKDIV, self.div))),
            ClockStage::Arg => Some(Activity::Io(Access::WriteReg(REG_CMDARG, up_clk().arg))),
            ClockStage::Update | ClockStage::UpdateAgain | ClockStage::UpdateLast => Some(
                Activity::Io(Access::WriteReg(REG_CMD, up_clk().cmd_word())),
            ),
            ClockStage::Enable => Some(Activity::Io(Access::WriteReg(REG_CLKENA, self.ena))),
            ClockStage::ArgLast => Some(Activity::Io(Access::WriteReg(REG_CMDARG, 0))),
            ClockStage::Finished(_) => None,
        }
    }

    /// The stage that follows, given how the activity of this one ended.
    ///
    /// The clock is switched off and the divider written, and a clock
    /// update takes them over. With `ena` zero that is all. Otherwise the
    /// update is issued once more, the clock is switched on, and a last
    /// update takes that over; before each of these the controller must
    /// have taken the update before. A wait that runs out ends the
    /// procedure with its timeout.
    pub open spec fn after(self, outcome: Outcome) -> ClockStage {
        match outcome.timeout() {
            Some(t) => ClockStage::Finished(Err(t)),
            None => match self.stage {
                ClockStage::Line => ClockStage::Disable,
                ClockStage::Disable => ClockStage::Divide,
                ClockStage::Divide => ClockStage::Arg,
                ClockStage::Arg => ClockStage::Update,
                ClockStage::Update => if self.ena == 0 {
                    ClockStage::Finished(Ok(()))
                } else {
                    ClockStage::LineAgain
                },
                ClockStage::LineAgain => ClockStage::UpdateAgain,
                ClockStage::UpdateAgain => ClockStage::LineLast,
                ClockStage::LineLast => ClockStage::Enable,
                ClockStage::Enable => ClockStage::ArgLast,
                ClockStage::ArgLast => ClockStage::UpdateLast,
                ClockStage::UpdateLast => ClockStage::Finished(Ok(())),
                ClockStage::Finished(result) => ClockStage::Finished(result),
            },
        }
    }

    /// The procedure as it is begun.
    pub open spec fn begun(ena: u32, div: u32) -> ResetClock {
        ResetClock {
            ena,
            div,
            stage: ClockStage::Line,
            task: Activity::Wait(Wait::CmdLine).begun(),
        }
    }

    /// The access that is out; none once the procedure is over.
    pub open spec fn pending(self) -> Option<Access> {
        match self.stage {
            ClockStage::Finished(_) => None,
            _ => Some(self.task.pending()),
        }
    }

    /// The result, once the procedure is over.
    pub open spec fn result(self) -> Option<Result<(), Timeout>> {
        match self.stage {
            ClockStage::Finished(result) => Some(result),
            _ => None,
        }
    }

    /// The procedure at another stage, with this activity in progress.
    pub open spec fn at(self, stage: ClockStage, task: Task) -> ResetClock {
        ResetClock { ena: self.ena, div: self.div, stage, task }
    }

    /// The procedure after one more reply, and what follows: the activity
    /// of the stage goes on, or it is over and the next stage is entered
    /// with the first access of its activity. A procedure that is over
    /// stays so.
    pub open spec fn next(self, reply: u64) -> (ResetClock, Step<Result<(), Timeout>>) {
        match self.stage {
            ClockStage::Finished(result) => (self, Step::Done(result)),
            _ => match self.task.next(reply).1 {
                Step::Do(access) => (
                    self.at(self.stage, self.task.next(reply).0),
                    Step::Do(access),
                ),
                Step::Done(outcome) => {
                    let stage = self.after(outcome);
                    match stage {
                        ClockStage::Finished(result) => (
                            self.at(stage, self.task.next(reply).0),
                            Step::Done(result),
                        ),
                        _ => {
                            let task = self.at(stage, self.task).activity()->0.begun();
                            (self.at(stage, task), Step::Do(task.pending()))
                        },
                    }
                },
            },
        }
    }

    /// What to do in the stage.
    pub fn action(&self) -> (a: Option<Activity>)
        ensures
            a == self.activity(),
            a matches Some(activity) ==> activity.wf(),
    {
        match self.stage {
            ClockStage::Line | ClockStage::LineAgain | ClockStage::LineLast => Some(
                Activity::Wait(Wait::CmdLine),
            ),
            ClockStage::Disable => Some(Activity::Io(Access::WriteReg(REG_CLKENA, 0))),
            ClockStage::Divide => Some(Activity::Io(Access::WriteReg(REG_CLKDIV, self.div))),
            ClockStage::Arg => Some(Activity::Io(Access::WriteReg(REG_CMDARG, up_clk().arg()))),
            ClockStage::Update | ClockStage::UpdateAgain | ClockStage::UpdateLast => Some(
                Activity::Io(Access::WriteReg(REG_CMD, up_clk().to_cmd())),
            ),
            ClockStage::Enable => Some(Activity::Io(Access::WriteReg(REG_CLKENA, self.ena))),
            ClockStage::ArgLast => Some(Activity::Io(Access::WriteReg(REG_CMDARG, 0))),
            ClockStage::Finished(_) => None,
        }
    }

    /// Picks the stage that follows.
    pub fn follow(&self, outcome: Outcome) -> (stage: ClockStage)
        ensures
            stage == self.after(outcome),
    {
        if let Some(t) = outcome.timed_out() {
            return ClockStage::Finished(Err(t));
        }
        match self.stage {
            ClockStage::Line => ClockStage::Disable,
            ClockStage::Disable => ClockStage::Divide,
            ClockStage::Divide => ClockStage::Arg,
            ClockStage::Arg => ClockStage::Update,
            ClockStage::Update => {
                if self.ena == 0 {
                    ClockStage::Finished(Ok(()))
                } else {
                    ClockStage::LineAgain
                }
            },
            ClockStage::LineAgain => ClockStage::UpdateAgain,
            ClockStage::UpdateAgain => ClockStage::LineLast,
            ClockStage::LineLast => ClockStage::Enable,
            ClockStage::Enable => ClockStage::ArgLast,
            ClockStage::ArgLast => ClockStage::UpdateLast,
            ClockStage::UpdateLast => ClockStage::Finished(Ok(())),
            ClockStage::Finished(result) => ClockStage::Finished(result),
        }
    }

    /// Takes the reply to the last access and says what to do next: the
    /// next access, or that the clock is changed, or which wait ran out.
    pub fn resume(&mut self, reply: u64) -> (step: Step<Result<(), Timeout>>)
        ensures
            (*final(self), step) == old(self).next(reply),
    {
        if let ClockStage::Finished(result) = self.stage {
            return Step::Done(result);
        }
        let mut task = self.task;
        match task.resume(reply) {
            Step::Do(access) => {
                self.task = task;
                Step::Do(access)
            },
            Step::Done(outcome) => {
                self.stage = self.follow(outcome);
                match self.action() {
                    Some(activity) => {
                        let (begun, access) = activity.begin();
                        self.task = begun;
                        Step::Do(access)
                    },
                    None => {
                        self.task = task;
                        match self.stage {
                            ClockStage::Finished(result) => Step::Done(result),
                            _ => Step::Done(Ok(())),
                        }
                    },
                }
            },
        }
    }
}

/// Begins a change of the card clock; the first access reads the tick
/// counter, for the wait on the command line.
pub fn reset_clock(ena: u32, div: u32) -> (begun: (ResetClock, Access))
    ensures
        begun == (ResetClock::begun(ena, div), Access::ReadTick),
{
    let (task, access) = Activity::Wait(Wait::CmdLine).begin();
    (ResetClock { ena, div, stage: ClockStage::Line, task }, access)
}

/// Where a recovery by stop transmission stands.
#[derive(Debug, Clone, Copy)]
pub enum StopStage {
    /// Waiting for the controller to take the previous command.
    CmdLine,
    /// Clearing every pending interrupt.
    ClearInts,
    /// Writing the argument.
    Arg,
    /// Writing the command word, which issues the command.
    Issue,
    /// Reading the interrupt status, to see whether the write was taken.
    IssueStatus,
    /// Reading the card status from RESP0.
    Status,
    /// Waiting for the command-done interrupt.
    CmdDone,
    /// Over, with this result.
    Finished(Result<(), CardError>),
}

/// A recovery by stop transmission (CMD12), in progress.
#[derive(Debug, Clone, Copy)]
pub struct StopTransmission {
    pub stage: StopStage,
    pub task: Task,
    /// The card status as RESP0 held it after the issue; zero before.
    pub status: u32,
}

impl StopTransmission {
    /// What the procedure does in its stage; nothing once it is over.
    pub open spec fn activity(self) -> Option<Activity> {
        match self.stage {
            StopStage::CmdLine => Some(Activity::Wait(Wait::CmdLine)),
            StopStage::ClearInts => Some(Activity::Io(Access::WriteReg(REG_RINTSTS, INT_ALL))),
            StopStage::Arg => Some(
                Activity::Io(Access::WriteReg(REG_CMDARG, stop_transmission().arg)),
            ),
            StopStage::Issue => Some(
                Activity::Io(Access::WriteReg(REG_CMD, stop_transmission().cmd_word())),
            ),
            StopStage::IssueStatus => Some(Activity::Io(Access::ReadReg(REG_RINTSTS))),
            StopStage::Status => Some(Activity::Io(Access::ReadReg(REG_RESP0))),
            StopStage::CmdDone => Some(Activity::Wait(Wait::CmdDone)),
            StopStage::Finished(_) => None,
        }
    }

    /// The procedure at its next stage, given how the activity of this one
    /// ended.
    ///
    /// The command is programmed as the command engine programs one, and
    /// issued again while the controller rejects the write. Then the card
    /// status is read, and the command-done interrupt awaited. A wait that
    /// runs out ends the procedure with its timeout.
    pub open spec fn advanced(self, outcome: Outcome) -> StopTransmission {
        match outcome.timeout() {
            Some(t) => self.at(StopStage::Finished(Err(CardError::TimeoutErr(t)))),
            None => match self.stage {
                StopStage::CmdLine => self.at(StopStage::ClearInts),
                StopStage::ClearInts => self.at(StopStage::Arg),
                StopStage::Arg => self.at(StopStage::Issue),
                StopStage::Issue => self.at(StopStage::IssueStatus),
                StopStage::IssueStatus => if any_set(outcome.word(), INT_HLE) {
                    self.at(StopStage::CmdLine)
                } else {
                    self.at(StopStage::Status)
                },
                StopStage::Status => StopTransmission {
                    stage: StopStage::CmdDone,
                    task: self.task,
                    status: outcome.word(),
                },
                StopStage::CmdDone => self.at(StopStage::Finished(Ok(()))),
                StopStage::Finished(_) => self,
            },
        }
    }

    /// The procedure at another stage.
    pub open spec fn at(self, stage: StopStage) -> StopTransmission {
        StopTransmission { stage, task: self.task, status: self.status }
    }

    /// The procedure as it is begun.
    pub open spec fn begun() -> StopTransmission {
        StopTransmission {
            stage: StopStage::CmdLine,
            task: Activity::Wait(Wait::CmdLine).begun(),
            status: 0,
        }
    }

    /// The access that is out; none once the procedure is over.
    pub open spec fn pending(self) -> Option<Access> {
        match self.stage {
            StopStage::Finished(_) => None,
            _ => Some(self.task.pending()),
        }
    }

    /// The result, once the procedure is over.
    pub open spec fn result(self) -> Option<Result<(), CardError>> {
        match self.stage {
            StopStage::Finished(result) => Some(result),
            _ => None,
        }
    }

    /// The procedure after one more reply, and what follows: the activity
    /// of the stage goes on, or it is over and the next stage is entered
    /// with the first access of its activity. A procedure that is over
    /// stays so.
    pub open spec fn next(self, reply: u64) -> (StopTransmission, Step<Result<(), CardError>>) {
        match self.stage {
            StopStage::Finished(result) => (self, Step::Done(result)),
            _ => match self.task.next(reply).1 {
                Step::Do(access) => (
                    StopTransmission {
                        stage: self.stage,
                        task: self.task.next(reply).0,
                        status: self.status,
                    },
                    Step::Do(access),
                ),
                Step::Done(outcome) => {
                    let moved = self.advanced(outcome);
                    match moved.stage {
                        StopStage::Finished(result) => (
                            StopTransmission {
                                stage: moved.stage,
                                task: self.task.next(reply).0,
                                status: moved.status,
                            },
                            Step::Done(result),
                        ),
                        _ => (
                            StopTransmission {
                                stage: moved.stage,
                                task: moved.activity()->0.begun(),
                                status: moved.status,
                            },
                            Step::Do(moved.activity()->0.begun().pending()),
                        ),
                    }
                },
            },
        }
    }

    /// What to do in the stage.
    pub fn action(&self) -> (a: Option<Activity>)
        ensures
            a == self.activity(),
            a matches Some(activity) ==> activity.wf(),
    {
        match self.stage {
            StopStage::CmdLine => Some(Activity::Wait(Wait::CmdLine)),
            StopStage::ClearInts => Some(Activity::Io(Access::WriteReg(REG_RINTSTS, INT_ALL))),
            StopStage::Arg => Some(
                Activity::Io(Access::WriteReg(REG_CMDARG, stop_transmission().arg())),
            ),
            StopStage::Issue => Some(
                Activity::Io(Access::WriteReg(REG_CMD, stop_transmission().to_cmd())),
            ),
            StopStage::IssueStatus => Some(Activity::Io(Access::ReadReg(REG_RINTSTS))),
            StopStage::Status => Some(Activity::Io(Access::ReadReg(REG_RESP0))),
            StopStage::CmdDone => Some(Activity::Wait(Wait::CmdDone)),
            StopStage::Finished(_) => None,
        }
    }

    /// Moves to the next stage.
    pub fn advance(&mut self, outcome: Outcome)
        ensures
            *final(self) == old(self).advanced(outcome),
    {
        if let Some(t) = outcome.timed_out() {
            self.stage = StopStage::Finished(Err(CardError::TimeoutErr(t)));
            return ;
        }
        match self.stage {
            StopStage::CmdLine => {
                self.stage = StopStage::ClearInts;
            },
            StopStage::ClearInts => {
                self.stage = StopStage::Arg;
            },
            StopStage::Arg => {
                self.stage = StopStage::Issue;
            },
            StopStage::Issue => {
                self.stage = StopStage::IssueStatus;
            },
            StopStage::IssueStatus => {
                if outcome.value() & INT_HLE == 0 {
                    self.stage = StopStage::Status;
                } else {
                    self.stage = StopStage::CmdLine;
                }
            },
            StopStage::Status => {
                self.status = outcome.value();
                self.stage = StopStage::CmdDone;
            },
            StopStage::CmdDone => {
                self.stage = StopStage::Finished(Ok(()));
            },
            StopStage::Finished(_) => {},
        }
    }

    /// Takes the reply to the last access and says what to do next: the
    /// next access, or that the transmission is stopped, or which wait ran
    /// out.
    pub fn resume(&mut self, reply: u64) -> (step: Step<Result<(), CardError>>)
        ensures
            (*final(self), step) == old(self).next(reply),
    {
        if let StopStage::Finished(result) = self.stage {
            return Step::Done(result);
        }
        let mut task = self.task;
        match task.resume(reply) {
            Step::Do(access) => {
                self.task = task;
                Step::Do(access)
            },
            Step::Done(outcome) => {
                self.advance(outcome);
                match self.action() {
                    Some(activity) => {
                        let (begun, access) = activity.begin();
                        self.task = begun;
                        Step::Do(access)
                    },
                    None => {
                        self.task = task;
                        match self.stage {
                            StopStage::Finished(result) => Step::Done(result),
                            _ => Step::Done(Ok(())),
                        }
                    },
                }
            },
        }
    }
}

/// Begins a recovery by stop transmission; the first access reads the tick
/// counter, for the wait on the command line.
pub fn stop_transmission_ops() -> (begun: (StopTransmission, Access))
    ensures
        begun == (StopTransmission::begun(), Access::ReadTick),
{
    let (task, access) = Activity::Wait(Wait::CmdLine).begin();
    (StopTransmission { stage: StopStage::CmdLine, task, status: 0 }, access)
}


/// Where the read of a block stands.
#[derive(Debug, Clone, Copy)]
pub enum BlockReadStage {
    /// The command is being issued.
    Command(SendCmd),
    /// The block is moving through the FIFO.
    Data(ReadData),
    /// The transmission is being stopped, after a failure.
    Recover(StopTransmission),
    /// Over, with this result.
    Finished(Result<(), CardError>),
}

/// The read of one block, in progress.
#[derive(Debug, Clone, Copy)]
pub struct ReadBlock {
    pub stage: BlockReadStage,
    /// The failure that the recovery answers, once there was one.
    pub cause: Option<CardError>,
}

impl ReadBlock {
    /// The procedure as it is begun on the block at `addr`.
    pub open spec fn begun(addr: u32) -> ReadBlock {
        ReadBlock {
            stage: BlockReadStage::Command(SendCmd::begun(read_single_block(addr))),
            cause: None,
        }
    }

    /// The access that is out; none once the procedure is over.
    pub open spec fn pending(self) -> Option<Access> {
        match self.stage {
            BlockReadStage::Command(engine) => engine.pending(),
            BlockReadStage::Data(engine) => engine.pending(),
            BlockReadStage::Recover(recovery) => recovery.pending(),
            BlockReadStage::Finished(_) => None,
        }
    }

    /// The result, once the procedure is over.
    pub open spec fn result(self) -> Option<Result<(), CardError>> {
        match self.stage {
            BlockReadStage::Finished(result) => Some(result),
            _ => None,
        }
    }

    /// The procedure as it turns to the recovery after the failure `e`.
    pub open spec fn recovering(e: CardError) -> (ReadBlock, Step<Result<(), CardError>>) {
        (
            ReadBlock {
                stage: BlockReadStage::Recover(StopTransmission::begun()),
                cause: Some(e),
            },
            Step::Do(Access::ReadTick),
        )
    }

    /// The procedure after one more reply, and what follows.
    ///
    /// The command is issued; when its response is in, the block is moved.
    /// When the block is complete the procedure is over, with success. When
    /// the command or the move fails, the transmission is stopped, once,
    /// and the procedure is over with the result of that recovery: success
    /// where the recovery succeeded, whatever went before.
    pub open spec fn next(self, reply: u64) -> (ReadBlock, Step<Result<(), CardError>>) {
        match self.stage {
            BlockReadStage::Command(engine) => match engine.next(reply).1 {
                Step::Do(access) => (
                    ReadBlock {
                        stage: BlockReadStage::Command(engine.next(reply).0),
                        cause: self.cause,
                    },
                    Step::Do(access),
                ),
                Step::Done(Ok(_)) => (
                    ReadBlock {
                        stage: BlockReadStage::Data(ReadData::begun()),
                        cause: self.cause,
                    },
                    Step::Do(Access::ReadTick),
                ),
                Step::Done(Err(e)) => ReadBlock::recovering(e),
            },
            BlockReadStage::Data(engine) => match engine.next(reply).1 {
                Step::Do(access) => (
                    ReadBlock {
                        stage: BlockReadStage::Data(engine.next(reply).0),
                        cause: self.cause,
                    },
                    Step::Do(access),
                ),
                Step::Done(Ok(_)) => (
                    ReadBlock {
                        stage: BlockReadStage::Finished(Ok(())),
                        cause: self.cause,
                    },
                    Step::Done(Ok(())),
                ),
                Step::Done(Err(e)) => ReadBlock::recovering(e),
            },
            BlockReadStage::Recover(recovery) => match recovery.next(reply).1 {
                Step::Do(access) => (
                    ReadBlock {
                        stage: BlockReadStage::Recover(recovery.next(reply).0),
                        cause: self.cause,
                    },
                    Step::Do(access),
                ),
                Step::Done(result) => (
                    ReadBlock {
                        stage: BlockReadStage::Finished(result),
                        cause: self.cause,
                    },
                    Step::Done(result),
                ),
            },
            BlockReadStage::Finished(result) => (self, Step::Done(result)),
        }
    }

    /// The block after one more reply: only the data engine stores, a byte
    /// that it read from the FIFO.
    pub open spec fn stores(self, block: Seq<u8>, reply: u64) -> Seq<u8> {
        match self.stage {
            BlockReadStage::Data(engine) => engine.stores(block, reply),
            _ => block,
        }
    }

    /// Turns to the recovery.
    fn recover(&mut self, e: CardError) -> (step: Step<Result<(), CardError>>)
        ensures
            (*final(self), step) == ReadBlock::recovering(e),
    {
        let (recovery, access) = stop_transmission_ops();
        self.stage = BlockReadStage::Recover(recovery);
        self.cause = Some(e);
        Step::Do(access)
    }

    /// Takes the reply to the last access, puts a byte that it brought into
    /// `buf`, and says what to do next: the next access, or how the
    /// procedure ended.
    pub fn resume(&mut self, reply: u64, buf: &mut [u8; 512]) -> (step: Step<
        Result<(), CardError>,
    >)
        ensures
            (*final(self), step) == old(self).next(reply),
            final(buf)@ == old(self).stores(old(buf)@, reply),
    {
        match self.stage {
            BlockReadStage::Command(engine) => {
                let mut engine = engine;
                match engine.resume(reply) {
                    Step::Do(access) => {
                        self.stage = BlockReadStage::Command(engine);
                        Step::Do(access)
                    },
                    Step::Done(Ok(_)) => {
                        let (data, access) = read_data();
                        self.stage = BlockReadStage::Data(data);
                        Step::Do(access)
                    },
                    Step::Done(Err(e)) => self.recover(e),
                }
            },
            BlockReadStage::Data(engine) => {
                let mut engine = engine;
                match engine.resume(reply, buf) {
                    Step::Do(access) => {
                        self.stage = BlockReadStage::Data(engine);
                        Step::Do(access)
                    },
                    Step::Done(Ok(_)) => {
                        self.stage = BlockReadStage::Finished(Ok(()));
                        Step::Done(Ok(()))
                    },
                    Step::Done(Err(e)) => self.recover(e),
                }
            },
            BlockReadStage::Recover(recovery) => {
                let mut recovery = recovery;
                match recovery.resume(reply) {
                    Step::Do(access) => {
                        self.stage = BlockReadStage::Recover(recovery);
                        Step::Do(access)
                    },
                    Step::Done(result) => {
                        self.stage = BlockReadStage::Finished(result);
                        Step::Done(result)
                    },
                }
            },
            BlockReadStage::Finished(result) => Step::Done(result),
        }
    }
}

/// Begins the read of the block at `addr`; the first access reads the tick
/// counter.
pub fn read_block(addr: u32) -> (begun: (ReadBlock, Access))
    ensures
        begun == (ReadBlock::begun(addr), Access::ReadTick),
{
    let (engine, access) = send_cmd(read_single_block(addr));
    (ReadBlock { stage: BlockReadStage::Command(engine), cause: None }, access)
}

/// Where the write of a block stands.
#[derive(Debug, Clone, Copy)]
pub enum BlockWriteStage {
    /// The command is being issued.
    Command(SendCmd),
    /// The block is moving through the FIFO.
    Data(WriteData),
    /// The transmission is being stopped, after a failure.
    Recover(StopTransmission),
    /// Over, with this result.
    Finished(Result<(), CardError>),
}

/// The write of one block, in progress.
#[derive(Debug, Clone, Copy)]
pub struct WriteBlock {
    pub stage: BlockWriteStage,
    /// The failure that the recovery answers, once there was one.
    pub cause: Option<CardError>,
}

impl WriteBlock {
    /// The procedure as it is begun on the block at `addr`.
    pub open spec fn begun(addr: u32) -> WriteBlock {
        WriteBlock {
            stage: BlockWriteStage::Command(SendCmd::begun(write_single_block(addr))),
            cause: None,
        }
    }

    /// The access that is out; none once the procedure is over.
    pub open spec fn pending(self) -> Option<Access> {
        match self.stage {
            BlockWriteStage::Command(engine) => engine.pending(),
            BlockWriteStage::Data(engine) => engine.pending(),
            BlockWriteStage::Recover(recovery) => recovery.pending(),
            BlockWriteStage::Finished(_) => None,
        }
    }

    /// The result, once the procedure is over.
    pub open spec fn result(self) -> Option<Result<(), CardError>> {
        match self.stage {
            BlockWriteStage::Finished(result) => Some(result),
            _ => None,
        }
    }

    /// The procedure as it turns to the recovery after the failure `e`.
    pub open spec fn recovering(e: CardError) -> (WriteBlock, Step<Result<(), CardError>>) {
        (
            WriteBlock {
                stage: BlockWriteStage::Recover(StopTransmission::begun()),
                cause: Some(e),
            },
            Step::Do(Access::ReadTick),
        )
    }

    /// The procedure after one more reply, and what follows, for this block.
    ///
    /// The command is issued; when its response is in, the block is moved.
    /// When the block is complete the procedure is over, with success. When
    /// the command or the move fails, the transmission is stopped, once,
    /// and the procedure is over with the result of that recovery: success
    /// where the recovery succeeded, whatever went before.
    pub open spec fn next(self, reply: u64, block: Seq<u8>) -> (
        WriteBlock,
        Step<Result<(), CardError>>,
    ) {
        match self.stage {
            BlockWriteStage::Command(engine) => match engine.next(reply).1 {
                Step::Do(access) => (
                    WriteBlock {
                        stage: BlockWriteStage::Command(engine.next(reply).0),
                        cause: self.cause,
                    },
                    Step::Do(access),
                ),
                Step::Done(Ok(_)) => (
                    WriteBlock {
                        stage: BlockWriteStage::Data(WriteData::begun()),
                        cause: self.cause,
                    },
                    Step::Do(Access::ReadTick),
                ),
                Step::Done(Err(e)) => WriteBlock::recovering(e),
            },
            BlockWriteStage::Data(engine) => match engine.next(reply, block).1 {
                Step::Do(access) => (
                    WriteBlock {
                        stage: BlockWriteStage::Data(engine.next(reply, block).0),
                        cause: self.cause,
                    },
                    Step::Do(access),
                ),
                Step::Done(Ok(_)) => (
                    WriteBlock {
                        stage: BlockWriteStage::Finished(Ok(())),
                        cause: self.cause,
                    },
                    Step::Done(Ok(())),
                ),
                Step::Done(Err(e)) => WriteBlock::recovering(e),
            },
            BlockWriteStage::Recover(recovery) => match recovery.next(reply).1 {
                Step::Do(access) => (
                    WriteBlock {
                        stage: BlockWriteStage::Recover(recovery.next(reply).0),
                        cause: self.cause,
                    },
                    Step::Do(access),
                ),
                Step::Done(result) => (
                    WriteBlock {
                        stage: BlockWriteStage::Finished(result),
                        cause: self.cause,
                    },
                    Step::Done(result),
                ),
            },
            BlockWriteStage::Finished(result) => (self, Step::Done(result)),
        }
    }

    /// Turns to the recovery.
    fn recover(&mut self, e: CardError) -> (step: Step<Result<(), CardError>>)
        ensures
            (*final(self), step) == WriteBlock::recovering(e),
    {
        let (recovery, access) = stop_transmission_ops();
        self.stage = BlockWriteStage::Recover(recovery);
        self.cause = Some(e);
        Step::Do(access)
    }

    /// Takes the reply to the last access, for the block `buf`, and says
    /// what to do next: the next access, or how the procedure ended.
    pub fn resume(&mut self, reply: u64, buf: &[u8; 512]) -> (step: Step<
        Result<(), CardError>,
    >)
        ensures
            (*final(self), step) == old(self).next(reply, buf@),
    {
        match self.stage {
            BlockWriteStage::Command(engine) => {
                let mut engine = engine;
                match engine.resume(reply) {
                    Step::Do(access) => {
                        self.stage = BlockWriteStage::Command(engine);
                        Step::Do(access)
                    },
                    Step::Done(Ok(_)) => {
                        let (data, access) = write_data();
                        self.stage = BlockWriteStage::Data(data);
                        Step::Do(access)
                    },
                    Step::Done(Err(e)) => self.recover(e),
                }
            },
            BlockWriteStage::Data(engine) => {
                let mut engine = engine;
                match engine.resume(reply, buf) {
                    Step::Do(access) => {
                        self.stage = BlockWriteStage::Data(engine);
                        Step::Do(access)
                    },
                    Step::Done(Ok(_)) => {
                        self.stage = BlockWriteStage::Finished(Ok(()));
                        Step::Done(Ok(()))
                    },
                    Step::Done(Err(e)) => self.recover(e),
                }
            },
            BlockWriteStage::Recover(recovery) => {
                let mut recovery = recovery;
                match recovery.resume(reply) {
                    Step::Do(access) => {
                        self.stage = BlockWriteStage::Recover(recovery);
                        Step::Do(access)
                    },
                    Step::Done(result) => {
                        self.stage = BlockWriteStage::Finished(result);
                        Step::Done(result)
                    },
                }
            },
            BlockWriteStage::Finished(result) => Step::Done(result),
        }
    }
}

/// Begins the write of the block at `addr`; the first access reads the tick
/// counter.
pub fn write_block(addr: u32) -> (begun: (WriteBlock, Access))
    ensures
        begun == (WriteBlock::begun(addr), Access::ReadTick),
{
    let (engine, access) = send_cmd(write_single_block(addr));
    (WriteBlock { stage: BlockWriteStage::Command(engine), cause: None }, access)
}


/// The read of the block at `addr` after it was begun and has taken
/// `replies`, in order.
pub open spec fn read_block_after(addr: u32, replies: Seq<u64>) -> ReadBlock
    decreases replies.len(),
{
    if replies.len() == 0 {
        ReadBlock::begun(addr)
    } else {
        read_block_after(addr, replies.drop_last()).next(replies.last()).0
    }
}

/// Number of times that the read has turned to the recovery: the replies
/// before which it was not stopping the transmission and after which it
/// is.
pub open spec fn read_recoveries(addr: u32, replies: Seq<u64>) -> nat
    decreases replies.len(),
{
    if replies.len() == 0 {
        0
    } else {
        read_recoveries(addr, replies.drop_last()) + if !(read_block_after(
            addr,
            replies.drop_last(),
        ).stage is Recover) && read_block_after(addr, replies).stage is Recover {
            1nat
        } else {
            0nat
        }
    }
}

/// The transmission is stopped once for a failure, and never without one.
/// However the replies fall, the read has turned to the recovery exactly
/// once where the command or the move of the block has failed, which it
/// then keeps as the cause, and not at all where neither has. While it
/// stops the transmission it has a cause; and where it ends with an error,
/// that is the error of the recovery: without a failure before it the
/// read ends with success.
pub proof fn lemma_read_recovers_once(addr: u32, replies: Seq<u64>)
    ensures
        ({
            let procedure = read_block_after(addr, replies);
            &&& read_recoveries(addr, replies) == if procedure.cause is Some {
                1nat
            } else {
                0nat
            }
            &&& procedure.stage is Command || procedure.stage is Data ==> procedure.cause is None
            &&& procedure.stage is Recover ==> procedure.cause is Some
            &&& procedure.result() matches Some(Err(_)) ==> procedure.cause is Some
        }),
    decreases replies.len(),
{
    if replies.len() > 0 {
        lemma_read_recovers_once(addr, replies.drop_last());
    }
}

/// The watchdog leads to the recovery. When the data engine holds a reading
/// of the tick counter at or past the deadline against its watchdog, the
/// read turns to the recovery, with the data transfer timeout as its
/// cause.
pub proof fn lemma_read_watchdog_recovers(procedure: ReadBlock, reply: u64)
    requires
        procedure.stage matches BlockReadStage::Data(engine) && engine.stage is Watchdog
            && engine.task is Io && reply >= engine.timer.deadline,
    ensures
        procedure.next(reply) == ReadBlock::recovering(CardError::DataTransferTimeout),
{
}

/// The write of the block at `addr` after it was begun and has taken
/// `replies`, in order, for the block `block`.
pub open spec fn write_block_after(addr: u32, replies: Seq<u64>, block: Seq<u8>) -> WriteBlock
    decreases replies.len(),
{
    if replies.len() == 0 {
        WriteBlock::begun(addr)
    } else {
        write_block_after(addr, replies.drop_last(), block).next(replies.last(), block).0
    }
}

/// Number of times that the write has turned to the recovery: the replies
/// before which it was not stopping the transmission and after which it
/// is.
pub open spec fn write_recoveries(addr: u32, replies: Seq<u64>, block: Seq<u8>) -> nat
    decreases replies.len(),
{
    if replies.len() == 0 {
        0
    } else {
        write_recoveries(addr, replies.drop_last(), block) + if !(write_block_after(
            addr,
            replies.drop_last(), block,
        ).stage is Recover) && write_block_after(addr, replies, block).stage is Recover {
            1nat
        } else {
            0nat
        }
    }
}

/// The transmission is stopped once for a failure, and never without one.
/// However the replies fall, the write has turned to the recovery exactly
/// once where the command or the move of the block has failed, which it
/// then keeps as the cause, and not at all where neither has. While it
/// stops the transmission it has a cause; and where it ends with an error,
/// that is the error of the recovery: without a failure before it the
/// write ends with success.
pub proof fn lemma_write_recovers_once(addr: u32, replies: Seq<u64>, block: Seq<u8>)
    ensures
        ({
            let procedure = write_block_after(addr, replies, block);
            &&& write_recoveries(addr, replies, block) == if procedure.cause is Some {
                1nat
            } else {
                0nat
            }
            &&& procedure.stage is Command || procedure.stage is Data ==> procedure.cause is None
            &&& procedure.stage is Recover ==> procedure.cause is Some
            &&& procedure.result() matches Some(Err(_)) ==> procedure.cause is Some
        }),
    decreases replies.len(),
{
    if replies.len() > 0 {
        lemma_write_recovers_once(addr, replies.drop_last(), block);
    }
}

/// The watchdog leads to the recovery. When the data engine holds a reading
/// of the tick counter at or past the deadline against its watchdog, the
/// write turns to the recovery, with the data transfer timeout as its
/// cause.
pub proof fn lemma_write_watchdog_recovers(procedure: WriteBlock, reply: u64, block: Seq<u8>)
    requires
        procedure.stage matches BlockWriteStage::Data(engine) && engine.stage is Watchdog
            && engine.task is Io && reply >= engine.timer.deadline,
    ensures
        procedure.next(reply, block) == WriteBlock::recovering(CardError::DataTransferTimeout),
{
}


/// The recovery after it was begun and has taken `replies`, in order.
pub open spec fn stop_after(replies: Seq<u64>) -> StopTransmission
    decreases replies.len(),
{
    if replies.len() == 0 {
        StopTransmission::begun()
    } else {
        stop_after(replies.drop_last()).next(replies.last()).0
    }
}

/// The steps that the recovery has handed out by then: the first access,
/// and one step for each reply.
pub open spec fn stop_steps(replies: Seq<u64>) -> Seq<Step<Result<(), CardError>>>
    decreases replies.len(),
{
    if replies.len() == 0 {
        seq![Step::Do(Access::ReadTick)]
    } else {
        stop_steps(replies.drop_last()).push(
            stop_after(replies.drop_last()).next(replies.last()).1,
        )
    }
}

/// Whether a step writes the command register.
pub open spec fn issues_command(step: Step<Result<(), CardError>>) -> bool {
    step matches Step::Do(Access::WriteReg(reg, _)) && reg == REG_CMD
}

/// Number of times that the recovery has issued its command.
pub open spec fn stop_issues(replies: Seq<u64>) -> nat
    decreases replies.len(),
{
    if replies.len() == 0 {
        0
    } else {
        stop_issues(replies.drop_last()) + if issues_command(stop_steps(replies).last()) {
            1nat
        } else {
            0nat
        }
    }
}

/// Number of times that the controller has rejected the write of the
/// command word of the recovery.
pub open spec fn stop_rejections(replies: Seq<u64>) -> nat
    decreases replies.len(),
{
    if replies.len() == 0 {
        0
    } else {
        stop_rejections(replies.drop_last()) + if stop_after(replies.drop_last()).stage
            is IssueStatus && any_set(word_of(replies.last()), INT_HLE) {
            1nat
        } else {
            0nat
        }
    }
}

impl StopTransmission {
    /// The activity in progress is the one of the stage.
    pub open spec fn wf(self) -> bool {
        match self.activity() {
            Some(Activity::Io(access)) => self.task == Task::Io(access),
            Some(Activity::Wait(wait)) => self.task matches Task::Wait(poll) && poll.wait == wait,
            Some(Activity::Pause(_)) => false,
            None => true,
        }
    }

    /// Whether the command word has been written in the current attempt.
    pub open spec fn issued(self) -> bool {
        match self.stage {
            StopStage::CmdLine | StopStage::ClearInts | StopStage::Arg => false,
            StopStage::Finished(Err(CardError::TimeoutErr(Timeout::WaitCmdLine))) => false,
            _ => true,
        }
    }
}

/// The recovery issues its command as the command engine issues one. Each
/// write of the command register writes the command word of CMD12, right
/// behind the write of its argument, which stands right behind the clearing
/// of every pending interrupt. The command is issued once, and once more
/// for each rejection; a recovery that ends with success has issued it
/// exactly once more often than the controller rejected it. And the
/// recovery fails only by a wait that ran out.
pub proof fn lemma_stop_issues_in_order(replies: Seq<u64>)
    ensures
        stop_after(replies).wf(),
        stop_steps(replies).len() == replies.len() + 1,
        stop_after(replies).pending() matches Some(access) ==> stop_steps(replies).last()
            == Step::<Result<(), CardError>>::Do(access),
        forall|i: int|
            0 <= i <= replies.len() && issues_command(#[trigger] stop_steps(replies)[i]) ==> i
                >= 2 && stop_steps(replies)[i] == Step::<Result<(), CardError>>::Do(
                Access::WriteReg(REG_CMD, stop_transmission().cmd_word()),
            ) && stop_steps(replies)[i - 1] == Step::<Result<(), CardError>>::Do(
                Access::WriteReg(REG_CMDARG, 0),
            ) && stop_steps(replies)[i - 2] == Step::<Result<(), CardError>>::Do(
                Access::WriteReg(REG_RINTSTS, INT_ALL),
            ),
        stop_issues(replies) == stop_rejections(replies) + if stop_after(replies).issued() {
            1nat
        } else {
            0nat
        },
        stop_after(replies).result() matches Some(Ok(_)) ==> stop_issues(replies)
            == stop_rejections(replies) + 1,
        stop_after(replies).result() matches Some(Err(e)) ==> e == CardError::TimeoutErr(
            Timeout::WaitCmdLine,
        ) || e == CardError::TimeoutErr(Timeout::WaitCmdDone),
    decreases replies.len(),
{
    lemma_stop_trail(replies);
    if replies.len() > 0 {
        lemma_stop_issues_in_order(replies.drop_last());
        lemma_stop_trail(replies.drop_last());
    }
}

/// What lies behind the recovery while it programs its command.
proof fn lemma_stop_trail(replies: Seq<u64>)
    ensures
        stop_after(replies).wf(),
        stop_steps(replies).len() == replies.len() + 1,
        stop_after(replies).pending() matches Some(access) ==> stop_steps(replies).last()
            == Step::<Result<(), CardError>>::Do(access),
        stop_after(replies).stage is Arg ==> replies.len() >= 1 && stop_steps(
            replies,
        )[replies.len() - 1] == Step::<Result<(), CardError>>::Do(
            Access::WriteReg(REG_RINTSTS, INT_ALL),
        ),
        stop_after(replies).stage is Issue ==> replies.len() >= 2 && stop_steps(
            replies,
        )[replies.len() - 1] == Step::<Result<(), CardError>>::Do(
            Access::WriteReg(REG_CMDARG, 0),
        ) && stop_steps(replies)[replies.len() - 2] == Step::<Result<(), CardError>>::Do(
            Access::WriteReg(REG_RINTSTS, INT_ALL),
        ),
        issues_command(stop_steps(replies).last()) ==> stop_after(replies).stage is Issue,
    decreases replies.len(),
{
    if replies.len() > 0 {
        lemma_stop_trail(replies.drop_last());
    }
}


/// The clock change after it was begun and has taken `replies`, in order.
pub open spec fn clock_after(ena: u32, div: u32, replies: Seq<u64>) -> ResetClock
    decreases replies.len(),
{
    if replies.len() == 0 {
        ResetClock::begun(ena, div)
    } else {
        clock_after(ena, div, replies.drop_last()).next(replies.last()).0
    }
}

/// The register writes that the clock change has handed out by then, in
/// order, each as the register and the value.
pub open spec fn clock_writes(ena: u32, div: u32, replies: Seq<u64>) -> Seq<(u32, u32)>
    decreases replies.len(),
{
    if replies.len() == 0 {
        Seq::empty()
    } else {
        let before = clock_writes(ena, div, replies.drop_last());
        match clock_after(ena, div, replies.drop_last()).next(replies.last()).1 {
            Step::Do(Access::WriteReg(reg, value)) => before.push((reg, value)),
            _ => before,
        }
    }
}

/// The register writes of a whole clock change: the clock goes off and the
/// divider is written, and a clock update takes them over; where the clock
/// is to go on, the update is repeated, the clock goes on, and a last
/// update takes that over.
pub open spec fn clock_sequence(ena: u32, div: u32) -> Seq<(u32, u32)> {
    let update = (REG_CMD, up_clk().cmd_word());
    if ena == 0 {
        seq![(REG_CLKENA, 0u32), (REG_CLKDIV, div), (REG_CMDARG, 0u32), update]
    } else {
        seq![
            (REG_CLKENA, 0u32),
            (REG_CLKDIV, div),
            (REG_CMDARG, 0u32),
            update,
            update,
            (REG_CLKENA, ena),
            (REG_CMDARG, 0u32),
            update,
        ]
    }
}

impl ClockStage {
    /// Number of register writes that the procedure has handed out when it
    /// stands in this stage; of a procedure that failed, nothing is said.
    pub open spec fn written(self, ena: u32) -> Option<nat> {
        match self {
            ClockStage::Line => Some(0),
            ClockStage::Disable => Some(1),
            ClockStage::Divide => Some(2),
            ClockStage::Arg => Some(3),
            ClockStage::Update => Some(4),
            ClockStage::LineAgain => Some(4),
            ClockStage::UpdateAgain => Some(5),
            ClockStage::LineLast => Some(5),
            ClockStage::Enable => Some(6),
            ClockStage::ArgLast => Some(7),
            ClockStage::UpdateLast => Some(8),
            ClockStage::Finished(Ok(_)) => Some(
                if ena == 0 {
                    4
                } else {
                    8
                },
            ),
            ClockStage::Finished(Err(_)) => None,
        }
    }

    /// Whether the stage belongs to the part that switches the clock on.
    pub open spec fn switches_on(self) -> bool {
        self is LineAgain || self is UpdateAgain || self is LineLast || self is Enable
            || self is ArgLast || self is UpdateLast
    }
}

/// A clock change writes its registers in one order, and no others. However
/// the replies fall, the writes handed out so far are the front of the
/// sequence of the whole change; the procedure fails only by the wait on
/// the command line; and where it ends with success it has written the
/// whole sequence.
pub proof fn lemma_clock_change_in_order(ena: u32, div: u32, replies: Seq<u64>)
    ensures
        clock_after(ena, div, replies).ena == ena,
        clock_after(ena, div, replies).div == div,
        clock_writes(ena, div, replies).len() <= clock_sequence(ena, div).len(),
        clock_writes(ena, div, replies) == clock_sequence(ena, div).take(
            clock_writes(ena, div, replies).len() as int,
        ),
        clock_after(ena, div, replies).result() matches Some(Err(t)) ==> t
            == Timeout::WaitCmdLine,
        clock_after(ena, div, replies).result() matches Some(Ok(_)) ==> clock_writes(
            ena,
            div,
            replies,
        ) == clock_sequence(ena, div),
    decreases replies.len(),
{
    lemma_clock_trail(ena, div, replies);
    let writes = clock_writes(ena, div, replies);
    let whole = clock_sequence(ena, div);
    if clock_after(ena, div, replies).result() matches Some(Ok(_)) {
        assert(whole.take(whole.len() as int) =~= whole);
    }
}

/// How far the clock change has written at each stage.
proof fn lemma_clock_trail(ena: u32, div: u32, replies: Seq<u64>)
    ensures
        clock_after(ena, div, replies).ena == ena,
        clock_after(ena, div, replies).div == div,
        match clock_after(ena, div, replies).activity() {
            Some(Activity::Io(access)) => clock_after(ena, div, replies).task == Task::Io(access),
            Some(Activity::Wait(wait)) => clock_after(ena, div, replies).task matches Task::Wait(
                poll,
            ) && poll.wait == wait,
            Some(Activity::Pause(_)) => false,
            None => true,
        },
        clock_writes(ena, div, replies).len() <= clock_sequence(ena, div).len(),
        clock_writes(ena, div, replies) == clock_sequence(ena, div).take(
            clock_writes(ena, div, replies).len() as int,
        ),
        clock_after(ena, div, replies).stage.written(ena) matches Some(n) ==> clock_writes(
            ena,
            div,
            replies,
        ).len() == n,
        clock_after(ena, div, replies).result() matches Some(Err(t)) ==> t
            == Timeout::WaitCmdLine,
        clock_after(ena, div, replies).stage.switches_on() ==> ena != 0,
    decreases replies.len(),
{
    let whole = clock_sequence(ena, div);
    if replies.len() == 0 {
        assert(clock_writes(ena, div, replies) =~= whole.take(0));
    } else {
        lemma_clock_trail(ena, div, replies.drop_last());
        let before = clock_writes(ena, div, replies.drop_last());
        let n = before.len() as int;
        match clock_after(ena, div, replies.drop_last()).next(replies.last()).1 {
            Step::Do(Access::WriteReg(reg, value)) => {
                assert(n < whole.len());
                assert((reg, value) == whole[n]);
                assert(whole.take(n).push(whole[n]) =~= whole.take(n + 1));
            },
            _ => {},
        }
    }
}

} // verus!
