//! The initialization sequencer: brings the controller out of reset and the
//! card from the idle state to the transfer state.

use vstd::prelude::*;
use crate::bus::{Access, Step};
use super::cmd::{
    all_send_cid, app_cmd, idle, sd_send_op_cond, select_card, send_csd, send_if_cond,
    send_relative_address, set_bus_width, switch_function, Command, Response,
};
use super::err::{CardError, Timeout};
use super::ops::{reset_clock, ResetClock};
use super::reg::{
    any_set, HardConf, CTRL_RESET_ALL, INT_ALL, REG_BMOD, REG_CTRL, REG_CTYPE, REG_HCON,
    REG_INTMASK, REG_PWREN, REG_RINTSTS, REG_TMOUT,
};
use super::sd_reg::{field32, Cid, Csd, Ocr, Rca};
use super::send::{send_cmd, SendCmd};
use super::utils::{Activity, Outcome, Task, Wait};

verus! {

/// Pause after each step of the enumeration, in microseconds: 10 ms.
pub const SETTLE_MICROS: u64 = 10_000;

/// Argument of the function switch.
pub const SWITCH_ARG: u32 = 16_777_201;

/// Clock divider for the identification of the card.
pub const ID_CLOCK_DIV: u32 = 62;

/// Clock divider for transfers.
pub const TRANSFER_CLOCK_DIV: u32 = 1;

/// Supply voltage announced in the interface condition: 2.7 V to 3.6 V.
pub const IF_COND_VOLTAGE: u32 = 1;

/// Check pattern sent in the interface condition.
pub const IF_COND_PATTERN: u32 = 0xAA;

/// Argument of the bus width command: four bits.
pub const BUS_WIDTH_FOUR: u32 = 2;

/// Something that the sequencer does as one step.
#[derive(Debug, Clone, Copy)]
pub enum Work {
    /// An access, a bounded wait or a delay.
    Basic(Activity),
    /// The issue of a command.
    Send(Command),
    /// A change of the card clock, to this enable and this divider.
    Clock(u32, u32),
}

/// A step of the sequencer in progress.
#[derive(Debug, Clone, Copy)]
pub enum Job {
    Basic(Task),
    Send(SendCmd),
    Clock(ResetClock),
}

/// How a step of the sequencer ended.
#[derive(Debug, Clone, Copy)]
pub enum Ended {
    Basic(Outcome),
    Sent(Result<Response, CardError>),
    Clocked(Result<(), Timeout>),
}

impl Work {
    /// A delay must be short enough for its tick count to be computed.
    pub open spec fn wf(self) -> bool {
        self matches Work::Basic(activity) ==> activity.wf()
    }

    /// The step as it is begun.
    pub open spec fn begun(self) -> Job {
        match self {
            Work::Basic(activity) => Job::Basic(activity.begun()),
            Work::Send(cmd) => Job::Send(SendCmd::begun(cmd)),
            Work::Clock(ena, div) => Job::Clock(ResetClock::begun(ena, div)),
        }
    }

    /// Begins the step, and hands out its first access.
    pub fn begin(self) -> (begun: (Job, Access))
        requires
            self.wf(),
        ensures
            begun == (self.begun(), self.begun().pending()),
    {
        match self {
            Work::Basic(activity) => {
                let (task, access) = activity.begin();
                (Job::Basic(task), access)
            },
            Work::Send(cmd) => {
                let (engine, access) = send_cmd(cmd);
                (Job::Send(engine), access)
            },
            Work::Clock(ena, div) => {
                let (change, access) = reset_clock(ena, div);
                (Job::Clock(change), access)
            },
        }
    }
}

impl Ended {
    /// The error with which the step failed, where it did.
    pub open spec fn failure(self) -> Option<CardError> {
        match self {
            Ended::Basic(outcome) => match outcome.timeout() {
                Some(t) => Some(CardError::TimeoutErr(t)),
                None => None,
            },
            Ended::Sent(Err(e)) => Some(e),
            Ended::Sent(Ok(_)) => None,
            Ended::Clocked(Err(t)) => Some(CardError::TimeoutErr(t)),
            Ended::Clocked(Ok(_)) => None,
        }
    }

    /// The register word that an access read; zero for another step.
    pub open spec fn word(self) -> u32 {
        match self {
            Ended::Basic(outcome) => outcome.word(),
            _ => 0,
        }
    }

    /// The response that a command brought; none for another step.
    pub open spec fn response(self) -> Response {
        match self {
            Ended::Sent(Ok(response)) => response,
            _ => Response::Rz,
        }
    }

    /// The error of a failed step.
    pub fn failed(&self) -> (e: Option<CardError>)
        ensures
            e == self.failure(),
    {
        match self {
            Ended::Basic(outcome) => match outcome.timed_out() {
                Some(t) => Some(CardError::TimeoutErr(t)),
                None => None,
            },
            Ended::Sent(Err(e)) => Some(*e),
            Ended::Sent(Ok(_)) => None,
            Ended::Clocked(Err(t)) => Some(CardError::TimeoutErr(*t)),
            Ended::Clocked(Ok(_)) => None,
        }
    }

    /// The register word that an access read.
    pub fn value(&self) -> (w: u32)
        ensures
            w == self.word(),
    {
        match self {
            Ended::Basic(outcome) => outcome.value(),
            _ => 0,
        }
    }

    /// The response that a command brought.
    pub fn answer(&self) -> (r: Response)
        ensures
            r == self.response(),
    {
        match self {
            Ended::Sent(Ok(response)) => *response,
            _ => Response::Rz,
        }
    }
}

impl Job {
    /// The access that is out.
    pub open spec fn pending(self) -> Access {
        match self {
            Job::Basic(task) => task.pending(),
            Job::Send(engine) => match engine.pending() {
                Some(access) => access,
                None => Access::ReadTick,
            },
            Job::Clock(change) => match change.pending() {
                Some(access) => access,
                None => Access::ReadTick,
            },
        }
    }

    /// The step after one more reply, and what follows.
    pub open spec fn next(self, reply: u64) -> (Job, Step<Ended>) {
        match self {
            Job::Basic(task) => (
                Job::Basic(task.next(reply).0),
                match task.next(reply).1 {
                    Step::Do(access) => Step::Do(access),
                    Step::Done(outcome) => Step::Done(Ended::Basic(outcome)),
                },
            ),
            Job::Send(engine) => (
                Job::Send(engine.next(reply).0),
                match engine.next(reply).1 {
                    Step::Do(access) => Step::Do(access),
                    Step::Done(result) => Step::Done(Ended::Sent(result)),
                },
            ),
            Job::Clock(change) => (
                Job::Clock(change.next(reply).0),
                match change.next(reply).1 {
                    Step::Do(access) => Step::Do(access),
                    Step::Done(result) => Step::Done(Ended::Clocked(result)),
                },
            ),
        }
    }

    /// Takes the reply to the last access and says what to do next.
    pub fn resume(&mut self, reply: u64) -> (step: Step<Ended>)
        ensures
            (*final(self), step) == old(self).next(reply),
    {
        match *self {
            Job::Basic(task) => {
                let mut task = task;
                let step = task.resume(reply);
                *self = Job::Basic(task);
                match step {
                    Step::Do(access) => Step::Do(access),
                    Step::Done(outcome) => Step::Done(Ended::Basic(outcome)),
                }
            },
            Job::Send(engine) => {
                let mut engine = engine;
                let step = engine.resume(reply);
                *self = Job::Send(engine);
                match step {
                    Step::Do(access) => Step::Do(access),
                    Step::Done(result) => Step::Done(Ended::Sent(result)),
                }
            },
            Job::Clock(change) => {
                let mut change = change;
                let step = change.resume(reply);
                *self = Job::Clock(change);
                match step {
                    Step::Do(access) => Step::Do(access),
                    Step::Done(result) => Step::Done(Ended::Clocked(result)),
                }
            },
        }
    }
}

/// Where the initialization stands.
#[derive(Debug, Clone, Copy)]
pub enum InitStage {
    /// Reading the hardware configuration.
    Hcon,
    /// Resetting the controller, the FIFO and the DMA interface.
    Reset,
    /// Waiting for the three resets to clear.
    ResetWait,
    /// Switching the card's power on.
    Power,
    /// Setting the identification clock.
    IdClock,
    /// Setting the longest timeouts.
    Tmout,
    /// Clearing every pending interrupt.
    ClearInts,
    /// Masking every interrupt.
    MaskInts,
    /// Setting the card type register.
    CardType,
    /// Setting the bus mode register.
    BusMode,
    /// Sending CMD0.
    Idle,
    IdlePause,
    /// Sending CMD8 and checking the echo.
    IfCond,
    IfCondPause,
    /// Sending CMD55 ahead of ACMD41.
    AppCmd,
    /// Sending ACMD41 and looking whether the card has powered up.
    OpCond,
    /// Pausing before the next round of CMD55 and ACMD41.
    OpCondRetry,
    OpCondPause,
    /// Sending CMD2.
    Cid,
    CidPause,
    /// Sending CMD3.
    Rca,
    RcaPause,
    /// Sending CMD9.
    Csd,
    CsdPause,
    /// Sending CMD7.
    Select,
    SelectPause,
    /// Sending CMD6.
    Switch,
    SwitchPause,
    /// Sending CMD55 ahead of ACMD6.
    BusApp,
    /// Sending ACMD6.
    BusWidth,
    BusPause,
    /// Setting the transfer clock.
    TransferClock,
    /// Over, with this result.
    Finished(Result<(), CardError>),
}

/// The initialization, in progress, with what it has learnt of the
/// controller and the card.
#[derive(Debug, Clone, Copy)]
pub struct InitCard {
    pub stage: InitStage,
    pub job: Job,
    /// The hardware configuration register; zero before it is read.
    pub hcon: u32,
    /// The OCR of the card once it has powered up; zero before.
    pub ocr: u32,
    /// The words of the CID; zeros before they are read.
    pub cid: (u32, u32, u32, u32),
    /// The response to CMD3, once it is in.
    pub rca: Option<u32>,
    /// The words of the CSD; zeros before they are read.
    pub csd: (u32, u32, u32, u32),
}

/// Whether a response to CMD8 echoes what was sent: the voltage in the four
/// bits from bit 8, and the check pattern in the low byte.
pub open spec fn echoes(cic: u32) -> bool {
    field32(cic, 8, 0xF) == IF_COND_VOLTAGE && field32(cic, 0, 0xFF) == IF_COND_PATTERN
}

impl InitCard {
    /// The relative address of the card: the upper half of the response to
    /// CMD3, and zero before that response.
    pub open spec fn address(self) -> u16 {
        match self.rca {
            Some(raw) => field32(raw, 16, 0xFFFF) as u16,
            None => 0,
        }
    }

    /// What the sequencer does in its stage; nothing once it is over.
    pub open spec fn work(self) -> Option<Work> {
        match self.stage {
            InitStage::Hcon => Some(Work::Basic(Activity::Io(Access::ReadReg(REG_HCON)))),
            InitStage::Reset => Some(
                Work::Basic(Activity::Io(Access::WriteReg(REG_CTRL, CTRL_RESET_ALL))),
            ),
            InitStage::ResetWait => Some(Work::Basic(Activity::Wait(Wait::Reset(CTRL_RESET_ALL)))),
            InitStage::Power => Some(Work::Basic(Activity::Io(Access::WriteReg(REG_PWREN, 1)))),
            InitStage::IdClock => Some(Work::Clock(1, ID_CLOCK_DIV)),
            InitStage::Tmout => Some(
                Work::Basic(Activity::Io(Access::WriteReg(REG_TMOUT, 0xFFFF_FFFF))),
            ),
            InitStage::ClearInts => Some(
                Work::Basic(Activity::Io(Access::WriteReg(REG_RINTSTS, INT_ALL))),
            ),
            InitStage::MaskInts => Some(
                Work::Basic(Activity::Io(Access::WriteReg(REG_INTMASK, 0))),
            ),
            InitStage::CardType => Some(Work::Basic(Activity::Io(Access::WriteReg(REG_CTYPE, 1)))),
            InitStage::BusMode => Some(Work::Basic(Activity::Io(Access::WriteReg(REG_BMOD, 1)))),
            InitStage::Idle => Some(Work::Send(idle())),
            InitStage::IfCond => Some(Work::Send(send_if_cond(IF_COND_VOLTAGE, IF_COND_PATTERN))),
            InitStage::AppCmd => Some(Work::Send(app_cmd(0))),
            InitStage::OpCond => Some(Work::Send(sd_send_op_cond(true, true))),
            InitStage::Cid => Some(Work::Send(all_send_cid())),
            InitStage::Rca => Some(Work::Send(send_relative_address())),
            InitStage::Csd => Some(Work::Send(send_csd(self.address()))),
            InitStage::Select => Some(Work::Send(select_card(self.address()))),
            InitStage::Switch => Some(Work::Send(switch_function(SWITCH_ARG))),
            InitStage::BusApp => Some(Work::Send(app_cmd(self.address()))),
            InitStage::BusWidth => Some(Work::Send(set_bus_width(BUS_WIDTH_FOUR))),
            InitStage::IdlePause
            | InitStage::IfCondPause
            | InitStage::OpCondRetry
            | InitStage::OpCondPause
            | InitStage::CidPause
            | InitStage::RcaPause
            | InitStage::CsdPause
            | InitStage::SelectPause
            | InitStage::SwitchPause
            | InitStage::BusPause => Some(Work::Basic(Activity::Pause(SETTLE_MICROS))),
            InitStage::TransferClock => Some(Work::Clock(1, TRANSFER_CLOCK_DIV)),
            InitStage::Finished(_) => None,
        }
    }

    /// The sequencer at another stage.
    pub open spec fn at(self, stage: InitStage) -> InitCard {
        InitCard {
            stage,
            job: self.job,
            hcon: self.hcon,
            ocr: self.ocr,
            cid: self.cid,
            rca: self.rca,
            csd: self.csd,
        }
    }

    /// The sequencer at its next stage, given how the step of this one
    /// ended.
    ///
    /// The steps follow one another in the order of the stages, each
    /// command with a pause behind it, with three exceptions. A step that
    /// fails ends the initialization with its error. A response to CMD8
    /// that does not echo what was sent ends it with the voltage pattern
    /// error. And while the response to ACMD41 shows the card busy, the
    /// sequencer pauses and sends CMD55 and ACMD41 again. What the steps
    /// read is kept: the hardware configuration, the OCR, the CID, the
    /// response to CMD3 and the CSD.
    pub open spec fn advanced(self, ended: Ended) -> InitCard {
        match ended.failure() {
            Some(e) => self.at(InitStage::Finished(Err(e))),
            None => match self.stage {
                InitStage::Hcon => InitCard {
                    stage: InitStage::Reset,
                    job: self.job,
                    hcon: ended.word(),
                    ocr: self.ocr,
                    cid: self.cid,
                    rca: self.rca,
                    csd: self.csd,
                },
                InitStage::Reset => self.at(InitStage::ResetWait),
                InitStage::ResetWait => self.at(InitStage::Power),
                InitStage::Power => self.at(InitStage::IdClock),
                InitStage::IdClock => self.at(InitStage::Tmout),
                InitStage::Tmout => self.at(InitStage::ClearInts),
                InitStage::ClearInts => self.at(InitStage::MaskInts),
                InitStage::MaskInts => self.at(InitStage::CardType),
                InitStage::CardType => self.at(InitStage::BusMode),
                InitStage::BusMode => self.at(InitStage::Idle),
                InitStage::Idle => self.at(InitStage::IdlePause),
                InitStage::IdlePause => self.at(InitStage::IfCond),
                InitStage::IfCond => if echoes(ended.response().short()) {
                    self.at(InitStage::IfCondPause)
                } else {
                    self.at(InitStage::Finished(Err(CardError::VoltagePattern)))
                },
                InitStage::IfCondPause => self.at(InitStage::AppCmd),
                InitStage::AppCmd => self.at(InitStage::OpCond),
                InitStage::OpCond => if !any_set(ended.response().short(), 0x8000_0000) {
                    self.at(InitStage::OpCondRetry)
                } else {
                    InitCard {
                        stage: InitStage::OpCondPause,
                        job: self.job,
                        hcon: self.hcon,
                        ocr: ended.response().short(),
                        cid: self.cid,
                        rca: self.rca,
                        csd: self.csd,
                    }
                },
                InitStage::OpCondRetry => self.at(InitStage::AppCmd),
                InitStage::OpCondPause => self.at(InitStage::Cid),
                InitStage::Cid => InitCard {
                    stage: InitStage::CidPause,
                    job: self.job,
                    hcon: self.hcon,
                    ocr: self.ocr,
                    cid: ended.response().long(),
                    rca: self.rca,
                    csd: self.csd,
                },
                InitStage::CidPause => self.at(InitStage::Rca),
                InitStage::Rca => InitCard {
                    stage: InitStage::RcaPause,
                    job: self.job,
                    hcon: self.hcon,
                    ocr: self.ocr,
                    cid: self.cid,
                    rca: Some(ended.response().short()),
                    csd: self.csd,
                },
                InitStage::RcaPause => self.at(InitStage::Csd),
                InitStage::Csd => InitCard {
                    stage: InitStage::CsdPause,
                    job: self.job,
                    hcon: self.hcon,
                    ocr: self.ocr,
                    cid: self.cid,
                    rca: self.rca,
                    csd: ended.response().long(),
                },
                InitStage::CsdPause => self.at(InitStage::Select),
                InitStage::Select => self.at(InitStage::SelectPause),
                InitStage::SelectPause => self.at(InitStage::Switch),
                InitStage::Switch => self.at(InitStage::SwitchPause),
                InitStage::SwitchPause => self.at(InitStage::BusApp),
                InitStage::BusApp => self.at(InitStage::BusWidth),
                InitStage::BusWidth => self.at(InitStage::BusPause),
                InitStage::BusPause => self.at(InitStage::TransferClock),
                InitStage::TransferClock => self.at(InitStage::Finished(Ok(()))),
                InitStage::Finished(_) => self,
            },
        }
    }

    /// The sequencer as it is begun.
    pub open spec fn begun() -> InitCard {
        InitCard {
            stage: InitStage::Hcon,
            job: Job::Basic(Task::Io(Access::ReadReg(REG_HCON))),
            hcon: 0,
            ocr: 0,
            cid: (0, 0, 0, 0),
            rca: None,
            csd: (0, 0, 0, 0),
        }
    }

    /// The access that is out; none once the sequencer is over.
    pub open spec fn pending(self) -> Option<Access> {
        match self.stage {
            InitStage::Finished(_) => None,
            _ => Some(self.job.pending()),
        }
    }

    /// The result, once the sequencer is over.
    pub open spec fn result(self) -> Option<Result<(), CardError>> {
        match self.stage {
            InitStage::Finished(result) => Some(result),
            _ => None,
        }
    }

    /// The sequencer with another step in progress.
    pub open spec fn with(self, job: Job) -> InitCard {
        InitCard {
            stage: self.stage,
            job,
            hcon: self.hcon,
            ocr: self.ocr,
            cid: self.cid,
            rca: self.rca,
            csd: self.csd,
        }
    }

    /// The sequencer after one more reply, and what follows: the step of
    /// the stage goes on, or it is over and the next stage is entered with
    /// the first access of its step. A sequencer that is over stays so.
    pub open spec fn next(self, reply: u64) -> (InitCard, Step<Result<(), CardError>>) {
        match self.stage {
            InitStage::Finished(result) => (self, Step::Done(result)),
            _ => match self.job.next(reply).1 {
                Step::Do(access) => (self.with(self.job.next(reply).0), Step::Do(access)),
                Step::Done(ended) => {
                    let moved = self.advanced(ended);
                    match moved.stage {
                        InitStage::Finished(result) => (
                            moved.with(self.job.next(reply).0),
                            Step::Done(result),
                        ),
                        _ => (
                            moved.with(moved.work()->0.begun()),
                            Step::Do(moved.work()->0.begun().pending()),
                        ),
                    }
                },
            },
        }
    }

    /// The relative address of the card; zero before the card has
    /// published one.
    pub fn rca_address(&self) -> (a: u16)
        ensures
            a == self.address(),
    {
        match self.rca {
            Some(raw) => Rca::from(raw).address(),
            None => 0,
        }
    }

    /// The hardware configuration of the controller.
    pub fn hardware(&self) -> (h: HardConf)
        ensures
            h@ == self.hcon,
    {
        HardConf::from(self.hcon)
    }

    /// The OCR of the card.
    pub fn ocr(&self) -> (o: Ocr)
        ensures
            o@ == self.ocr,
    {
        Ocr::from(self.ocr)
    }

    /// The CID of the card.
    pub fn cid(&self) -> (c: Cid)
        ensures
            c@ == super::sd_reg::compose(self.cid),
    {
        Cid::from(self.cid)
    }

    /// The CSD of the card.
    pub fn csd(&self) -> (c: Csd)
        ensures
            c@ == super::sd_reg::compose(self.csd),
    {
        Csd::from(self.csd)
    }

    /// What to do in the stage.
    pub fn task(&self) -> (w: Option<Work>)
        ensures
            w == self.work(),
            w matches Some(work) ==> work.wf(),
    {
        match self.stage {
            InitStage::Hcon => Some(Work::Basic(Activity::Io(Access::ReadReg(REG_HCON)))),
            InitStage::Reset => Some(
                Work::Basic(Activity::Io(Access::WriteReg(REG_CTRL, CTRL_RESET_ALL))),
            ),
            InitStage::ResetWait => Some(Work::Basic(Activity::Wait(Wait::Reset(CTRL_RESET_ALL)))),
            InitStage::Power => Some(Work::Basic(Activity::Io(Access::WriteReg(REG_PWREN, 1)))),
            InitStage::IdClock => Some(Work::Clock(1, ID_CLOCK_DIV)),
            InitStage::Tmout => Some(
                Work::Basic(Activity::Io(Access::WriteReg(REG_TMOUT, 0xFFFF_FFFF))),
            ),
            InitStage::ClearInts => Some(
                Work::Basic(Activity::Io(Access::WriteReg(REG_RINTSTS, INT_ALL))),
            ),
            InitStage::MaskInts => Some(
                Work::Basic(Activity::Io(Access::WriteReg(REG_INTMASK, 0))),
            ),
            InitStage::CardType => Some(Work::Basic(Activity::Io(Access::WriteReg(REG_CTYPE, 1)))),
            InitStage::BusMode => Some(Work::Basic(Activity::Io(Access::WriteReg(REG_BMOD, 1)))),
            InitStage::Idle => Some(Work::Send(idle())),
            InitStage::IfCond => Some(Work::Send(send_if_cond(IF_COND_VOLTAGE, IF_COND_PATTERN))),
            InitStage::AppCmd => Some(Work::Send(app_cmd(0))),
            InitStage::OpCond => Some(Work::Send(sd_send_op_cond(true, true))),
            InitStage::Cid => Some(Work::Send(all_send_cid())),
            InitStage::Rca => Some(Work::Send(send_relative_address())),
            InitStage::Csd => Some(Work::Send(send_csd(self.rca_address()))),
            InitStage::Select => Some(Work::Send(select_card(self.rca_address()))),
            InitStage::Switch => Some(Work::Send(switch_function(SWITCH_ARG))),
            InitStage::BusApp => Some(Work::Send(app_cmd(self.rca_address()))),
            InitStage::BusWidth => Some(Work::Send(set_bus_width(BUS_WIDTH_FOUR))),
            InitStage::IdlePause
            | InitStage::IfCondPause
            | InitStage::OpCondRetry
            | InitStage::OpCondPause
            | InitStage::CidPause
            | InitStage::RcaPause
            | InitStage::CsdPause
            | InitStage::SelectPause
            | InitStage::SwitchPause
            | InitStage::BusPause => Some(Work::Basic(Activity::Pause(SETTLE_MICROS))),
            InitStage::TransferClock => Some(Work::Clock(1, TRANSFER_CLOCK_DIV)),
            InitStage::Finished(_) => None,
        }
    }

    /// Moves to the next stage, and keeps what the step has read.
    pub fn advance(&mut self, ended: Ended)
        ensures
            *final(self) == old(self).advanced(ended),
    {
        if let Some(e) = ended.failed() {
            self.stage = InitStage::Finished(Err(e));
            return ;
        }
        match self.stage {
            InitStage::Hcon => {
                self.hcon = ended.value();
                self.stage = InitStage::Reset;
            },
            InitStage::Reset => {
                self.stage = InitStage::ResetWait;
            },
            InitStage::ResetWait => {
                self.stage = InitStage::Power;
            },
            InitStage::Power => {
                self.stage = InitStage::IdClock;
            },
            InitStage::IdClock => {
                self.stage = InitStage::Tmout;
            },
            InitStage::Tmout => {
                self.stage = InitStage::ClearInts;
            },
            InitStage::ClearInts => {
                self.stage = InitStage::MaskInts;
            },
            InitStage::MaskInts => {
                self.stage = InitStage::CardType;
            },
            InitStage::CardType => {
                self.stage = InitStage::BusMode;
            },
            InitStage::BusMode => {
                self.stage = InitStage::Idle;
            },
            InitStage::Idle => {
                self.stage = InitStage::IdlePause;
            },
            InitStage::IdlePause => {
                self.stage = InitStage::IfCond;
            },
            InitStage::IfCond => {
                let cic = ended.answer().cic();
                if cic.voltage_accepted() == 1 && cic.pattern() == 0xAA {
                    self.stage = InitStage::IfCondPause;
                } else {
                    self.stage = InitStage::Finished(Err(CardError::VoltagePattern));
                }
            },
            InitStage::IfCondPause => {
                self.stage = InitStage::AppCmd;
            },
            InitStage::AppCmd => {
                self.stage = InitStage::OpCond;
            },
            InitStage::OpCond => {
                let ocr = ended.answer().ocr();
                if ocr.is_busy() {
                    self.stage = InitStage::OpCondRetry;
                } else {
                    self.ocr = ocr.0;
                    self.stage = InitStage::OpCondPause;
                }
            },
            InitStage::OpCondRetry => {
                self.stage = InitStage::AppCmd;
            },
            InitStage::OpCondPause => {
                self.stage = InitStage::Cid;
            },
            InitStage::Cid => {
                self.cid = ended.answer().words();
                self.stage = InitStage::CidPause;
            },
            InitStage::CidPause => {
                self.stage = InitStage::Rca;
            },
            InitStage::Rca => {
                self.rca = Some(ended.answer().rca().0);
                self.stage = InitStage::RcaPause;
            },
            InitStage::RcaPause => {
                self.stage = InitStage::Csd;
            },
            InitStage::Csd => {
                self.csd = ended.answer().words();
                self.stage = InitStage::CsdPause;
            },
            InitStage::CsdPause => {
                self.stage = InitStage::Select;
            },
            InitStage::Select => {
                self.stage = InitStage::SelectPause;
            },
            InitStage::SelectPause => {
                self.stage = InitStage::Switch;
            },
            InitStage::Switch => {
                self.stage = InitStage::SwitchPause;
            },
            InitStage::SwitchPause => {
                self.stage = InitStage::BusApp;
            },
            InitStage::BusApp => {
                self.stage = InitStage::BusWidth;
            },
            InitStage::BusWidth => {
                self.stage = InitStage::BusPause;
            },
            InitStage::BusPause => {
                self.stage = InitStage::TransferClock;
            },
            InitStage::TransferClock => {
                self.stage = InitStage::Finished(Ok(()));
            },
            InitStage::Finished(_) => {},
        }
    }

    /// Takes the reply to the last access and says what to do next: the
    /// next access, or that the card is ready for transfers, or why it is
    /// not.
    pub fn resume(&mut self, reply: u64) -> (step: Step<Result<(), CardError>>)
        ensures
            (*final(self), step) == old(self).next(reply),
    {
        if let InitStage::Finished(result) = self.stage {
            return Step::Done(result);
        }
        let mut job = self.job;
        match job.resume(reply) {
            Step::Do(access) => {
                self.job = job;
                Step::Do(access)
            },
            Step::Done(ended) => {
                self.advance(ended);
                match self.task() {
                    Some(work) => {
                        let (begun, access) = work.begin();
                        self.job = begun;
                        Step::Do(access)
                    },
                    None => {
                        self.job = job;
                        match self.stage {
                            InitStage::Finished(result) => Step::Done(result),
                            _ => Step::Done(Err(CardError::CardInitErr)),
                        }
                    },
                }
            },
        }
    }
}

/// Begins the initialization; the first access reads the hardware
/// configuration register.
pub fn init_card() -> (begun: (InitCard, Access))
    ensures
        begun == (InitCard::begun(), Access::ReadReg(REG_HCON)),
{
    (
        InitCard {
            stage: InitStage::Hcon,
            job: Job::Basic(Task::Io(Access::ReadReg(REG_HCON))),
            hcon: 0,
            ocr: 0,
            cid: (0, 0, 0, 0),
            rca: None,
            csd: (0, 0, 0, 0),
        },
        Access::ReadReg(REG_HCON),
    )
}


/// The initialization after it was begun and has taken `replies`, in
/// order.
pub open spec fn init_after(replies: Seq<u64>) -> InitCard
    decreases replies.len(),
{
    if replies.len() == 0 {
        InitCard::begun()
    } else {
        init_after(replies.drop_last()).next(replies.last()).0
    }
}

impl InitCard {
    /// The command whose issue this reply begins, where it begins one: the
    /// reply ends the step of the stage, and the step of the next stage is
    /// a command.
    pub open spec fn begins(self, reply: u64) -> Option<Command> {
        if self.stage is Finished {
            None
        } else {
            match self.job.next(reply).1 {
                Step::Done(ended) => match self.advanced(ended).work() {
                    Some(Work::Send(cmd)) => Some(cmd),
                    _ => None,
                },
                Step::Do(_) => None,
            }
        }
    }
}

/// The commands whose issue the initialization has begun by then, in
/// order.
pub open spec fn init_commands(replies: Seq<u64>) -> Seq<Command>
    decreases replies.len(),
{
    if replies.len() == 0 {
        Seq::empty()
    } else {
        match init_after(replies.drop_last()).begins(replies.last()) {
            Some(cmd) => init_commands(replies.drop_last()).push(cmd),
            None => init_commands(replies.drop_last()),
        }
    }
}

/// Number of times that the initialization has asked the card for its
/// operating conditions by then.
pub open spec fn init_polls(replies: Seq<u64>) -> nat
    decreases replies.len(),
{
    if replies.len() == 0 {
        0
    } else {
        init_polls(replies.drop_last()) + if init_after(replies.drop_last()).begins(
            replies.last(),
        ) == Some(sd_send_op_cond(true, true)) {
            1nat
        } else {
            0nat
        }
    }
}

/// The commands up to the end of `polls` rounds of asking for the operating
/// conditions: CMD0, CMD8, and CMD55 with ACMD41 once for each round.
pub open spec fn polled(polls: nat) -> Seq<Command>
    decreases polls,
{
    if polls == 0 {
        seq![idle(), send_if_cond(IF_COND_VOLTAGE, IF_COND_PATTERN)]
    } else {
        polled((polls - 1) as nat).push(app_cmd(0)).push(sd_send_op_cond(true, true))
    }
}

/// The command at place `n` behind the rounds of asking, for a card that
/// published `address`: CMD2, CMD3, CMD9, CMD7, CMD6, CMD55 and ACMD6 at
/// the places 1 to 7.
pub open spec fn later_command(address: u16, n: int) -> Command {
    if n <= 1 {
        all_send_cid()
    } else if n == 2 {
        send_relative_address()
    } else if n == 3 {
        send_csd(address)
    } else if n == 4 {
        select_card(address)
    } else if n == 5 {
        switch_function(SWITCH_ARG)
    } else if n == 6 {
        app_cmd(address)
    } else {
        set_bus_width(BUS_WIDTH_FOUR)
    }
}

/// The commands up to place `n` behind `polls` rounds of asking.
pub open spec fn enumerated_to(polls: nat, address: u16, n: int) -> Seq<Command>
    decreases n,
{
    if n <= 0 {
        polled(polls)
    } else {
        enumerated_to(polls, address, n - 1).push(later_command(address, n))
    }
}

/// The commands of a whole initialization that asked `polls` times for the
/// operating conditions of a card that published `address`: CMD0, CMD8,
/// CMD55 with ACMD41 for each round of asking, and then CMD2, CMD3, CMD9,
/// CMD7, CMD6, CMD55 and ACMD6, with the address in CMD9, CMD7 and CMD55.
pub open spec fn enumeration(polls: nat, address: u16) -> Seq<Command> {
    enumerated_to(polls, address, 7)
}

impl InitStage {
    /// The place behind the rounds of asking up to which the commands have
    /// been begun when the sequencer stands in this stage; nothing for a
    /// stage up to those rounds, and for a sequencer that failed.
    pub open spec fn enumerated(self) -> Option<int> {
        match self {
            InitStage::OpCond | InitStage::OpCondRetry | InitStage::OpCondPause => Some(0),
            InitStage::Cid | InitStage::CidPause => Some(1),
            InitStage::Rca | InitStage::RcaPause => Some(2),
            InitStage::Csd | InitStage::CsdPause => Some(3),
            InitStage::Select | InitStage::SelectPause => Some(4),
            InitStage::Switch | InitStage::SwitchPause => Some(5),
            InitStage::BusApp => Some(6),
            InitStage::BusWidth
            | InitStage::BusPause
            | InitStage::TransferClock
            | InitStage::Finished(Ok(_)) => Some(7),
            _ => None,
        }
    }
}

/// The enumeration follows one order of commands. However the replies
/// fall, an initialization that ends with success has begun exactly the
/// commands of the enumeration, in order, with at least one round of asking
/// for the operating conditions; the card has published an address, which
/// is the one that the later commands carry; and the OCR that is kept shows
/// the card powered up.
pub proof fn lemma_enumeration_in_order(replies: Seq<u64>)
    ensures
        init_after(replies).result() matches Some(Ok(_)) ==> {
            &&& init_polls(replies) >= 1
            &&& init_after(replies).rca is Some
            &&& any_set(init_after(replies).ocr, 0x8000_0000)
            &&& init_commands(replies) == enumeration(
                init_polls(replies),
                init_after(replies).address(),
            )
        },
{
    lemma_enumeration_trail(replies);
}

/// The commands up to the second place do not depend on the address.
proof fn lemma_early_commands(polls: nat, a: u16, b: u16, n: int)
    requires
        n <= 2,
    ensures
        enumerated_to(polls, a, n) == enumerated_to(polls, b, n),
    decreases n,
{
    if n > 0 {
        lemma_early_commands(polls, a, b, n - 1);
    }
}

/// What the initialization has begun at each stage.
proof fn lemma_enumeration_trail(replies: Seq<u64>)
    ensures
        match init_after(replies).stage {
            InitStage::Hcon
            | InitStage::Reset
            | InitStage::ResetWait
            | InitStage::Power
            | InitStage::IdClock
            | InitStage::Tmout
            | InitStage::ClearInts
            | InitStage::MaskInts
            | InitStage::CardType
            | InitStage::BusMode => init_commands(replies) == Seq::<Command>::empty() && init_polls(
                replies,
            ) == 0,
            InitStage::Idle | InitStage::IdlePause => init_commands(replies) == seq![idle()]
                && init_polls(replies) == 0,
            InitStage::IfCond | InitStage::IfCondPause => init_commands(replies) == polled(0)
                && init_polls(replies) == 0,
            InitStage::AppCmd => init_commands(replies) == polled(init_polls(replies)).push(
                app_cmd(0),
            ),
            InitStage::Finished(Err(_)) => true,
            _ => {
                &&& init_polls(replies) >= 1
                &&& init_after(replies).stage.enumerated() matches Some(n)
                &&& init_commands(replies) == enumerated_to(
                    init_polls(replies),
                    init_after(replies).address(),
                    n,
                )
                &&& any_set(init_after(replies).ocr, 0x8000_0000) || init_after(replies).stage
                    is OpCond || init_after(replies).stage is OpCondRetry
                &&& init_after(replies).rca is Some || n <= 1 || init_after(replies).stage is Rca
            },
        },
    decreases replies.len(),
{
    if replies.len() > 0 {
        let before = init_after(replies.drop_last());
        let after = init_after(replies);
        lemma_enumeration_trail(replies.drop_last());
        lemma_early_commands(init_polls(replies), before.address(), after.address(), 2);
        lemma_early_commands(init_polls(replies), before.address(), after.address(), 1);
        lemma_early_commands(init_polls(replies), before.address(), after.address(), 0);
        assert(Seq::<Command>::empty().push(idle()) =~= seq![idle()]);
        assert(seq![idle()].push(send_if_cond(IF_COND_VOLTAGE, IF_COND_PATTERN)) =~= polled(0));
    }
}

} // verus!
