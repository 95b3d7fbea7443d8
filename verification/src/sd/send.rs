//! The command engine: issues one command, retries it while the controller
//! rejects the write, collects the response and prepares the FIFO for the
//! data that follows.

use vstd::prelude::*;
use crate::bus::{word_of, Access, Step};
use super::cmd::{Command, Response};
use super::err::{CardError, Interrupt, Timeout};
use super::reg::{
    any_set, BLKSIZ_DEFAULT, CTRL_FIFO_RESET, INT_ALL, INT_HLE, INT_RE, INT_RTO, REG_BLKSIZ,
    REG_BYTCNT, REG_CMD, REG_CMDARG, REG_CTRL, REG_RESP0, REG_RESP1, REG_RESP2, REG_RESP3,
    REG_RINTSTS,
};
use super::utils::{Activity, Outcome, Task, Wait};

verus! {

/// Where the engine stands in the issue of a command. Each stage but the
/// last is one activity; a stage that must remember something holds it.
#[derive(Debug, Clone, Copy)]
pub enum SendStage {
    /// Waiting for the card to release the data line.
    DataLine,
    /// Waiting for the controller to take the previous command.
    CmdLine,
    /// Clearing every pending interrupt.
    ClearInts,
    /// Writing the argument.
    Arg,
    /// Writing the command word, which issues the command.
    Issue,
    /// Reading the interrupt status, to see whether the write was taken.
    IssueStatus,
    /// Waiting for the command-done interrupt.
    CmdDone,
    /// Reading the interrupt status, to see whether the response came.
    RespStatus,
    /// Writing this interrupt status back, which reports a failed response.
    AckFailure(u32),
    /// Reading the first response word.
    Resp0,
    /// Reading the second response word; holds the first.
    Resp1(u32),
    /// Reading the third response word; holds the first two.
    Resp2(u32, u32),
    /// Reading the fourth response word; holds the first three.
    Resp3(u32, u32, u32),
    /// Resetting the FIFO; holds the response.
    FifoReset(Response),
    /// Waiting for the FIFO reset to clear; holds the response.
    FifoWait(Response),
    /// Writing the block size; holds the response.
    BlockSize(Response),
    /// Writing the byte count; holds the response.
    ByteCount(Response),
    /// Over, with this result.
    Finished(Result<Response, CardError>),
}

/// The issue of one command, in progress.
#[derive(Debug, Clone, Copy)]
pub struct SendCmd {
    pub cmd: Command,
    pub stage: SendStage,
    pub task: Task,
}

/// The error that an interrupt status reports of a response: a response
/// timeout before a response error.
pub open spec fn response_failure(mask: u32) -> Option<Interrupt> {
    if any_set(mask, INT_RTO) {
        Some(Interrupt::ResponseTimeout)
    } else if any_set(mask, INT_RE) {
        Some(Interrupt::ResponseErr)
    } else {
        None
    }
}

/// The stage that follows once the response is in: the FIFO is prepared
/// where the command expects data, otherwise the engine is done.
pub open spec fn settled(cmd: Command, response: Response) -> SendStage {
    if cmd.expects_data() {
        SendStage::FifoReset(response)
    } else {
        SendStage::Finished(Ok(response))
    }
}

impl SendStage {
    /// What the engine does in this stage; nothing once it is over.
    pub open spec fn activity(self, cmd: Command) -> Option<Activity> {
        match self {
            SendStage::DataLine => Some(Activity::Wait(Wait::DataLine)),
            SendStage::CmdLine => Some(Activity::Wait(Wait::CmdLine)),
            SendStage::ClearInts => Some(Activity::Io(Access::WriteReg(REG_RINTSTS, INT_ALL))),
            SendStage::Arg => Some(Activity::Io(Access::WriteReg(REG_CMDARG, cmd.arg))),
            SendStage::Issue => Some(Activity::Io(Access::WriteReg(REG_CMD, cmd.cmd_word()))),
            SendStage::IssueStatus => Some(Activity::Io(Access::ReadReg(REG_RINTSTS))),
            SendStage::CmdDone => Some(Activity::Wait(Wait::CmdDone)),
            SendStage::RespStatus => Some(Activity::Io(Access::ReadReg(REG_RINTSTS))),
            SendStage::AckFailure(mask) => Some(
                Activity::Io(Access::WriteReg(REG_RINTSTS, mask)),
            ),
            SendStage::Resp0 => Some(Activity::Io(Access::ReadReg(REG_RESP0))),
            SendStage::Resp1(_) => Some(Activity::Io(Access::ReadReg(REG_RESP1))),
            SendStage::Resp2(_, _) => Some(Activity::Io(Access::ReadReg(REG_RESP2))),
            SendStage::Resp3(_, _, _) => Some(Activity::Io(Access::ReadReg(REG_RESP3))),
            SendStage::FifoReset(_) => Some(
                Activity::Io(Access::WriteReg(REG_CTRL, CTRL_FIFO_RESET)),
            ),
            SendStage::FifoWait(_) => Some(Activity::Wait(Wait::Reset(CTRL_FIFO_RESET))),
            SendStage::BlockSize(_) => Some(
                Activity::Io(Access::WriteReg(REG_BLKSIZ, BLKSIZ_DEFAULT)),
            ),
            SendStage::ByteCount(_) => Some(
                Activity::Io(Access::WriteReg(REG_BYTCNT, BLKSIZ_DEFAULT)),
            ),
            SendStage::Finished(_) => None,
        }
    }

    /// The stage that follows this one, given how its activity ended.
    ///
    /// A wait that runs out ends the engine with its timeout. A rejected
    /// write of the command word (hardware locked error) leads back to the
    /// first stage. A response is read only where the command has one, and
    /// after the interrupt status showed neither a response timeout nor a
    /// response error; a long response is read word by word from RESP0 up.
    pub open spec fn after(self, cmd: Command, outcome: Outcome) -> SendStage {
        match outcome.timeout() {
            Some(t) => SendStage::Finished(Err(CardError::TimeoutErr(t))),
            None => match self {
                SendStage::DataLine => SendStage::CmdLine,
                SendStage::CmdLine => SendStage::ClearInts,
                SendStage::ClearInts => SendStage::Arg,
                SendStage::Arg => SendStage::Issue,
                SendStage::Issue => SendStage::IssueStatus,
                SendStage::IssueStatus => if any_set(outcome.word(), INT_HLE) {
                    SendStage::DataLine
                } else {
                    SendStage::CmdDone
                },
                SendStage::CmdDone => if cmd.expects_response() {
                    SendStage::RespStatus
                } else {
                    settled(cmd, Response::Rz)
                },
                SendStage::RespStatus => if response_failure(outcome.word()) is Some {
                    SendStage::AckFailure(outcome.word())
                } else {
                    SendStage::Resp0
                },
                SendStage::AckFailure(mask) => SendStage::Finished(
                    Err(
                        CardError::InterruptErr(
                            if any_set(mask, INT_RTO) {
                                Interrupt::ResponseTimeout
                            } else {
                                Interrupt::ResponseErr
                            },
                        ),
                    ),
                ),
                SendStage::Resp0 => if cmd.expects_long_response() {
                    SendStage::Resp1(outcome.word())
                } else {
                    settled(cmd, Response::R48(outcome.word()))
                },
                SendStage::Resp1(w0) => SendStage::Resp2(w0, outcome.word()),
                SendStage::Resp2(w0, w1) => SendStage::Resp3(w0, w1, outcome.word()),
                SendStage::Resp3(w0, w1, w2) => settled(
                    cmd,
                    Response::R136((w0, w1, w2, outcome.word())),
                ),
                SendStage::FifoReset(response) => SendStage::FifoWait(response),
                SendStage::FifoWait(response) => SendStage::BlockSize(response),
                SendStage::BlockSize(response) => SendStage::ByteCount(response),
                SendStage::ByteCount(response) => SendStage::Finished(Ok(response)),
                SendStage::Finished(result) => SendStage::Finished(result),
            },
        }
    }

    /// What to do in this stage.
    pub fn action(&self, cmd: &Command) -> (a: Option<Activity>)
        ensures
            a == self.activity(*cmd),
            a matches Some(activity) ==> activity.wf(),
    {
        match self {
            SendStage::DataLine => Some(Activity::Wait(Wait::DataLine)),
            SendStage::CmdLine => Some(Activity::Wait(Wait::CmdLine)),
            SendStage::ClearInts => Some(Activity::Io(Access::WriteReg(REG_RINTSTS, INT_ALL))),
            SendStage::Arg => Some(Activity::Io(Access::WriteReg(REG_CMDARG, cmd.arg()))),
            SendStage::Issue => Some(Activity::Io(Access::WriteReg(REG_CMD, cmd.to_cmd()))),
            SendStage::IssueStatus => Some(Activity::Io(Access::ReadReg(REG_RINTSTS))),
            SendStage::CmdDone => Some(Activity::Wait(Wait::CmdDone)),
            SendStage::RespStatus => Some(Activity::Io(Access::ReadReg(REG_RINTSTS))),
            SendStage::AckFailure(mask) => Some(
                Activity::Io(Access::WriteReg(REG_RINTSTS, *mask)),
            ),
            SendStage::Resp0 => Some(Activity::Io(Access::ReadReg(REG_RESP0))),
            SendStage::Resp1(_) => Some(Activity::Io(Access::ReadReg(REG_RESP1))),
            SendStage::Resp2(_, _) => Some(Activity::Io(Access::ReadReg(REG_RESP2))),
            SendStage::Resp3(_, _, _) => Some(Activity::Io(Access::ReadReg(REG_RESP3))),
            SendStage::FifoReset(_) => Some(
                Activity::Io(Access::WriteReg(REG_CTRL, CTRL_FIFO_RESET)),
            ),
            SendStage::FifoWait(_) => Some(Activity::Wait(Wait::Reset(CTRL_FIFO_RESET))),
            SendStage::BlockSize(_) => Some(
                Activity::Io(Access::WriteReg(REG_BLKSIZ, BLKSIZ_DEFAULT)),
            ),
            SendStage::ByteCount(_) => Some(
                Activity::Io(Access::WriteReg(REG_BYTCNT, BLKSIZ_DEFAULT)),
            ),
            SendStage::Finished(_) => None,
        }
    }

    /// Picks the stage that follows this one.
    pub fn follow(self, cmd: &Command, outcome: Outcome) -> (stage: SendStage)
        ensures
            stage == self.after(*cmd, outcome),
    {
        if let Some(t) = outcome.timed_out() {
            return SendStage::Finished(Err(CardError::TimeoutErr(t)));
        }
        let value: u32 = outcome.value();
        match self {
            SendStage::DataLine => SendStage::CmdLine,
            SendStage::CmdLine => SendStage::ClearInts,
            SendStage::ClearInts => SendStage::Arg,
            SendStage::Arg => SendStage::Issue,
            SendStage::Issue => SendStage::IssueStatus,
            SendStage::IssueStatus => {
                if value & INT_HLE == 0 {
                    SendStage::CmdDone
                } else {
                    SendStage::DataLine
                }
            },
            SendStage::CmdDone => {
                if cmd.resp_exp() {
                    SendStage::RespStatus
                } else {
                    settle(cmd, Response::Rz)
                }
            },
            SendStage::RespStatus => {
                if value & INT_RTO != 0 {
                    SendStage::AckFailure(value)
                } else if value & INT_RE != 0 {
                    SendStage::AckFailure(value)
                } else {
                    SendStage::Resp0
                }
            },
            SendStage::AckFailure(mask) => {
                if mask & INT_RTO != 0 {
                    SendStage::Finished(Err(CardError::InterruptErr(Interrupt::ResponseTimeout)))
                } else {
                    SendStage::Finished(Err(CardError::InterruptErr(Interrupt::ResponseErr)))
                }
            },
            SendStage::Resp0 => {
                if cmd.resp_lang() {
                    SendStage::Resp1(value)
                } else {
                    settle(cmd, Response::R48(value))
                }
            },
            SendStage::Resp1(w0) => SendStage::Resp2(w0, value),
            SendStage::Resp2(w0, w1) => SendStage::Resp3(w0, w1, value),
            SendStage::Resp3(w0, w1, w2) => settle(cmd, Response::R136((w0, w1, w2, value))),
            SendStage::FifoReset(response) => SendStage::FifoWait(response),
            SendStage::FifoWait(response) => SendStage::BlockSize(response),
            SendStage::BlockSize(response) => SendStage::ByteCount(response),
            SendStage::ByteCount(response) => SendStage::Finished(Ok(response)),
            SendStage::Finished(result) => SendStage::Finished(result),
        }
    }
}

/// Picks the stage that follows the response.
pub fn settle(cmd: &Command, response: Response) -> (stage: SendStage)
    ensures
        stage == settled(*cmd, response),
{
    if cmd.data_exp() {
        SendStage::FifoReset(response)
    } else {
        SendStage::Finished(Ok(response))
    }
}

impl SendCmd {
    /// The access that is out; none once the engine is over.
    pub open spec fn pending(self) -> Option<Access> {
        match self.stage {
            SendStage::Finished(_) => None,
            _ => Some(self.task.pending()),
        }
    }

    /// The result, once the engine is over.
    pub open spec fn result(self) -> Option<Result<Response, CardError>> {
        match self.stage {
            SendStage::Finished(result) => Some(result),
            _ => None,
        }
    }

    /// The engine as it is begun on a command: waiting for the data line.
    pub open spec fn begun(cmd: Command) -> SendCmd {
        SendCmd {
            cmd,
            stage: SendStage::DataLine,
            task: Activity::Wait(Wait::DataLine).begun(),
        }
    }

    /// The engine after one more reply, and what follows: the activity of
    /// the stage goes on, or it is over and the next stage is entered with
    /// the first access of its activity. An engine that is over stays so.
    pub open spec fn next(self, reply: u64) -> (SendCmd, Step<Result<Response, CardError>>) {
        match self.stage {
            SendStage::Finished(result) => (self, Step::Done(result)),
            _ => match self.task.next(reply).1 {
                Step::Do(access) => (
                    SendCmd { cmd: self.cmd, stage: self.stage, task: self.task.next(reply).0 },
                    Step::Do(access),
                ),
                Step::Done(outcome) => {
                    let stage = self.stage.after(self.cmd, outcome);
                    match stage {
                        SendStage::Finished(result) => (
                            SendCmd { cmd: self.cmd, stage, task: self.task.next(reply).0 },
                            Step::Done(result),
                        ),
                        _ => (
                            SendCmd {
                                cmd: self.cmd,
                                stage,
                                task: stage.activity(self.cmd)->0.begun(),
                            },
                            Step::Do(stage.activity(self.cmd)->0.begun().pending()),
                        ),
                    }
                },
            },
        }
    }

    /// Takes the reply to the last access and says what to do next: the
    /// next access, or the response of the command, or why there is none.
    pub fn resume(&mut self, reply: u64) -> (step: Step<Result<Response, CardError>>)
        ensures
            (*final(self), step) == old(self).next(reply),
    {
        if let SendStage::Finished(result) = self.stage {
            return Step::Done(result);
        }
        let mut task = self.task;
        match task.resume(reply) {
            Step::Do(access) => {
                self.task = task;
                Step::Do(access)
            },
            Step::Done(outcome) => {
                let stage = self.stage.follow(&self.cmd, outcome);
                self.stage = stage;
                match stage.action(&self.cmd) {
                    Some(activity) => {
                        let (begun, access) = activity.begin();
                        self.task = begun;
                        Step::Do(access)
                    },
                    None => {
                        self.task = task;
                        match stage {
                            SendStage::Finished(result) => Step::Done(result),
                            _ => Step::Done(Err(CardError::CardInitErr)),
                        }
                    },
                }
            },
        }
    }
}

/// Begins the issue of a command; the first access reads the tick counter,
/// for the wait on the data line.
pub fn send_cmd(cmd: Command) -> (begun: (SendCmd, Access))
    ensures
        begun == (SendCmd::begun(cmd), Access::ReadTick),
{
    let (task, access) = Activity::Wait(Wait::DataLine).begin();
    (SendCmd { cmd, stage: SendStage::DataLine, task }, access)
}


/// The engine after it was begun on `cmd` and has taken `replies`, in order.
pub open spec fn engine_after(cmd: Command, replies: Seq<u64>) -> SendCmd
    decreases replies.len(),
{
    if replies.len() == 0 {
        SendCmd::begun(cmd)
    } else {
        engine_after(cmd, replies.drop_last()).next(replies.last()).0
    }
}

/// The steps that the engine has handed out by then: the first access, and
/// one step for each reply. The reply at index `i` answers the step at
/// index `i`.
pub open spec fn steps_after(cmd: Command, replies: Seq<u64>) -> Seq<
    Step<Result<Response, CardError>>,
>
    decreases replies.len(),
{
    if replies.len() == 0 {
        seq![Step::Do(Access::ReadTick)]
    } else {
        steps_after(cmd, replies.drop_last()).push(
            engine_after(cmd, replies.drop_last()).next(replies.last()).1,
        )
    }
}

/// Whether a step writes the command register, that is, issues a command.
pub open spec fn is_issue(step: Step<Result<Response, CardError>>) -> bool {
    step matches Step::Do(Access::WriteReg(reg, _)) && reg == REG_CMD
}

/// Number of times that the engine has issued the command.
pub open spec fn issues(cmd: Command, replies: Seq<u64>) -> nat
    decreases replies.len(),
{
    if replies.len() == 0 {
        0
    } else {
        issues(cmd, replies.drop_last()) + if is_issue(steps_after(cmd, replies).last()) {
            1nat
        } else {
            0nat
        }
    }
}

/// Number of times that the controller has rejected the write of the
/// command word: the replies to the read of the interrupt status after an
/// issue that show the hardware locked error.
pub open spec fn rejections(cmd: Command, replies: Seq<u64>) -> nat
    decreases replies.len(),
{
    if replies.len() == 0 {
        0
    } else {
        rejections(cmd, replies.drop_last()) + if engine_after(cmd, replies.drop_last()).stage
            is IssueStatus && any_set(word_of(replies.last()), INT_HLE) {
            1nat
        } else {
            0nat
        }
    }
}

/// Whether a register is one of the four response registers.
pub open spec fn is_response_register(reg: u32) -> bool {
    reg == REG_RESP0 || reg == REG_RESP1 || reg == REG_RESP2 || reg == REG_RESP3
}

/// The reads of response registers that have been answered, in order, each
/// with the word that it read.
pub open spec fn response_reads(cmd: Command, replies: Seq<u64>) -> Seq<(u32, u32)>
    decreases replies.len(),
{
    if replies.len() == 0 {
        Seq::empty()
    } else {
        let before = response_reads(cmd, replies.drop_last());
        match steps_after(cmd, replies.drop_last()).last() {
            Step::Do(Access::ReadReg(reg)) => if is_response_register(reg) {
                before.push((reg, word_of(replies.last())))
            } else {
                before
            },
            _ => before,
        }
    }
}

/// The reads that make up a response: none for no response, RESP0 for a
/// short one, RESP0 to RESP3 in this order for a long one, whose words are
/// kept in the order in which they were read.
pub open spec fn reads_of(response: Response) -> Seq<(u32, u32)> {
    match response {
        Response::Rz => Seq::empty(),
        Response::R48(w0) => seq![(REG_RESP0, w0)],
        Response::R136((w0, w1, w2, w3)) => seq![
            (REG_RESP0, w0),
            (REG_RESP1, w1),
            (REG_RESP2, w2),
            (REG_RESP3, w3),
        ],
    }
}

/// Whether a response has the shape that the command asks for.
pub open spec fn shaped_for(cmd: Command, response: Response) -> bool {
    match response {
        Response::Rz => !cmd.expects_response(),
        Response::R48(_) => cmd.expects_response() && !cmd.expects_long_response(),
        Response::R136(_) => cmd.expects_long_response(),
    }
}

impl SendStage {
    /// Whether the command word has been written in the current attempt.
    pub open spec fn issued(self) -> bool {
        match self {
            SendStage::DataLine | SendStage::CmdLine | SendStage::ClearInts | SendStage::Arg =>
                false,
            SendStage::Finished(Err(CardError::TimeoutErr(Timeout::WaitDataLine)))
            | SendStage::Finished(Err(CardError::TimeoutErr(Timeout::WaitCmdLine))) => false,
            _ => true,
        }
    }

    /// The response that the stage holds, once it is complete.
    pub open spec fn response(self) -> Option<Response> {
        match self {
            SendStage::FifoReset(r)
            | SendStage::FifoWait(r)
            | SendStage::BlockSize(r)
            | SendStage::ByteCount(r)
            | SendStage::Finished(Ok(r)) => Some(r),
            _ => None,
        }
    }

    /// The words of the response that the stage holds while it reads them.
    pub open spec fn words_read(self) -> Seq<(u32, u32)> {
        match self {
            SendStage::Resp1(w0) => seq![(REG_RESP0, w0)],
            SendStage::Resp2(w0, w1) => seq![(REG_RESP0, w0), (REG_RESP1, w1)],
            SendStage::Resp3(w0, w1, w2) => seq![(REG_RESP0, w0), (REG_RESP1, w1), (REG_RESP2, w2)],
            _ => Seq::empty(),
        }
    }
}

impl SendCmd {
    /// The activity in progress is the one of the stage.
    pub open spec fn wf(self) -> bool {
        match self.stage.activity(self.cmd) {
            Some(Activity::Io(access)) => self.task == Task::Io(access),
            Some(Activity::Wait(wait)) => self.task matches Task::Wait(poll) && poll.wait == wait,
            Some(Activity::Pause(_)) => false,
            None => true,
        }
    }
}

/// However the replies fall, the engine stays with its command, its
/// activity is that of its stage, and the last step that it handed out is
/// the access that it holds as pending, or its result.
pub proof fn lemma_engine_wf(cmd: Command, replies: Seq<u64>)
    ensures
        engine_after(cmd, replies).cmd == cmd,
        engine_after(cmd, replies).wf(),
        steps_after(cmd, replies).len() == replies.len() + 1,
        engine_after(cmd, replies).pending() matches Some(access) ==> steps_after(
            cmd,
            replies,
        ).last() == Step::<Result<Response, CardError>>::Do(access),
        engine_after(cmd, replies).result() matches Some(result) ==> steps_after(
            cmd,
            replies,
        ).last() == Step::Done(result),
    decreases replies.len(),
{
    if replies.len() > 0 {
        lemma_engine_wf(cmd, replies.drop_last());
    }
}

/// A prefix of the replies yields a prefix of the steps.
pub proof fn lemma_steps_prefix(cmd: Command, replies: Seq<u64>, i: int)
    requires
        0 <= i <= replies.len(),
    ensures
        steps_after(cmd, replies).len() == replies.len() + 1,
        steps_after(cmd, replies)[i] == steps_after(cmd, replies.take(i)).last(),
    decreases replies.len(),
{
    lemma_engine_wf(cmd, replies);
    lemma_engine_wf(cmd, replies.take(i));
    if i < replies.len() {
        lemma_steps_prefix(cmd, replies.drop_last(), i);
        assert(replies.drop_last().take(i) == replies.take(i));
    } else {
        assert(replies.take(i) == replies);
    }
}

/// A rejected write of the command word sends the engine back to where it
/// began: it takes up the wait for the data line again.
pub proof fn lemma_rejected_issue_restarts(engine: SendCmd, reply: u64)
    requires
        engine.stage is IssueStatus,
        engine.wf(),
        any_set(word_of(reply), INT_HLE),
    ensures
        engine.next(reply) == (SendCmd::begun(engine.cmd), Step::<
            Result<Response, CardError>,
        >::Do(Access::ReadTick)),
{
}

/// Every issue comes in order. Whenever the engine writes the command
/// register, it writes the command word of its command there, the step
/// before wrote the argument to CMDARG, and the step before that cleared
/// every pending interrupt.
pub proof fn lemma_issue_order(cmd: Command, replies: Seq<u64>, i: int)
    requires
        0 <= i <= replies.len(),
        is_issue(steps_after(cmd, replies)[i]),
    ensures
        i >= 2,
        steps_after(cmd, replies)[i] == Step::<Result<Response, CardError>>::Do(
            Access::WriteReg(REG_CMD, cmd.cmd_word()),
        ),
        steps_after(cmd, replies)[i - 1] == Step::<Result<Response, CardError>>::Do(
            Access::WriteReg(REG_CMDARG, cmd.arg),
        ),
        steps_after(cmd, replies)[i - 2] == Step::<Result<Response, CardError>>::Do(
            Access::WriteReg(REG_RINTSTS, INT_ALL),
        ),
{
    let prefix = replies.take(i);
    lemma_steps_prefix(cmd, replies, i);
    lemma_issue_trail(cmd, prefix);
    lemma_engine_wf(cmd, prefix);
    if i >= 1 {
        lemma_steps_prefix(cmd, replies, i - 1);
        lemma_steps_prefix(cmd, prefix, i - 1);
        assert(prefix.take(i - 1) == replies.take(i - 1));
    }
    if i >= 2 {
        lemma_steps_prefix(cmd, replies, i - 2);
        lemma_steps_prefix(cmd, prefix, i - 2);
        assert(prefix.take(i - 2) == replies.take(i - 2));
    }
}

/// What lies behind the engine while it programs a command: the clearing of
/// the interrupts behind the write of the argument, and both behind the
/// write of the command word.
proof fn lemma_issue_trail(cmd: Command, replies: Seq<u64>)
    ensures
        engine_after(cmd, replies).stage is Arg ==> replies.len() >= 1 && steps_after(
            cmd,
            replies,
        )[replies.len() - 1] == Step::<Result<Response, CardError>>::Do(
            Access::WriteReg(REG_RINTSTS, INT_ALL),
        ),
        engine_after(cmd, replies).stage is Issue ==> replies.len() >= 2 && steps_after(
            cmd,
            replies,
        )[replies.len() - 1] == Step::<Result<Response, CardError>>::Do(
            Access::WriteReg(REG_CMDARG, cmd.arg),
        ) && steps_after(cmd, replies)[replies.len() - 2] == Step::<
            Result<Response, CardError>,
        >::Do(Access::WriteReg(REG_RINTSTS, INT_ALL)),
        is_issue(steps_after(cmd, replies).last()) ==> engine_after(cmd, replies).stage is Issue,
    decreases replies.len(),
{
    lemma_engine_wf(cmd, replies);
    if replies.len() > 0 {
        lemma_issue_trail(cmd, replies.drop_last());
        lemma_engine_wf(cmd, replies.drop_last());
    }
}

/// The engine issues the command once, and once more for each rejection:
/// at every moment the number of issues is the number of rejections, plus
/// one where the command word has been written in the current attempt.
pub proof fn lemma_issue_count(cmd: Command, replies: Seq<u64>)
    ensures
        issues(cmd, replies) == rejections(cmd, replies) + if engine_after(
            cmd,
            replies,
        ).stage.issued() {
            1nat
        } else {
            0nat
        },
    decreases replies.len(),
{
    lemma_engine_wf(cmd, replies);
    if replies.len() > 0 {
        lemma_issue_count(cmd, replies.drop_last());
        lemma_engine_wf(cmd, replies.drop_last());
    }
}

/// The hardware locked error is retried, never reported. Whatever the
/// engine ends with, it is not that error: an interrupt error is a response
/// timeout or a response error, a timeout is none of the reserved kind.
/// And where the engine ends with a response, it has issued the command
/// exactly once more often than the controller rejected it.
pub proof fn lemma_retry_on_hardware_lock(cmd: Command, replies: Seq<u64>)
    ensures
        engine_after(cmd, replies).result() matches Some(Err(CardError::InterruptErr(e))) ==> e
            == Interrupt::ResponseTimeout || e == Interrupt::ResponseErr,
        engine_after(cmd, replies).result() matches Some(Err(e)) ==> e is InterruptErr || e
            is TimeoutErr,
        engine_after(cmd, replies).result() matches Some(Err(CardError::TimeoutErr(t))) ==> t
            != Timeout::FifoStatus,
        engine_after(cmd, replies).result() matches Some(Ok(_)) ==> issues(cmd, replies)
            == rejections(cmd, replies) + 1,
    decreases replies.len(),
{
    lemma_engine_wf(cmd, replies);
    lemma_issue_count(cmd, replies);
    if replies.len() > 0 {
        lemma_retry_on_hardware_lock(cmd, replies.drop_last());
        lemma_engine_wf(cmd, replies.drop_last());
    }
}

/// The response is what was read, and no more was read than the response.
/// Where the engine ends with a response, the response has the shape that
/// the command asks for, and the reads of response registers of the whole
/// run are exactly those that make it up: none for a command without
/// response, RESP0 for a short response, RESP0 to RESP3 in this order for a
/// long one, which holds the four words in the order of their registers.
pub proof fn lemma_response_reads(cmd: Command, replies: Seq<u64>)
    ensures
        engine_after(cmd, replies).result() matches Some(Ok(response)) ==> shaped_for(
            cmd,
            response,
        ) && response_reads(cmd, replies) == reads_of(response),
{
    lemma_response_trail(cmd, replies);
}

/// What the engine has read of the response at each stage.
proof fn lemma_response_trail(cmd: Command, replies: Seq<u64>)
    ensures
        match engine_after(cmd, replies).stage.response() {
            Some(response) => shaped_for(cmd, response) && response_reads(cmd, replies)
                == reads_of(response),
            None => engine_after(cmd, replies).stage is Finished || (response_reads(cmd, replies)
                == engine_after(cmd, replies).stage.words_read() && (engine_after(
                cmd,
                replies,
            ).stage.words_read().len() > 0 ==> cmd.expects_long_response())),
        },
        engine_after(cmd, replies).stage is Resp0 ==> cmd.expects_response(),
    decreases replies.len(),
{
    lemma_engine_wf(cmd, replies);
    if replies.len() > 0 {
        lemma_response_trail(cmd, replies.drop_last());
        lemma_engine_wf(cmd, replies.drop_last());
        let before = engine_after(cmd, replies.drop_last());
        let reads = response_reads(cmd, replies.drop_last());
        let w = word_of(replies.last());
        assert(Seq::<(u32, u32)>::empty().push((REG_RESP0, w)) =~= seq![(REG_RESP0, w)]);
        match before.stage {
            SendStage::Resp1(w0) => {
                assert(seq![(REG_RESP0, w0)].push((REG_RESP1, w)) =~= seq![
                    (REG_RESP0, w0),
                    (REG_RESP1, w),
                ]);
            },
            SendStage::Resp2(w0, w1) => {
                assert(seq![(REG_RESP0, w0), (REG_RESP1, w1)].push((REG_RESP2, w)) =~= seq![
                    (REG_RESP0, w0),
                    (REG_RESP1, w1),
                    (REG_RESP2, w),
                ]);
            },
            SendStage::Resp3(w0, w1, w2) => {
                assert(seq![(REG_RESP0, w0), (REG_RESP1, w1), (REG_RESP2, w2)].push(
                    (REG_RESP3, w),
                ) =~= seq![(REG_RESP0, w0), (REG_RESP1, w1), (REG_RESP2, w2), (REG_RESP3, w)]);
            },
            _ => {},
        }
    }
}

} // verus!
