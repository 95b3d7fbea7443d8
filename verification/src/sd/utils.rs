//! Bounded waits on the controller, and the three elementary activities
//! that every procedure of the driver is made of.

use vstd::prelude::*;
use crate::bus::{word, word_of, Access, Step};
use crate::timer::{delay, limit_after, ticks_in, Delay, Timer, MAX_MICROS};
use super::err::Timeout;
use super::reg::{
    any_set, CMD_START, INT_CMD, REG_CMD, REG_CTRL, REG_RINTSTS, REG_STATUS, STATUS_DATA_BUSY,
};

verus! {

/// Bound of the waits on the command line and on the command-done
/// interrupt, in microseconds: 255 ms.
pub const CMD_WAIT_MICROS: u64 = 255_000;

/// Bound of the wait on the data line, in microseconds: the default data
/// timeout taken as milliseconds.
pub const DATA_WAIT_MICROS: u64 = 4_294_967_040_000;

/// Bound of the wait on the reset bits, in microseconds: 10 ms.
pub const RESET_WAIT_MICROS: u64 = 10_000;

/// A condition of the controller that the driver waits for.
#[derive(Debug, Clone, Copy, PartialEq, Eq, Structural)]
pub enum Wait {
    /// The controller has taken the last command: the start bit of CMD is
    /// clear.
    CmdLine,
    /// The card has released the data line: the busy bit of STATUS is clear.
    DataLine,
    /// The command is done: the command-done bit of RINTSTS is set.
    CmdDone,
    /// The resets are over: these bits of CTRL are all clear.
    Reset(u32),
}

impl Wait {
    /// The register that shows the condition.
    pub open spec fn register(self) -> u32 {
        match self {
            Wait::CmdLine => REG_CMD,
            Wait::DataLine => REG_STATUS,
            Wait::CmdDone => REG_RINTSTS,
            Wait::Reset(_) => REG_CTRL,
        }
    }

    /// Whether a value of that register shows the condition.
    pub open spec fn met_by(self, value: u32) -> bool {
        match self {
            Wait::CmdLine => !any_set(value, CMD_START),
            Wait::DataLine => !any_set(value, STATUS_DATA_BUSY),
            Wait::CmdDone => any_set(value, INT_CMD),
            Wait::Reset(mask) => !any_set(value, mask),
        }
    }

    /// How long the driver waits for the condition, in microseconds.
    pub open spec fn bound(self) -> u64 {
        match self {
            Wait::CmdLine => CMD_WAIT_MICROS,
            Wait::DataLine => DATA_WAIT_MICROS,
            Wait::CmdDone => CMD_WAIT_MICROS,
            Wait::Reset(_) => RESET_WAIT_MICROS,
        }
    }

    /// The error when the wait runs out.
    pub open spec fn failure(self) -> Timeout {
        match self {
            Wait::CmdLine => Timeout::WaitCmdLine,
            Wait::DataLine => Timeout::WaitDataLine,
            Wait::CmdDone => Timeout::WaitCmdDone,
            Wait::Reset(_) => Timeout::WaitReset,
        }
    }

    /// The register to read.
    pub fn reg(&self) -> (r: u32)
        ensures
            r == self.register(),
    {
        match self {
            Wait::CmdLine => REG_CMD,
            Wait::DataLine => REG_STATUS,
            Wait::CmdDone => REG_RINTSTS,
            Wait::Reset(_) => REG_CTRL,
        }
    }

    /// Tests a value read from the register.
    pub fn met(&self, value: u32) -> (b: bool)
        ensures
            b == self.met_by(value),
    {
        match self {
            Wait::CmdLine => value & CMD_START == 0,
            Wait::DataLine => value & STATUS_DATA_BUSY == 0,
            Wait::CmdDone => value & INT_CMD != 0,
            Wait::Reset(mask) => value & *mask == 0,
        }
    }

    /// The bound of the wait, in microseconds.
    pub fn micros(&self) -> (us: u64)
        ensures
            us == self.bound(),
            us <= MAX_MICROS,
    {
        match self {
            Wait::CmdLine => CMD_WAIT_MICROS,
            Wait::DataLine => DATA_WAIT_MICROS,
            Wait::CmdDone => CMD_WAIT_MICROS,
            Wait::Reset(_) => RESET_WAIT_MICROS,
        }
    }

    /// The error of a wait that ran out.
    pub fn error(&self) -> (t: Timeout)
        ensures
            t == self.failure(),
    {
        match self {
            Wait::CmdLine => Timeout::WaitCmdLine,
            Wait::DataLine => Timeout::WaitDataLine,
            Wait::CmdDone => Timeout::WaitCmdDone,
            Wait::Reset(_) => Timeout::WaitReset,
        }
    }
}

/// Where a bounded wait stands: which reply it is waiting for.
#[derive(Debug, Clone, Copy)]
pub enum PollPhase {
    /// The reading of the tick counter that fixes the deadline.
    Arm,
    /// A reading of the tick counter, to be held against the deadline.
    Clock,
    /// A value of the register, to be tested for the condition.
    Probe,
    /// None: the wait is over, with this result.
    Finished(Result<(), Timeout>),
}

/// A bounded wait in progress.
#[derive(Debug, Clone, Copy)]
pub struct Poll {
    pub wait: Wait,
    pub phase: PollPhase,
    pub timer: Timer,
}

impl Poll {
    /// The access that is out: the one whose reply the wait takes next.
    pub open spec fn pending(self) -> Access {
        match self.phase {
            PollPhase::Arm => Access::ReadTick,
            PollPhase::Clock => Access::ReadTick,
            PollPhase::Probe => Access::ReadReg(self.wait.register()),
            PollPhase::Finished(_) => Access::ReadTick,
        }
    }

    /// The wait at another phase.
    pub open spec fn at(self, phase: PollPhase) -> Poll {
        Poll { wait: self.wait, phase, timer: self.timer }
    }

    /// The result, once the wait is over.
    pub open spec fn result(self) -> Option<Result<(), Timeout>> {
        match self.phase {
            PollPhase::Finished(result) => Some(result),
            _ => None,
        }
    }

    /// The wait as it is begun, before any reply.
    pub open spec fn begun(wait: Wait) -> Poll {
        Poll { wait, phase: PollPhase::Arm, timer: Timer { deadline: 0 } }
    }

    /// The wait after one more reply, and what follows. The first reading
    /// of the counter fixes the deadline. From then on the counter and the
    /// register are read in turn: a reading of the counter at or past the
    /// deadline ends the wait with its timeout, a value of the register
    /// that shows the condition ends it with success. A wait that is over
    /// stays so.
    pub open spec fn next(self, reply: u64) -> (Poll, Step<Result<(), Timeout>>) {
        match self.phase {
            PollPhase::Arm => (
                Poll {
                    wait: self.wait,
                    phase: PollPhase::Clock,
                    timer: Timer {
                        deadline: limit_after(reply, ticks_in(self.wait.bound()) as u64),
                    },
                },
                Step::Do(Access::ReadTick),
            ),
            PollPhase::Clock => if reply >= self.timer.deadline {
                (
                    self.at(PollPhase::Finished(Err(self.wait.failure()))),
                    Step::Done(Err(self.wait.failure())),
                )
            } else {
                (self.at(PollPhase::Probe), Step::Do(Access::ReadReg(self.wait.register())))
            },
            PollPhase::Probe => if self.wait.met_by(word_of(reply)) {
                (self.at(PollPhase::Finished(Ok(()))), Step::Done(Ok(())))
            } else {
                (self.at(PollPhase::Clock), Step::Do(Access::ReadTick))
            },
            PollPhase::Finished(result) => (self, Step::Done(result)),
        }
    }

    /// Takes the reply to the last access and says what to do next.
    pub fn resume(&mut self, reply: u64) -> (step: Step<Result<(), Timeout>>)
        ensures
            (*final(self), step) == old(self).next(reply),
    {
        match self.phase {
            PollPhase::Arm => {
                self.timer = Timer::start(reply, self.wait.micros());
                self.phase = PollPhase::Clock;
                Step::Do(Access::ReadTick)
            },
            PollPhase::Clock => {
                if self.timer.timeout(reply) {
                    let result = Err(self.wait.error());
                    self.phase = PollPhase::Finished(result);
                    Step::Done(result)
                } else {
                    self.phase = PollPhase::Probe;
                    Step::Do(Access::ReadReg(self.wait.reg()))
                }
            },
            PollPhase::Probe => {
                if self.wait.met(word(reply)) {
                    self.phase = PollPhase::Finished(Ok(()));
                    Step::Done(Ok(()))
                } else {
                    self.phase = PollPhase::Clock;
                    Step::Do(Access::ReadTick)
                }
            },
            PollPhase::Finished(result) => Step::Done(result),
        }
    }
}

/// Begins a bounded wait for a condition; its first access reads the tick
/// counter.
pub fn wait_for(wait: Wait) -> (begun: (Poll, Access))
    ensures
        begun == (Poll::begun(wait), Access::ReadTick),
{
    (Poll { wait, phase: PollPhase::Arm, timer: Timer { deadline: 0 } }, Access::ReadTick)
}

/// Begins the wait for the controller to take the last command.
pub fn wait_for_cmd_line() -> (begun: (Poll, Access))
    ensures
        begun == (Poll::begun(Wait::CmdLine), Access::ReadTick),
{
    wait_for(Wait::CmdLine)
}

/// Begins the wait for the card to release the data line.
pub fn wait_for_data_line() -> (begun: (Poll, Access))
    ensures
        begun == (Poll::begun(Wait::DataLine), Access::ReadTick),
{
    wait_for(Wait::DataLine)
}

/// Begins the wait for the command-done interrupt.
pub fn wait_for_cmd_done() -> (begun: (Poll, Access))
    ensures
        begun == (Poll::begun(Wait::CmdDone), Access::ReadTick),
{
    wait_for(Wait::CmdDone)
}

/// Begins the wait for the reset bits in `mask` to clear.
pub fn wait_reset(mask: u32) -> (begun: (Poll, Access))
    ensures
        begun == (Poll::begun(Wait::Reset(mask)), Access::ReadTick),
{
    wait_for(Wait::Reset(mask))
}

/// The number of bytes in the FIFO that a value of STATUS reports: the
/// thirteen bits from bit 17.
pub open spec fn fifo_count(status: u32) -> u32 {
    (status >> 17) & 0x1FFF
}

/// Takes the FIFO count out of a value of STATUS.
pub fn fifo_cnt(status: u32) -> (count: u32)
    ensures
        count == fifo_count(status),
{
    (status >> 17) & 0x1FFF
}

/// Something that a procedure does as one step of its sequence.
#[derive(Debug, Clone, Copy)]
pub enum Activity {
    /// One access.
    Io(Access),
    /// A bounded wait for a condition.
    Wait(Wait),
    /// A delay of this many microseconds.
    Pause(u64),
}

/// How an activity ended.
#[derive(Debug, Clone, Copy)]
pub enum Outcome {
    /// The access was performed; this is the reply to it.
    Value(u64),
    /// The wait ended, with the condition or with its timeout.
    Waited(Result<(), Timeout>),
    /// The delay is over.
    Paused,
}

impl Outcome {
    /// The timeout with which the activity ended, where it was a wait that
    /// ran out.
    pub open spec fn timeout(self) -> Option<Timeout> {
        match self {
            Outcome::Waited(Err(t)) => Some(t),
            _ => None,
        }
    }

    /// The register word that the activity read, where it was an access;
    /// zero where it was not.
    pub open spec fn word(self) -> u32 {
        match self {
            Outcome::Value(reply) => word_of(reply),
            _ => 0,
        }
    }

    /// The whole reply to an access; zero where the activity was none.
    pub open spec fn reading(self) -> u64 {
        match self {
            Outcome::Value(reply) => reply,
            _ => 0,
        }
    }

    /// The whole reply to an access.
    pub fn reply(&self) -> (r: u64)
        ensures
            r == self.reading(),
    {
        match self {
            Outcome::Value(reply) => *reply,
            _ => 0,
        }
    }

    /// The timeout of a wait that ran out.
    pub fn timed_out(&self) -> (t: Option<Timeout>)
        ensures
            t == self.timeout(),
    {
        match self {
            Outcome::Waited(Err(t)) => Some(*t),
            _ => None,
        }
    }

    /// The register word that an access read.
    pub fn value(&self) -> (w: u32)
        ensures
            w == self.word(),
    {
        match self {
            Outcome::Value(reply) => word(*reply),
            _ => 0,
        }
    }
}

/// An activity in progress.
#[derive(Debug, Clone, Copy)]
pub enum Task {
    /// This access is out.
    Io(Access),
    Wait(Poll),
    Pause(Delay),
}

impl Activity {
    /// A delay must be short enough for its tick count to be computed.
    pub open spec fn wf(self) -> bool {
        self matches Activity::Pause(micros) ==> micros <= MAX_MICROS
    }

    /// The activity as it is begun.
    pub open spec fn begun(self) -> Task {
        match self {
            Activity::Io(access) => Task::Io(access),
            Activity::Wait(wait) => Task::Wait(Poll::begun(wait)),
            Activity::Pause(micros) => Task::Pause(Delay::begun(micros)),
        }
    }

    /// Begins the activity, and hands out its first access.
    pub fn begin(self) -> (begun: (Task, Access))
        requires
            self.wf(),
        ensures
            begun == (self.begun(), self.begun().pending()),
    {
        match self {
            Activity::Io(access) => (Task::Io(access), access),
            Activity::Wait(wait) => {
                let (poll, access) = wait_for(wait);
                (Task::Wait(poll), access)
            },
            Activity::Pause(micros) => {
                let (pause, access) = delay(micros);
                (Task::Pause(pause), access)
            },
        }
    }
}

impl Task {
    /// The access that is out: the one whose reply the activity takes next.
    pub open spec fn pending(self) -> Access {
        match self {
            Task::Io(access) => access,
            Task::Wait(poll) => poll.pending(),
            Task::Pause(_) => Access::ReadTick,
        }
    }

    /// The activity after one more reply, and what follows: an access is
    /// over with its reply, a wait and a delay go on until they end.
    pub open spec fn next(self, reply: u64) -> (Task, Step<Outcome>) {
        match self {
            Task::Io(_) => (self, Step::Done(Outcome::Value(reply))),
            Task::Wait(poll) => match poll.next(reply).1 {
                Step::Do(access) => (Task::Wait(poll.next(reply).0), Step::Do(access)),
                Step::Done(result) => (
                    Task::Wait(poll.next(reply).0),
                    Step::Done(Outcome::Waited(result)),
                ),
            },
            Task::Pause(pause) => match pause.next(reply).1 {
                Step::Do(access) => (Task::Pause(pause.next(reply).0), Step::Do(access)),
                Step::Done(_) => (Task::Pause(pause.next(reply).0), Step::Done(Outcome::Paused)),
            },
        }
    }

    /// Takes the reply to the last access and says what to do next.
    pub fn resume(&mut self, reply: u64) -> (step: Step<Outcome>)
        ensures
            (*final(self), step) == old(self).next(reply),
    {
        match *self {
            Task::Io(_) => Step::Done(Outcome::Value(reply)),
            Task::Wait(poll) => {
                let mut poll = poll;
                let step = poll.resume(reply);
                *self = Task::Wait(poll);
                match step {
                    Step::Do(access) => Step::Do(access),
                    Step::Done(result) => Step::Done(Outcome::Waited(result)),
                }
            },
            Task::Pause(pause) => {
                let mut pause = pause;
                let step = pause.resume(reply);
                *self = Task::Pause(pause);
                match step {
                    Step::Do(access) => Step::Do(access),
                    Step::Done(_) => Step::Done(Outcome::Paused),
                }
            },
        }
    }
}

/// While an activity goes on, the access that it hands out is the one that
/// it then holds as pending.
pub proof fn lemma_task_hands_out_pending(task: Task, reply: u64)
    ensures
        task.next(reply).1 matches Step::Do(access) ==> access == task.next(reply).0.pending(),
{
}


/// The wait for a condition after it was begun and has taken `replies`, in
/// order.
pub open spec fn poll_after(wait: Wait, replies: Seq<u64>) -> Poll
    decreases replies.len(),
{
    if replies.len() == 0 {
        Poll::begun(wait)
    } else {
        poll_after(wait, replies.drop_last()).next(replies.last()).0
    }
}

/// Whether the wait took the replies before index `n` without an end: each
/// reading of the counter, at an odd index, was before the deadline, and
/// each value of the register, at an even index from 2, did not show the
/// condition.
pub open spec fn went_on(wait: Wait, deadline: u64, replies: Seq<u64>, n: int) -> bool {
    forall|i: int|
        1 <= i < n ==> if i % 2 == 1 {
            (#[trigger] replies[i]) < deadline
        } else {
            !wait.met_by(word_of(replies[i]))
        }
}

/// A wait succeeds exactly when the condition shows before the deadline.
/// The first reading of the counter fixes the deadline: the bound of the
/// wait on from that reading. The wait ends with success on the first value
/// of the register that shows the condition, where every reading of the
/// counter before it was before the deadline; and with its timeout on the
/// first reading of the counter at or past the deadline, where no value of
/// the register before it showed the condition. Until one of the two it
/// goes on.
pub proof fn lemma_wait_ends(wait: Wait, replies: Seq<u64>)
    requires
        replies.len() >= 1,
    ensures
        ({
            let deadline = limit_after(replies[0], ticks_in(wait.bound()) as u64);
            let poll = poll_after(wait, replies);
            &&& poll.wait == wait
            &&& poll.timer.deadline == deadline
            &&& poll.phase is Clock ==> replies.len() % 2 == 1 && went_on(
                wait,
                deadline,
                replies,
                replies.len() as int,
            )
            &&& poll.phase is Probe ==> replies.len() % 2 == 0 && went_on(
                wait,
                deadline,
                replies,
                replies.len() as int,
            )
            &&& poll.result() matches Some(Ok(_)) ==> exists|n: int|
                2 <= n < replies.len() && n % 2 == 0 && went_on(wait, deadline, replies, n)
                    && wait.met_by(word_of(#[trigger] replies[n]))
            &&& poll.result() matches Some(Err(t)) ==> t == wait.failure() && exists|n: int|
                1 <= n < replies.len() && n % 2 == 1 && went_on(wait, deadline, replies, n)
                    && #[trigger] replies[n] >= deadline
            &&& !(poll.phase is Arm)
        }),
    decreases replies.len(),
{
    let deadline = limit_after(replies[0], ticks_in(wait.bound()) as u64);
    if replies.len() > 1 {
        let earlier = replies.drop_last();
        let last = replies.len() - 1;
        lemma_wait_ends(wait, earlier);
        assert(earlier[0] == replies[0]);
        let before = poll_after(wait, earlier);
        assert forall|n: int| 0 <= n <= last && went_on(wait, deadline, earlier, n) implies went_on(
            wait,
            deadline,
            replies,
            n,
        ) by {
            assert forall|i: int| 1 <= i < n implies if i % 2 == 1 {
                (#[trigger] replies[i]) < deadline
            } else {
                !wait.met_by(word_of(replies[i]))
            } by {
                assert(earlier[i] == replies[i]);
            }
        }
        match before.phase {
            PollPhase::Finished(Ok(_)) => {
                let n = choose|n: int|
                    2 <= n < earlier.len() && n % 2 == 0 && went_on(wait, deadline, earlier, n)
                        && wait.met_by(word_of(#[trigger] earlier[n]));
                assert(earlier[n] == replies[n]);
            },
            PollPhase::Finished(Err(_)) => {
                let n = choose|n: int|
                    1 <= n < earlier.len() && n % 2 == 1 && went_on(wait, deadline, earlier, n)
                        && #[trigger] earlier[n] >= deadline;
                assert(earlier[n] == replies[n]);
            },
            _ => {
                assert(went_on(wait, deadline, replies, last));
                if poll_after(wait, replies).result() is Some {
                    assert(replies[last] == replies.last());
                } else {
                    assert forall|i: int| 1 <= i < replies.len() implies if i % 2 == 1 {
                        (#[trigger] replies[i]) < deadline
                    } else {
                        !wait.met_by(word_of(replies[i]))
                    } by {
                        if i < last {
                            assert(earlier[i] == replies[i]);
                        }
                    }
                }
            },
        }
    } else {
        assert(poll_after(wait, replies.drop_last()) == Poll::begun(wait));
    }
}

} // verus!
