//! The SD host: register map, command descriptors, response decoders and the
//! procedures that drive the controller.

use vstd::prelude::*;
use crate::bus::{Access, Step};
use self::err::CardError;
use self::init::{init_card, InitCard};
use self::ops::{read_block, write_block, ReadBlock, WriteBlock};
use self::reg::REG_HCON;

pub mod cmd;
pub mod data;
pub mod err;
pub mod init;
pub mod ops;
pub mod reg;
pub mod sd_reg;
pub mod send;
pub mod utils;

verus! {

/// What the host is busy with.
#[derive(Debug, Clone, Copy)]
pub enum HostOp {
    /// Nothing: no procedure has been begun.
    Idle,
    Init(InitCard),
    Read(ReadBlock),
    Write(WriteBlock),
}

/// The host of one card: the card's relative address, the procedure in
/// progress, and the block that the procedure reads or writes.
#[derive(Debug, Clone, Copy)]
pub struct SdHost {
    pub rca: u16,
    pub op: HostOp,
    pub block: [u8; 512],
}

impl HostOp {
    /// The access that is out; none where no procedure is in progress.
    pub open spec fn pending(self) -> Option<Access> {
        match self {
            HostOp::Idle => None,
            HostOp::Init(sequencer) => sequencer.pending(),
            HostOp::Read(procedure) => procedure.pending(),
            HostOp::Write(procedure) => procedure.pending(),
        }
    }

    /// The procedure after one more reply, and what follows, where the
    /// host's block is `block`. With nothing begun there is nothing to do,
    /// and that is done.
    pub open spec fn next(self, reply: u64, block: Seq<u8>) -> (
        HostOp,
        Step<Result<(), CardError>>,
    ) {
        match self {
            HostOp::Idle => (HostOp::Idle, Step::Done(Ok(()))),
            HostOp::Init(sequencer) => (
                HostOp::Init(sequencer.next(reply).0),
                sequencer.next(reply).1,
            ),
            HostOp::Read(procedure) => (
                HostOp::Read(procedure.next(reply).0),
                procedure.next(reply).1,
            ),
            HostOp::Write(procedure) => (
                HostOp::Write(procedure.next(reply, block).0),
                procedure.next(reply, block).1,
            ),
        }
    }

    /// The host's block after one more reply: only the reading of a block
    /// stores.
    pub open spec fn stores(self, block: Seq<u8>, reply: u64) -> Seq<u8> {
        match self {
            HostOp::Read(procedure) => procedure.stores(block, reply),
            _ => block,
        }
    }

    /// The relative address that the procedure has learnt: the one that
    /// the card published during an initialization, once it has.
    pub open spec fn learnt(self) -> Option<u16> {
        match self {
            HostOp::Init(sequencer) => if sequencer.rca is Some {
                Some(sequencer.address())
            } else {
                None
            },
            _ => None,
        }
    }
}

impl SdHost {
    /// A host that has done nothing yet: the relative address is zero, and
    /// so is the block.
    pub fn new() -> (host: SdHost)
        ensures
            host.rca == 0,
            host.op is Idle,
            forall|i: int| 0 <= i < 512 ==> host.block@[i] == 0,
    {
        SdHost { rca: 0, op: HostOp::Idle, block: [0u8;512] }
    }

    /// Begins the initialization of the controller and the card, in place
    /// of whatever was in progress; the first access reads the hardware
    /// configuration register.
    pub fn init(&mut self) -> (first: Access)
        ensures
            final(self).op == HostOp::Init(InitCard::begun()),
            final(self).rca == old(self).rca,
            final(self).block == old(self).block,
            first == Access::ReadReg(REG_HCON),
    {
        let (sequencer, access) = init_card();
        self.op = HostOp::Init(sequencer);
        access
    }

    /// Begins the reading of the block at `addr` into the host's block, in
    /// place of whatever was in progress; the first access reads the tick
    /// counter.
    pub fn read_block(&mut self, addr: u32) -> (first: Access)
        ensures
            final(self).op == HostOp::Read(ReadBlock::begun(addr)),
            final(self).rca == old(self).rca,
            final(self).block == old(self).block,
            first == Access::ReadTick,
    {
        let (procedure, access) = read_block(addr);
        self.op = HostOp::Read(procedure);
        access
    }

    /// Takes `buf` as the host's block and begins the writing of it to the
    /// block at `addr`, in place of whatever was in progress; the first
    /// access reads the tick counter.
    pub fn write_block(&mut self, addr: u32, buf: &[u8; 512]) -> (first: Access)
        ensures
            final(self).op == HostOp::Write(WriteBlock::begun(addr)),
            final(self).rca == old(self).rca,
            final(self).block@ == buf@,
            first == Access::ReadTick,
    {
        let (procedure, access) = write_block(addr);
        self.op = HostOp::Write(procedure);
        self.block = *buf;
        access
    }

    /// Takes the reply to the last access and says what to do next: the
    /// next access, or how the procedure ended. A byte that the reply
    /// brought from the FIFO goes into the host's block, and the relative
    /// address that the card has published becomes the host's.
    pub fn resume(&mut self, reply: u64) -> (step: Step<Result<(), CardError>>)
        ensures
            (final(self).op, step) == old(self).op.next(reply, old(self).block@),
            final(self).block@ == old(self).op.stores(old(self).block@, reply),
            final(self).rca == match final(self).op.learnt() {
                Some(address) => address,
                None => old(self).rca,
            },
    {
        match self.op {
            HostOp::Idle => Step::Done(Ok(())),
            HostOp::Init(sequencer) => {
                let mut sequencer = sequencer;
                let step = sequencer.resume(reply);
                if sequencer.rca.is_some() {
                    self.rca = sequencer.rca_address();
                }
                self.op = HostOp::Init(sequencer);
                step
            },
            HostOp::Read(procedure) => {
                let mut procedure = procedure;
                let step = procedure.resume(reply, &mut self.block);
                self.op = HostOp::Read(procedure);
                step
            },
            HostOp::Write(procedure) => {
                let mut procedure = procedure;
                let step = procedure.resume(reply, &self.block);
                self.op = HostOp::Write(procedure);
                step
            },
        }
    }

    /// The relative address of the card; zero until an initialization has
    /// learnt it.
    pub fn rca(&self) -> (a: u16)
        ensures
            a == self.rca,
    {
        self.rca
    }

    /// The host's block: after a reading that ended with success, the
    /// block that was read.
    pub fn block(&self) -> (b: &[u8; 512])
        ensures
            b@ == self.block@,
    {
        &self.block
    }
}

} // verus!
