//! Command descriptors, the constructors of every command that the driver
//! sends, and the raw response that the command engine collects.

use vstd::prelude::*;
use super::reg::{
    any_set, CMD_CHECK_RESPONSE_CRC, CMD_DATA_EXPECTED, CMD_INDEX, CMD_RESPONSE_EXPECT,
    CMD_RESPONSE_LENGTH, CMD_SEND_INITIALIZATION, CMD_START, CMD_STOP_ABORT,
    CMD_UPDATE_CLOCK_ONLY, CMD_USE_HOLD_REG, CMD_WAIT_PRVDATA_COMPLETE, CMD_WRITE,
};
use super::sd_reg::{compose, CardStatus, Cic, Cid, Csd, Ocr, Rca};

verus! {

pub const ALL_SEND_CID: u32 = 2;

pub const SEND_RCA: u32 = 3;

pub const SWITCH_FUNCTION: u32 = 6;

pub const SELECT_CARD: u32 = 7;

pub const SEND_IF_COND: u32 = 8;

pub const SEND_CSD: u32 = 9;

pub const STOP_TRANSMISSION: u32 = 12;

pub const READ_SINGLE_BLOCK: u32 = 17;

pub const WRITE_SINGLE_BLOCK: u32 = 24;

pub const APP_CMD: u32 = 55;

pub const ACMD_SD_SEND_OP_COND: u32 = 41;

pub const ACMD_SET_BUS: u32 = 6;

/// The format of the response that a command asks for.
#[derive(Clone, Copy, Debug, PartialEq, Eq, Structural)]
pub enum ResponseType {
    /// No response.
    Non,
    R1,
    /// R1 with busy signalling on the data line.
    R1b,
    /// The one long response, 136 bits.
    R2,
    R3,
    R6,
    R7,
}

impl Default for ResponseType {
    fn default() -> (r: ResponseType)
        ensures
            r == ResponseType::Non,
    {
        ResponseType::Non
    }
}

/// A command, ready to be issued: the flags of the CMD register, the command
/// index, the argument, and the format of the response.
#[derive(Clone, Copy, Debug)]
pub struct Command {
    pub reg_flags: u32,
    pub index: u32,
    pub arg: u32,
    pub resp_ty: ResponseType,
}

/// CMD flags of a command that moves one block from the card.
pub open spec fn transfer_flags() -> u32 {
    CMD_START | CMD_USE_HOLD_REG | CMD_DATA_EXPECTED | CMD_WAIT_PRVDATA_COMPLETE
        | CMD_RESPONSE_EXPECT | CMD_CHECK_RESPONSE_CRC
}

/// CMD flags of a command without data and with a checked response.
pub open spec fn no_data_flags() -> u32 {
    CMD_START | CMD_USE_HOLD_REG | CMD_WAIT_PRVDATA_COMPLETE | CMD_RESPONSE_EXPECT
        | CMD_CHECK_RESPONSE_CRC
}

/// CMD flags of the go-idle command.
pub open spec fn idle_flags() -> u32 {
    CMD_SEND_INITIALIZATION | CMD_START | CMD_WAIT_PRVDATA_COMPLETE | CMD_USE_HOLD_REG
}

/// CMD flags of the clock-update command.
pub open spec fn up_clk_flags() -> u32 {
    CMD_UPDATE_CLOCK_ONLY | CMD_WAIT_PRVDATA_COMPLETE | CMD_START | CMD_USE_HOLD_REG
}

/// CMD flags of the stop-transmission command.
pub open spec fn stop_flags() -> u32 {
    CMD_START | CMD_USE_HOLD_REG | CMD_STOP_ABORT | CMD_RESPONSE_EXPECT
        | CMD_CHECK_RESPONSE_CRC
}

/// CMD flags of the operating-condition command, whose response carries no
/// CRC.
pub open spec fn op_cond_flags() -> u32 {
    CMD_START | CMD_USE_HOLD_REG | CMD_WAIT_PRVDATA_COMPLETE | CMD_RESPONSE_EXPECT
}

/// The argument of a command addressed to one card: its relative address in
/// the upper sixteen bits, zero below.
pub open spec fn rca_arg(rca: u16) -> u32 {
    (rca as u32) << 16
}

/// The argument of the operating-condition command: host capacity support
/// at bit 30, the 1.8 V request at bit 24, and the one voltage-window bit 20.
pub open spec fn op_cond_arg(host_high_capacity_support: bool, sr18: bool) -> u32 {
    (if host_high_capacity_support { 0x4000_0000u32 } else { 0u32 })
        | (if sr18 { 0x0100_0000u32 } else { 0u32 })
        | 0x0010_0000u32
}

impl Command {
    /// What a descriptor promises the command engine: the index fits its
    /// field and the flags leave that field alone; a response is expected
    /// exactly when the format is not `Non`, and it is long exactly when the
    /// format is `R2`; a command that expects data is no clock update.
    pub open spec fn wf(self) -> bool {
        &&& self.index <= 63
        &&& self.reg_flags & CMD_INDEX == 0
        &&& any_set(self.reg_flags, CMD_RESPONSE_EXPECT) <==> self.resp_ty != ResponseType::Non
        &&& any_set(self.reg_flags, CMD_RESPONSE_LENGTH) <==> self.resp_ty == ResponseType::R2
        &&& !(any_set(self.reg_flags, CMD_DATA_EXPECTED) && any_set(
            self.reg_flags,
            CMD_UPDATE_CLOCK_ONLY,
        ))
    }

    /// A command that moves one block: the transfer flags, and the write
    /// flag when the block goes to the card.
    pub fn transfer_cmd(index: u32, resp_ty: ResponseType, addr: u32, write_mode: bool) -> (cmd:
        Command)
        ensures
            cmd.index == index,
            cmd.arg == addr,
            cmd.resp_ty == resp_ty,
            cmd.reg_flags == if write_mode {
                transfer_flags() | CMD_WRITE
            } else {
                transfer_flags()
            },
    {
        let flags: u32 = CMD_START | CMD_USE_HOLD_REG | CMD_DATA_EXPECTED
            | CMD_WAIT_PRVDATA_COMPLETE | CMD_RESPONSE_EXPECT | CMD_CHECK_RESPONSE_CRC;
        Command {
            reg_flags: if write_mode {
                flags | CMD_WRITE
            } else {
                flags
            },
            index,
            arg: addr,
            resp_ty,
        }
    }

    /// A command without data whose response is checked.
    pub fn no_data_cmd_r48(index: u32, resp_ty: ResponseType, arg: u32) -> (cmd: Command)
        ensures
            cmd.index == index,
            cmd.arg == arg,
            cmd.resp_ty == resp_ty,
            cmd.reg_flags == no_data_flags(),
    {
        Command {
            reg_flags: CMD_START | CMD_USE_HOLD_REG | CMD_WAIT_PRVDATA_COMPLETE
                | CMD_RESPONSE_EXPECT | CMD_CHECK_RESPONSE_CRC,
            index,
            arg,
            resp_ty,
        }
    }

    /// The word written to the CMD register: the flags with the index in
    /// the low six bits.
    pub open spec fn cmd_word(self) -> u32 {
        self.reg_flags | self.index
    }

    /// Whether a data transfer follows the command.
    pub open spec fn expects_data(self) -> bool {
        any_set(self.reg_flags, CMD_DATA_EXPECTED)
    }

    /// Whether the engine reads a response.
    pub open spec fn expects_response(self) -> bool {
        self.resp_ty != ResponseType::Non
    }

    /// Whether the response is the long one.
    pub open spec fn expects_long_response(self) -> bool {
        self.resp_ty == ResponseType::R2
    }

    /// The word to write to the CMD register.
    pub fn to_cmd(&self) -> (w: u32)
        ensures
            w == self.cmd_word(),
    {
        self.reg_flags | self.index
    }

    /// The word to write to the CMDARG register.
    pub fn arg(&self) -> (a: u32)
        ensures
            a == self.arg,
    {
        self.arg
    }

    /// Whether a data transfer follows the command.
    pub fn data_exp(&self) -> (b: bool)
        ensures
            b == self.expects_data(),
    {
        self.reg_flags & CMD_DATA_EXPECTED != 0
    }

    /// Whether the command has a response.
    pub fn resp_exp(&self) -> (b: bool)
        ensures
            b == self.expects_response(),
    {
        self.resp_ty != ResponseType::Non
    }

    /// Whether the response is the long one.
    pub fn resp_lang(&self) -> (b: bool)
        ensures
            b == self.expects_long_response(),
    {
        self.resp_ty == ResponseType::R2
    }
}

/// The raw response that the command engine collected.
#[derive(Clone, Copy, Debug, PartialEq, Eq)]
pub enum Response {
    /// The command has no response.
    Rz,
    /// A 48-bit response: the word of RESP0.
    R48(u32),
    /// A 136-bit response: RESP0 to RESP3, least significant word first.
    R136((u32, u32, u32, u32)),
}

impl Response {
    /// The word of a short response; zero for another.
    pub open spec fn short(self) -> u32 {
        match self {
            Response::R48(r) => r,
            _ => 0,
        }
    }

    /// The four words of a long response; zeros for another.
    pub open spec fn long(self) -> (u32, u32, u32, u32) {
        match self {
            Response::R136(r) => r,
            _ => (0, 0, 0, 0),
        }
    }

    /// The four words of a long response.
    pub fn words(self) -> (w: (u32, u32, u32, u32))
        ensures
            w == self.long(),
    {
        match self {
            Response::R136(r) => r,
            _ => (0, 0, 0, 0),
        }
    }

    /// The response read as a card status; zero when it is not short.
    pub fn card_status(self) -> (s: CardStatus)
        ensures
            s@ == self.short(),
    {
        match self {
            Response::R48(r) => CardStatus::from(r),
            _ => CardStatus::default(),
        }
    }

    /// The response read as a CSD; zero when it is not long.
    pub fn csd(self) -> (c: Csd)
        ensures
            c@ == if self is R136 {
                compose(self.long())
            } else {
                0
            },
    {
        match self {
            Response::R136(r) => Csd::from(r),
            _ => Csd::default(),
        }
    }

    /// The response read as a CID; zero when it is not long.
    pub fn cid(self) -> (c: Cid)
        ensures
            c@ == if self is R136 {
                compose(self.long())
            } else {
                0
            },
    {
        match self {
            Response::R136(r) => Cid::from(r),
            _ => Cid::default(),
        }
    }

    /// The response read as an OCR; zero when it is not short.
    pub fn ocr(self) -> (o: Ocr)
        ensures
            o@ == self.short(),
    {
        match self {
            Response::R48(r) => Ocr::from(r),
            _ => Ocr::default(),
        }
    }

    /// The response read as a CIC; zero when it is not short.
    pub fn cic(self) -> (c: Cic)
        ensures
            c@ == self.short(),
    {
        match self {
            Response::R48(r) => Cic::from(r),
            _ => Cic::default(),
        }
    }

    /// The response read as an RCA; zero when it is not short.
    pub fn rca(self) -> (a: Rca)
        ensures
            a@ == self.short(),
    {
        match self {
            Response::R48(r) => Rca::from(r),
            _ => Rca::default(),
        }
    }
}

/// The descriptor that [`idle`] builds.
pub open spec fn idle_spec() -> Command {
    Command {
        reg_flags: idle_flags(),
        index: 0,
        arg: 0,
        resp_ty: ResponseType::Non,
    }
}

/// CMD0: back to the idle state, after the initialization sequence.
#[verifier::when_used_as_spec(idle_spec)]
pub fn idle() -> (cmd: Command)
    ensures
        cmd == idle_spec(),
        cmd.wf(),
{
    proof {
        lemma_flag_sets();
    }
    Command {
        reg_flags: CMD_SEND_INITIALIZATION | CMD_START | CMD_WAIT_PRVDATA_COMPLETE
            | CMD_USE_HOLD_REG,
        index: 0,
        arg: 0,
        resp_ty: ResponseType::Non,
    }
}

/// The descriptor that [`up_clk`] builds.
pub open spec fn up_clk_spec() -> Command {
    Command {
        reg_flags: up_clk_flags(),
        index: 0,
        arg: 0,
        resp_ty: ResponseType::Non,
    }
}

/// The clock-update command: makes the controller take over CLKDIV and
/// CLKENA; nothing is sent to the card.
#[verifier::when_used_as_spec(up_clk_spec)]
pub fn up_clk() -> (cmd: Command)
    ensures
        cmd == up_clk_spec(),
        cmd.wf(),
{
    proof {
        lemma_flag_sets();
    }
    Command {
        reg_flags: CMD_UPDATE_CLOCK_ONLY | CMD_WAIT_PRVDATA_COMPLETE | CMD_START
            | CMD_USE_HOLD_REG,
        index: 0,
        arg: 0,
        resp_ty: ResponseType::Non,
    }
}

/// The descriptor that [`stop_transmission`] builds.
pub open spec fn stop_transmission_spec() -> Command {
    Command {
        reg_flags: stop_flags(),
        index: STOP_TRANSMISSION,
        arg: 0,
        resp_ty: ResponseType::R1b,
    }
}

/// CMD12: stop transmission.
#[verifier::when_used_as_spec(stop_transmission_spec)]
pub fn stop_transmission() -> (cmd: Command)
    ensures
        cmd == stop_transmission_spec(),
        cmd.wf(),
{
    proof {
        lemma_flag_sets();
    }
    Command {
        reg_flags: CMD_START | CMD_USE_HOLD_REG | CMD_STOP_ABORT | CMD_RESPONSE_EXPECT
            | CMD_CHECK_RESPONSE_CRC,
        index: STOP_TRANSMISSION,
        arg: 0,
        resp_ty: ResponseType::R1b,
    }
}

/// The descriptor that [`all_send_cid`] builds.
pub open spec fn all_send_cid_spec() -> Command {
    Command {
        reg_flags: no_data_flags() | CMD_RESPONSE_LENGTH,
        index: ALL_SEND_CID,
        arg: 0,
        resp_ty: ResponseType::R2,
    }
}

/// CMD2: ask every card for its CID.
#[verifier::when_used_as_spec(all_send_cid_spec)]
pub fn all_send_cid() -> (cmd: Command)
    ensures
        cmd == all_send_cid_spec(),
        cmd.wf(),
{
    proof {
        lemma_flag_sets();
    }
    let mut cmd = Command::no_data_cmd_r48(ALL_SEND_CID, ResponseType::R2, 0);
    cmd.reg_flags = cmd.reg_flags | CMD_RESPONSE_LENGTH;
    cmd
}

/// The descriptor that [`switch_function`] builds.
pub open spec fn switch_function_spec(arg: u32) -> Command {
    Command {
        reg_flags: no_data_flags(),
        index: SWITCH_FUNCTION,
        arg,
        resp_ty: ResponseType::R1,
    }
}

/// CMD6: switch function.
#[verifier::when_used_as_spec(switch_function_spec)]
pub fn switch_function(arg: u32) -> (cmd: Command)
    ensures
        cmd == switch_function_spec(arg),
        cmd.wf(),
{
    proof {
        lemma_flag_sets();
    }
    Command::no_data_cmd_r48(SWITCH_FUNCTION, ResponseType::R1, arg)
}

/// The descriptor that [`select_card`] builds.
pub open spec fn select_card_spec(rca: u16) -> Command {
    Command {
        reg_flags: no_data_flags(),
        index: SELECT_CARD,
        arg: rca_arg(rca),
        resp_ty: ResponseType::R1b,
    }
}

/// CMD7: select the card with this relative address.
#[verifier::when_used_as_spec(select_card_spec)]
pub fn select_card(rca: u16) -> (cmd: Command)
    ensures
        cmd == select_card_spec(rca),
        cmd.wf(),
{
    proof {
        lemma_flag_sets();
    }
    let arg: u32 = (rca as u32) << 16;
    Command::no_data_cmd_r48(SELECT_CARD, ResponseType::R1b, arg)
}

/// The descriptor that [`send_csd`] builds.
pub open spec fn send_csd_spec(rca: u16) -> Command {
    Command {
        reg_flags: no_data_flags() | CMD_RESPONSE_LENGTH,
        index: SEND_CSD,
        arg: rca_arg(rca),
        resp_ty: ResponseType::R2,
    }
}

/// CMD9: ask the card with this relative address for its CSD.
#[verifier::when_used_as_spec(send_csd_spec)]
pub fn send_csd(rca: u16) -> (cmd: Command)
    ensures
        cmd == send_csd_spec(rca),
        cmd.wf(),
{
    proof {
        lemma_flag_sets();
    }
    let arg: u32 = (rca as u32) << 16;
    let mut cmd = Command::no_data_cmd_r48(SEND_CSD, ResponseType::R2, arg);
    cmd.reg_flags = cmd.reg_flags | CMD_RESPONSE_LENGTH;
    cmd
}

/// The descriptor that [`read_single_block`] builds.
pub open spec fn read_single_block_spec(addr: u32) -> Command {
    Command {
        reg_flags: transfer_flags(),
        index: READ_SINGLE_BLOCK,
        arg: addr,
        resp_ty: ResponseType::R1,
    }
}

/// CMD17: read the block at this address.
#[verifier::when_used_as_spec(read_single_block_spec)]
pub fn read_single_block(addr: u32) -> (cmd: Command)
    ensures
        cmd == read_single_block_spec(addr),
        cmd.wf(),
{
    proof {
        lemma_flag_sets();
    }
    Command::transfer_cmd(READ_SINGLE_BLOCK, ResponseType::R1, addr, false)
}

/// The descriptor that [`write_single_block`] builds.
pub open spec fn write_single_block_spec(addr: u32) -> Command {
    Command {
        reg_flags: transfer_flags() | CMD_WRITE,
        index: WRITE_SINGLE_BLOCK,
        arg: addr,
        resp_ty: ResponseType::R1,
    }
}

/// CMD24: write the block at this address.
#[verifier::when_used_as_spec(write_single_block_spec)]
pub fn write_single_block(addr: u32) -> (cmd: Command)
    ensures
        cmd == write_single_block_spec(addr),
        cmd.wf(),
{
    proof {
        lemma_flag_sets();
    }
    Command::transfer_cmd(WRITE_SINGLE_BLOCK, ResponseType::R1, addr, true)
}

/// The descriptor that [`app_cmd`] builds.
pub open spec fn app_cmd_spec(rca: u16) -> Command {
    Command {
        reg_flags: no_data_flags(),
        index: APP_CMD,
        arg: rca_arg(rca),
        resp_ty: ResponseType::R1,
    }
}

/// CMD55: the next command of the card with this relative address is an
/// application command.
#[verifier::when_used_as_spec(app_cmd_spec)]
pub fn app_cmd(rca: u16) -> (cmd: Command)
    ensures
        cmd == app_cmd_spec(rca),
        cmd.wf(),
{
    proof {
        lemma_flag_sets();
    }
    Command::no_data_cmd_r48(APP_CMD, ResponseType::R1, (rca as u32) << 16)
}

/// The descriptor that [`send_relative_address`] builds.
pub open spec fn send_relative_address_spec() -> Command {
    Command {
        reg_flags: no_data_flags(),
        index: SEND_RCA,
        arg: 0,
        resp_ty: ResponseType::R6,
    }
}

/// CMD3: ask the card to publish a relative address.
#[verifier::when_used_as_spec(send_relative_address_spec)]
pub fn send_relative_address() -> (cmd: Command)
    ensures
        cmd == send_relative_address_spec(),
        cmd.wf(),
{
    proof {
        lemma_flag_sets();
    }
    Command::no_data_cmd_r48(SEND_RCA, ResponseType::R6, 0)
}

/// The descriptor that [`send_if_cond`] builds.
pub open spec fn send_if_cond_spec(voltage: u32, checkpattern: u32) -> Command {
    Command {
        reg_flags: no_data_flags(),
        index: SEND_IF_COND,
        arg: (voltage << 8) | checkpattern,
        resp_ty: ResponseType::R7,
    }
}

/// CMD8: send the interface condition, the supply voltage above the check
/// pattern.
#[verifier::when_used_as_spec(send_if_cond_spec)]
pub fn send_if_cond(voltage: u32, checkpattern: u32) -> (cmd: Command)
    ensures
        cmd == send_if_cond_spec(voltage, checkpattern),
        cmd.wf(),
{
    proof {
        lemma_flag_sets();
    }
    let arg: u32 = (voltage << 8) | checkpattern;
    Command::no_data_cmd_r48(SEND_IF_COND, ResponseType::R7, arg)
}

/// The descriptor that [`set_bus_width`] builds.
pub open spec fn set_bus_width_spec(arg: u32) -> Command {
    Command {
        reg_flags: no_data_flags(),
        index: ACMD_SET_BUS,
        arg,
        resp_ty: ResponseType::R1,
    }
}

/// ACMD6: set the width of the data bus.
#[verifier::when_used_as_spec(set_bus_width_spec)]
pub fn set_bus_width(arg: u32) -> (cmd: Command)
    ensures
        cmd == set_bus_width_spec(arg),
        cmd.wf(),
{
    proof {
        lemma_flag_sets();
    }
    Command::no_data_cmd_r48(ACMD_SET_BUS, ResponseType::R1, arg)
}

/// The descriptor that [`sd_send_op_cond`] builds.
pub open spec fn sd_send_op_cond_spec(host_high_capacity_support: bool, sr18: bool) -> Command {
    Command {
        reg_flags: op_cond_flags(),
        index: ACMD_SD_SEND_OP_COND,
        arg: op_cond_arg(host_high_capacity_support, sr18),
        resp_ty: ResponseType::R3,
    }
}

/// ACMD41: send the host's operating conditions and ask for the card's.
#[verifier::when_used_as_spec(sd_send_op_cond_spec)]
pub fn sd_send_op_cond(host_high_capacity_support: bool, sr18: bool) -> (cmd:
    Command)
    ensures
        cmd == sd_send_op_cond_spec(host_high_capacity_support, sr18),
        cmd.wf(),
{
    proof {
        lemma_flag_sets();
    }
    let hcs: u32 = if host_high_capacity_support {
        0x4000_0000
    } else {
        0
    };
    let s18r: u32 = if sr18 {
        0x0100_0000
    } else {
        0
    };
    Command {
        reg_flags: CMD_START | CMD_USE_HOLD_REG | CMD_WAIT_PRVDATA_COMPLETE
            | CMD_RESPONSE_EXPECT,
        index: ACMD_SD_SEND_OP_COND,
        arg: hcs | s18r | 0x0010_0000,
        resp_ty: ResponseType::R3,
    }
}

/// Which of the bits that the command engine looks at each flag set holds:
/// none reaches into the index field, all but the two control sets expect a
/// response, only the set with the length flag expects a long one, and only
/// the transfer sets expect data.
pub proof fn lemma_flag_sets()
    by (bit_vector)
    ensures
        transfer_flags() & CMD_INDEX == 0,
        transfer_flags() & CMD_RESPONSE_EXPECT != 0,
        transfer_flags() & CMD_RESPONSE_LENGTH == 0,
        transfer_flags() & CMD_DATA_EXPECTED != 0,
        transfer_flags() & CMD_UPDATE_CLOCK_ONLY == 0,
        (transfer_flags() | CMD_WRITE) & CMD_INDEX == 0,
        (transfer_flags() | CMD_WRITE) & CMD_RESPONSE_EXPECT != 0,
        (transfer_flags() | CMD_WRITE) & CMD_RESPONSE_LENGTH == 0,
        (transfer_flags() | CMD_WRITE) & CMD_DATA_EXPECTED != 0,
        (transfer_flags() | CMD_WRITE) & CMD_UPDATE_CLOCK_ONLY == 0,
        no_data_flags() & CMD_INDEX == 0,
        no_data_flags() & CMD_RESPONSE_EXPECT != 0,
        no_data_flags() & CMD_RESPONSE_LENGTH == 0,
        no_data_flags() & CMD_DATA_EXPECTED == 0,
        (no_data_flags() | CMD_RESPONSE_LENGTH) & CMD_INDEX == 0,
        (no_data_flags() | CMD_RESPONSE_LENGTH) & CMD_RESPONSE_EXPECT != 0,
        (no_data_flags() | CMD_RESPONSE_LENGTH) & CMD_RESPONSE_LENGTH != 0,
        (no_data_flags() | CMD_RESPONSE_LENGTH) & CMD_DATA_EXPECTED == 0,
        idle_flags() & CMD_INDEX == 0,
        idle_flags() & CMD_RESPONSE_EXPECT == 0,
        idle_flags() & CMD_RESPONSE_LENGTH == 0,
        idle_flags() & CMD_DATA_EXPECTED == 0,
        up_clk_flags() & CMD_INDEX == 0,
        up_clk_flags() & CMD_RESPONSE_EXPECT == 0,
        up_clk_flags() & CMD_RESPONSE_LENGTH == 0,
        up_clk_flags() & CMD_DATA_EXPECTED == 0,
        stop_flags() & CMD_INDEX == 0,
        stop_flags() & CMD_RESPONSE_EXPECT != 0,
        stop_flags() & CMD_RESPONSE_LENGTH == 0,
        stop_flags() & CMD_DATA_EXPECTED == 0,
        op_cond_flags() & CMD_INDEX == 0,
        op_cond_flags() & CMD_RESPONSE_EXPECT != 0,
        op_cond_flags() & CMD_RESPONSE_LENGTH == 0,
        op_cond_flags() & CMD_DATA_EXPECTED == 0,
{
}

/// The relative address sits in the upper half of the argument and nowhere
/// else: the argument is the address times 65536.
pub proof fn lemma_rca_arg(rca: u16)
    by (bit_vector)
    ensures
        rca_arg(rca) == rca * 0x1_0000,
        rca_arg(rca) >> 16 == rca,
        rca_arg(rca) & 0xFFFF == 0,
{
}

} // verus!
