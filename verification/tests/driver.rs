use sdio_host::bus::{byte, word, Access, Step};
use sdio_host::sd::cmd::{
    all_send_cid, app_cmd, idle, read_single_block, select_card, send_if_cond,
    send_relative_address, Command, Response,
};
use sdio_host::sd::data::{read_data, write_data};
use sdio_host::sd::err::{CardError, Interrupt, Timeout};
use sdio_host::sd::init::init_card;
use sdio_host::sd::ops::{read_block, reset_clock, stop_transmission_ops, write_block};
use sdio_host::sd::send::send_cmd;
use sdio_host::sd::utils::{
    wait_for_cmd_done, wait_for_cmd_line, wait_for_data_line, wait_reset, Poll,
};
use sdio_host::sd::SdHost;
use sdio_host::timer::delay;

const REG_CTRL: u32 = 0x000;
const REG_PWREN: u32 = 0x004;
const REG_CLKDIV: u32 = 0x008;
const REG_CLKENA: u32 = 0x010;
const REG_TMOUT: u32 = 0x014;
const REG_CTYPE: u32 = 0x018;
const REG_BLKSIZ: u32 = 0x01C;
const REG_BYTCNT: u32 = 0x020;
const REG_INTMASK: u32 = 0x024;
const REG_CMDARG: u32 = 0x028;
const REG_CMD: u32 = 0x02C;
const REG_RESP0: u32 = 0x030;
const REG_RESP1: u32 = 0x034;
const REG_RESP2: u32 = 0x038;
const REG_RESP3: u32 = 0x03C;
const REG_RINTSTS: u32 = 0x044;
const REG_STATUS: u32 = 0x048;
const REG_HCON: u32 = 0x070;
const REG_BMOD: u32 = 0x080;

const START: u32 = 1 << 31;
const UPDATE_CLOCK: u32 = 1 << 21;

const EBE: u32 = 1 << 15;
const SBE: u32 = 1 << 13;
const HLE: u32 = 1 << 12;
const FRUN: u32 = 1 << 11;
const DRTO: u32 = 1 << 9;
const RTO: u32 = 1 << 8;
const DCRC: u32 = 1 << 7;
const RXDR: u32 = 1 << 5;
const TXDR: u32 = 1 << 4;
const DTO: u32 = 1 << 3;
const CMD_DONE: u32 = 1 << 2;
const RE: u32 = 1 << 1;

const TICKS_PER_MICRO: u64 = 4;
const WATCHDOG_TICKS: u64 = 0xFFFF_FF00 * TICKS_PER_MICRO;
const STEP_LIMIT: usize = 20_000_000;

/// A register-level model of the controller with one card behind it.
struct Mock {
    tick: u64,
    tick_step: u64,
    log: Vec<Access>,
    ctrl: u32,
    pwren: u32,
    clkdiv: u32,
    clkena: u32,
    tmout: u32,
    ctype: u32,
    blksiz: u32,
    bytcnt: u32,
    intmask: u32,
    cmdarg: u32,
    cmd: u32,
    resp: [u32; 4],
    rintsts: u32,
    bmod: u32,
    hcon: u32,
    /// Writes of the command word still to be rejected with HLE.
    reject_issues: u32,
    resets_stick: bool,
    start_sticks: bool,
    data_busy: bool,
    /// The controller never raises command done.
    silent: bool,
    /// Interrupt bits raised with the command of this index.
    fail_index: Option<(u32, u32)>,
    busy_polls: u32,
    cic: u32,
    ocr: u32,
    cid: [u32; 4],
    rca: u32,
    csd: [u32; 4],
    /// Word and argument of every command that the controller took.
    taken: Vec<(u32, u32)>,
    source: [u8; 512],
    fifo: Vec<u8>,
    /// A read or write command was taken and its data is still to come.
    pending_read: bool,
    pending_write: bool,
    /// The card never delivers or takes data.
    dead_data: bool,
    /// Interrupt bits raised after this many bytes have left the FIFO.
    fault_after: Option<(usize, u32)>,
    /// More bytes in the FIFO than a block has.
    surplus: usize,
    bytes_out: usize,
    sink: Vec<(usize, u8)>,
}

fn pattern() -> [u8; 512] {
    let mut block = [0u8; 512];
    for (i, b) in block.iter_mut().enumerate() {
        *b = i as u8;
    }
    block
}

impl Mock {
    fn new() -> Mock {
        Mock {
            tick: 0,
            tick_step: 1000,
            log: Vec::new(),
            ctrl: 0,
            pwren: 0,
            clkdiv: 0,
            clkena: 0,
            tmout: 0,
            ctype: 0,
            blksiz: 0,
            bytcnt: 0,
            intmask: 0xFFFF_FFFF,
            cmdarg: 0,
            cmd: 0,
            resp: [0; 4],
            rintsts: 0,
            bmod: 0,
            hcon: 0x00E4_2CC1,
            reject_issues: 0,
            resets_stick: false,
            start_sticks: false,
            data_busy: false,
            silent: false,
            fail_index: None,
            busy_polls: 2,
            cic: 0x0000_01AA,
            ocr: 0xC0FF_8000,
            // 03 "SD" "SD32G" 80 12345678 date crc
            cid: [0x7801_4A55, 0x8012_3456, 0x4433_3247, 0x0353_4453],
            rca: 0xAAAA_0000,
            // Version 1, READ_BL_LEN 9, C_SIZE 0x0E90.
            csd: [0, 0x0E90 << 16, 9 << 16, 1 << 30],
            taken: Vec::new(),
            source: pattern(),
            fifo: Vec::new(),
            pending_read: false,
            pending_write: false,
            dead_data: false,
            fault_after: None,
            surplus: 0,
            bytes_out: 0,
            sink: Vec::new(),
        }
    }

    fn perform(&mut self, access: Access) -> u64 {
        self.log.push(access);
        match access {
            Access::ReadTick => {
                self.tick += self.tick_step;
                self.tick
            }
            Access::ReadReg(reg) => self.read(reg) as u64,
            Access::WriteReg(reg, value) => {
                self.write(reg, value);
                0
            }
            Access::ReadFifo(_) => {
                let byte = if self.fifo.is_empty() { 0 } else { self.fifo.remove(0) };
                self.bytes_out += 1;
                if let Some((count, bits)) = self.fault_after {
                    if count == self.bytes_out {
                        // The transfer breaks off: nothing more arrives.
                        self.rintsts |= bits;
                        self.fifo.clear();
                    }
                }
                if self.bytes_out == 512 {
                    self.rintsts |= DTO;
                }
                byte as u64
            }
            Access::WriteFifo(offset, value) => {
                self.sink.push((offset, value));
                if self.sink.len() == 512 {
                    self.rintsts |= DTO;
                }
                0
            }
        }
    }

    fn read(&mut self, reg: u32) -> u32 {
        match reg {
            REG_CTRL => self.ctrl,
            REG_CMD => self.cmd,
            REG_RINTSTS => self.rintsts,
            REG_STATUS => {
                let count = if self.fifo.len() > 0x1FFF { 0x1FFF } else { self.fifo.len() as u32 };
                (count << 17) | if self.data_busy { 1 << 9 } else { 0 }
            }
            REG_RESP0 => self.resp[0],
            REG_RESP1 => self.resp[1],
            REG_RESP2 => self.resp[2],
            REG_RESP3 => self.resp[3],
            REG_HCON => self.hcon,
            _ => panic!("read of register {:#x}", reg),
        }
    }

    fn write(&mut self, reg: u32, value: u32) {
        match reg {
            REG_CTRL => {
                self.ctrl = if self.resets_stick { value } else { value & !7 };
                if value & 2 != 0 {
                    self.fifo.clear();
                }
            }
            REG_PWREN => self.pwren = value,
            REG_CLKDIV => self.clkdiv = value,
            REG_CLKENA => self.clkena = value,
            REG_TMOUT => self.tmout = value,
            REG_CTYPE => self.ctype = value,
            REG_BLKSIZ => self.blksiz = value,
            REG_BYTCNT => {
                self.bytcnt = value;
                self.start_data();
            }
            REG_INTMASK => self.intmask = value,
            REG_CMDARG => self.cmdarg = value,
            REG_CMD => self.issue(value),
            REG_RINTSTS => self.rintsts &= !value,
            REG_BMOD => self.bmod = value,
            _ => panic!("write of register {:#x}", reg),
        }
    }

    fn start_data(&mut self) {
        if self.dead_data {
            return;
        }
        if self.pending_read {
            self.pending_read = false;
            self.fifo = self.source.to_vec();
            for i in 0..self.surplus {
                self.fifo.push(0xEE ^ i as u8);
            }
            self.bytes_out = 0;
            self.rintsts |= RXDR;
        }
        if self.pending_write {
            self.pending_write = false;
            self.sink.clear();
            self.rintsts |= TXDR;
        }
    }

    fn issue(&mut self, value: u32) {
        if self.reject_issues > 0 {
            self.reject_issues -= 1;
            self.rintsts |= HLE;
            return;
        }
        self.cmd = if self.start_sticks { value } else { value & !START };
        self.taken.push((value, self.cmdarg));
        if value & UPDATE_CLOCK != 0 {
            return;
        }
        if !self.silent {
            self.rintsts |= CMD_DONE;
        }
        let index = value & 0x3F;
        if let Some((failing, bits)) = self.fail_index {
            if failing == index {
                self.rintsts |= bits;
            }
        }
        let transfer = 0x0000_0900;
        match index {
            0 => {}
            2 => self.resp = self.cid,
            3 => self.resp[0] = self.rca,
            6 | 7 | 12 => self.resp[0] = transfer,
            8 => self.resp[0] = self.cic,
            9 => self.resp = self.csd,
            17 => {
                self.resp[0] = transfer;
                self.pending_read = true;
            }
            24 => {
                self.resp[0] = transfer;
                self.pending_write = true;
            }
            41 => {
                if self.busy_polls > 0 {
                    self.busy_polls -= 1;
                    self.resp[0] = self.ocr & 0x7FFF_FFFF;
                } else {
                    self.resp[0] = self.ocr;
                }
            }
            55 => self.resp[0] = 0x0000_0120,
            _ => panic!("command {} is not modelled", index),
        }
    }

    /// The indices of the commands that went to the card, in order.
    fn indices(&self) -> Vec<u32> {
        self.taken.iter().filter(|(w, _)| w & UPDATE_CLOCK == 0).map(|(w, _)| w & 0x3F).collect()
    }

    /// How often the command register was written with this index, clock
    /// updates aside.
    fn writes_of(&self, index: u32) -> usize {
        self.log
            .iter()
            .filter(|a| match a {
                Access::WriteReg(REG_CMD, w) => w & UPDATE_CLOCK == 0 && w & 0x3F == index,
                _ => false,
            })
            .count()
    }

    fn writes(&self) -> Vec<(u32, u32)> {
        self.log
            .iter()
            .filter_map(|a| match a {
                Access::WriteReg(reg, value) => Some((*reg, *value)),
                _ => None,
            })
            .collect()
    }

    fn response_reads(&self) -> Vec<u32> {
        self.log
            .iter()
            .filter_map(|a| match a {
                Access::ReadReg(reg) if (REG_RESP0..=REG_RESP3).contains(reg) => Some(*reg),
                _ => None,
            })
            .collect()
    }
}

/// Every write of a command word that goes to the card stands right behind
/// the write of the argument, which stands right behind the clearing of the
/// interrupts.
fn assert_issue_order(log: &[Access]) {
    let mut issues = 0;
    for (i, access) in log.iter().enumerate() {
        if let Access::WriteReg(REG_CMD, w) = access {
            if w & UPDATE_CLOCK != 0 {
                continue;
            }
            issues += 1;
            assert!(i >= 2);
            assert!(matches!(log[i - 1], Access::WriteReg(REG_CMDARG, _)));
            assert_eq!(log[i - 2], Access::WriteReg(REG_RINTSTS, 0xFFFF_FFFF));
        }
    }
    assert!(issues > 0);
}

fn run_send(mock: &mut Mock, cmd: Command) -> Result<Response, CardError> {
    let (mut engine, mut access) = send_cmd(cmd);
    for _ in 0..STEP_LIMIT {
        let reply = mock.perform(access);
        match engine.resume(reply) {
            Step::Do(next) => access = next,
            Step::Done(result) => {
                // An engine that is over stays so.
                assert!(matches!(engine.resume(0), Step::Done(r) if r == result));
                return result;
            }
        }
    }
    panic!("the engine does not end");
}

fn run_poll(mock: &mut Mock, begun: (Poll, Access)) -> Result<(), Timeout> {
    let (mut poll, mut access) = begun;
    for _ in 0..STEP_LIMIT {
        let reply = mock.perform(access);
        match poll.resume(reply) {
            Step::Do(next) => access = next,
            Step::Done(result) => return result,
        }
    }
    panic!("the wait does not end");
}

fn run_host(mock: &mut Mock, host: &mut SdHost, first: Access) -> Result<(), CardError> {
    let mut access = first;
    for _ in 0..STEP_LIMIT {
        let reply = mock.perform(access);
        match host.resume(reply) {
            Step::Do(next) => access = next,
            Step::Done(result) => return result,
        }
    }
    panic!("the host does not end");
}

fn run_stop(mock: &mut Mock) -> Result<(), CardError> {
    let (mut recovery, mut access) = stop_transmission_ops();
    for _ in 0..STEP_LIMIT {
        let reply = mock.perform(access);
        match recovery.resume(reply) {
            Step::Do(next) => access = next,
            Step::Done(result) => {
                assert_eq!(recovery.status, 0x0000_0900);
                return result;
            }
        }
    }
    panic!("the recovery does not end");
}

fn run_clock(mock: &mut Mock, ena: u32, div: u32) -> Result<(), Timeout> {
    let (mut change, mut access) = reset_clock(ena, div);
    for _ in 0..STEP_LIMIT {
        let reply = mock.perform(access);
        match change.resume(reply) {
            Step::Do(next) => access = next,
            Step::Done(result) => return result,
        }
    }
    panic!("the clock change does not end");
}

fn run_read_data(mock: &mut Mock, buf: &mut [u8; 512]) -> Result<(), CardError> {
    let (mut engine, mut access) = read_data();
    for _ in 0..STEP_LIMIT {
        let reply = mock.perform(access);
        match engine.resume(reply, buf) {
            Step::Do(next) => access = next,
            Step::Done(result) => return result,
        }
    }
    panic!("the transfer does not end");
}

fn run_write_data(mock: &mut Mock, buf: &[u8; 512]) -> Result<(), CardError> {
    let (mut engine, mut access) = write_data();
    for _ in 0..STEP_LIMIT {
        let reply = mock.perform(access);
        match engine.resume(reply, buf) {
            Step::Do(next) => access = next,
            Step::Done(result) => return result,
        }
    }
    panic!("the transfer does not end");
}

fn ready_host(mock: &mut Mock) -> SdHost {
    let mut host = SdHost::new();
    let first = host.init();
    assert_eq!(run_host(mock, &mut host, first), Ok(()));
    mock.log.clear();
    mock.taken.clear();
    host
}

#[test]
fn reply_words_and_bytes() {
    assert_eq!(word(0x1_2345_6789), 0x2345_6789);
    assert_eq!(word(0xFFFF_FFFF), 0xFFFF_FFFF);
    assert_eq!(byte(0x1FF), 0xFF);
    assert_eq!(byte(0x3412), 0x12);
}

#[test]
fn delay_reads_the_counter_until_the_span_is_over() {
    let (mut pause, first) = delay(10);
    assert_eq!(first, Access::ReadTick);
    // The first reading fixes the limit: 40 ticks on.
    assert!(matches!(pause.resume(1000), Step::Do(Access::ReadTick)));
    assert_eq!(pause.limit, Some(1040));
    assert!(matches!(pause.resume(1001), Step::Do(Access::ReadTick)));
    assert!(matches!(pause.resume(1039), Step::Do(Access::ReadTick)));
    assert!(matches!(pause.resume(1040), Step::Done(())));
    assert!(pause.over);
    // A delay that is over stays so, whatever it is told.
    assert!(matches!(pause.resume(5000), Step::Done(())));
    assert!(matches!(pause.resume(0), Step::Done(())));
}

#[test]
fn delay_counts_readings() {
    let mut mock = Mock::new();
    mock.tick_step = 1;
    let (mut pause, mut access) = delay(10);
    loop {
        let reply = mock.perform(access);
        match pause.resume(reply) {
            Step::Do(next) => access = next,
            Step::Done(()) => break,
        }
    }
    // One reading to fix the limit, then one per tick of the span.
    assert_eq!(mock.log.len(), 41);
    assert_eq!(mock.tick, 41);
}

#[test]
fn wait_succeeds_on_the_first_good_value() {
    let mut mock = Mock::new();
    assert_eq!(run_poll(&mut mock, wait_for_cmd_line()), Ok(()));
    // The deadline reading, one reading to hold against it, one register value.
    assert_eq!(mock.log, vec![Access::ReadTick, Access::ReadTick, Access::ReadReg(REG_CMD)]);
}

#[test]
fn wait_for_cmd_line_times_out() {
    let mut mock = Mock::new();
    mock.cmd = START;
    let started = mock.tick;
    assert_eq!(run_poll(&mut mock, wait_for_cmd_line()), Err(Timeout::WaitCmdLine));
    // 255 ms at four ticks per microsecond, counted from the first reading.
    let first = started + mock.tick_step;
    assert!(mock.tick >= first + 1_020_000);
    assert!(mock.tick < first + 1_020_000 + mock.tick_step);
    // The last access was a reading of the counter, not of the register.
    assert_eq!(mock.log.last(), Some(&Access::ReadTick));
}

#[test]
fn wait_for_cmd_done_times_out() {
    let mut mock = Mock::new();
    assert_eq!(run_poll(&mut mock, wait_for_cmd_done()), Err(Timeout::WaitCmdDone));
    assert!(mock.log.contains(&Access::ReadReg(REG_RINTSTS)));
    mock.rintsts = CMD_DONE;
    assert_eq!(run_poll(&mut mock, wait_for_cmd_done()), Ok(()));
}

#[test]
fn wait_for_data_line_times_out() {
    let mut mock = Mock::new();
    mock.data_busy = true;
    mock.tick_step = 1 << 40;
    assert_eq!(run_poll(&mut mock, wait_for_data_line()), Err(Timeout::WaitDataLine));
    // The default data timeout taken as milliseconds.
    let ticks = 0xFFFF_FF00u64 * 1000 * TICKS_PER_MICRO;
    assert!(mock.tick >= mock.tick_step + ticks);
    assert!(mock.tick < 2 * mock.tick_step + ticks);
    assert!(mock.log.contains(&Access::ReadReg(REG_STATUS)));
}

#[test]
fn wait_reset_times_out() {
    let mut mock = Mock::new();
    mock.ctrl = 0x2;
    // Other bits of CTRL do not count.
    assert_eq!(run_poll(&mut mock, wait_reset(0x5)), Ok(()));
    assert_eq!(run_poll(&mut mock, wait_reset(0x2)), Err(Timeout::WaitReset));
    assert!(mock.log.contains(&Access::ReadReg(REG_CTRL)));
}

#[test]
fn wait_that_is_over_stays_over() {
    let (mut poll, _) = wait_for_cmd_line();
    assert!(matches!(poll.resume(10), Step::Do(Access::ReadTick)));
    assert_eq!(poll.timer.deadline, 10 + 1_020_000);
    assert!(matches!(poll.resume(11), Step::Do(Access::ReadReg(REG_CMD))));
    assert!(matches!(poll.resume(START as u64), Step::Do(Access::ReadTick)));
    assert!(matches!(poll.resume(1_020_010), Step::Done(Err(Timeout::WaitCmdLine))));
    assert!(matches!(poll.resume(0), Step::Done(Err(Timeout::WaitCmdLine))));
    let (mut poll, _) = wait_for_cmd_line();
    poll.resume(10);
    poll.resume(1_020_009);
    // Only the low word of a reply counts as the register's value.
    assert!(matches!(poll.resume(0xFFFF_FFFF_0000_0000), Step::Done(Ok(()))));
    assert!(matches!(poll.resume(START as u64), Step::Done(Ok(()))));
}

#[test]
fn wait_succeeds_late() {
    let mut mock = Mock::new();
    mock.cmd = START;
    let (mut poll, mut access) = wait_for_cmd_line();
    let mut probes = 0;
    let result = loop {
        if access == Access::ReadReg(REG_CMD) {
            probes += 1;
            if probes == 5 {
                mock.cmd = 0;
            }
        }
        let reply = mock.perform(access);
        match poll.resume(reply) {
            Step::Do(next) => access = next,
            Step::Done(result) => break result,
        }
    };
    assert_eq!(result, Ok(()));
    assert_eq!(probes, 5);
}

#[test]
fn send_short_response() {
    let mut mock = Mock::new();
    let result = run_send(&mut mock, send_if_cond(1, 0xAA));
    assert_eq!(result, Ok(Response::R48(0x1AA)));
    assert_eq!(mock.taken, vec![(send_if_cond(1, 0xAA).to_cmd(), 0x1AA)]);
    assert_eq!(mock.response_reads(), vec![REG_RESP0]);
    assert_eq!(
        mock.writes(),
        vec![
            (REG_RINTSTS, 0xFFFF_FFFF),
            (REG_CMDARG, 0x1AA),
            (REG_CMD, send_if_cond(1, 0xAA).to_cmd()),
        ]
    );
    assert_issue_order(&mock.log);
}

#[test]
fn send_long_response_is_least_significant_word_first() {
    let mut mock = Mock::new();
    mock.cid = [0x1111_0000, 0x2222_0001, 0x3333_0002, 0x4444_0003];
    let result = run_send(&mut mock, all_send_cid());
    assert_eq!(
        result,
        Ok(Response::R136((0x1111_0000, 0x2222_0001, 0x3333_0002, 0x4444_0003)))
    );
    assert_eq!(mock.response_reads(), vec![REG_RESP0, REG_RESP1, REG_RESP2, REG_RESP3]);
    assert_issue_order(&mock.log);
}

#[test]
fn send_without_response_reads_none() {
    let mut mock = Mock::new();
    assert_eq!(run_send(&mut mock, idle()), Ok(Response::Rz));
    assert_eq!(mock.response_reads(), Vec::<u32>::new());
    // Without a response the interrupt status is read once, after the issue.
    let status_reads = mock.log.iter().filter(|a| **a == Access::ReadReg(REG_RINTSTS)).count();
    // One after the issue, and those of the wait for command done.
    assert_eq!(status_reads, 2);
}

#[test]
fn send_each_short_format_reads_resp0_only() {
    for cmd in [send_if_cond(1, 0xAA), send_relative_address(), app_cmd(0), select_card(1)] {
        let mut mock = Mock::new();
        assert!(matches!(run_send(&mut mock, cmd), Ok(Response::R48(_))));
        assert_eq!(mock.response_reads(), vec![REG_RESP0]);
    }
}

#[test]
fn send_waits_for_data_line_then_command_line() {
    let mut mock = Mock::new();
    run_send(&mut mock, app_cmd(0)).unwrap();
    let status = mock.log.iter().position(|a| *a == Access::ReadReg(REG_STATUS)).unwrap();
    let line = mock.log.iter().position(|a| *a == Access::ReadReg(REG_CMD)).unwrap();
    let clear = mock.log.iter().position(|a| matches!(a, Access::WriteReg(_, _))).unwrap();
    assert!(status < line);
    assert!(line < clear);
}

#[test]
fn send_retries_after_hardware_lock() {
    let mut mock = Mock::new();
    mock.reject_issues = 1;
    let cmd = send_if_cond(1, 0xAA);
    assert_eq!(run_send(&mut mock, cmd), Ok(Response::R48(0x1AA)));
    // One issue more than rejections.
    assert_eq!(mock.writes_of(8), 2);
    assert_eq!(mock.taken.len(), 1);
    assert_issue_order(&mock.log);
    // The retry starts over: both waits come again before the second issue.
    let first_issue =
        mock.log.iter().position(|a| matches!(a, Access::WriteReg(REG_CMD, _))).unwrap();
    let rest = &mock.log[first_issue + 1..];
    assert_eq!(rest[0], Access::ReadReg(REG_RINTSTS));
    assert_eq!(rest[1], Access::ReadTick);
    assert!(rest.contains(&Access::ReadReg(REG_STATUS)));
    assert!(rest.contains(&Access::ReadReg(REG_CMD)));
}

#[test]
fn send_retries_as_often_as_it_is_rejected() {
    for rejections in [0u32, 1, 2, 7, 50] {
        let mut mock = Mock::new();
        mock.reject_issues = rejections;
        assert_eq!(run_send(&mut mock, app_cmd(0)), Ok(Response::R48(0x120)));
        assert_eq!(mock.writes_of(55), rejections as usize + 1);
        assert_issue_order(&mock.log);
    }
}

#[test]
fn send_response_timeout() {
    let mut mock = Mock::new();
    mock.fail_index = Some((8, RTO));
    assert_eq!(
        run_send(&mut mock, send_if_cond(1, 0xAA)),
        Err(CardError::InterruptErr(Interrupt::ResponseTimeout))
    );
    assert_eq!(mock.response_reads(), Vec::<u32>::new());
    // The status is written back, which clears what was pending.
    assert_eq!(mock.writes().last(), Some(&(REG_RINTSTS, RTO | CMD_DONE)));
    assert_eq!(mock.rintsts, 0);
}

#[test]
fn send_response_error() {
    let mut mock = Mock::new();
    mock.fail_index = Some((8, RE));
    assert_eq!(
        run_send(&mut mock, send_if_cond(1, 0xAA)),
        Err(CardError::InterruptErr(Interrupt::ResponseErr))
    );
    assert_eq!(mock.writes().last(), Some(&(REG_RINTSTS, RE | CMD_DONE)));
}

#[test]
fn send_response_timeout_goes_before_response_error() {
    let mut mock = Mock::new();
    mock.fail_index = Some((8, RE | RTO));
    assert_eq!(
        run_send(&mut mock, send_if_cond(1, 0xAA)),
        Err(CardError::InterruptErr(Interrupt::ResponseTimeout))
    );
}

#[test]
fn send_ignores_response_errors_without_response() {
    let mut mock = Mock::new();
    mock.fail_index = Some((0, RE | RTO));
    assert_eq!(run_send(&mut mock, idle()), Ok(Response::Rz));
}

#[test]
fn send_times_out_on_each_wait() {
    let mut mock = Mock::new();
    mock.data_busy = true;
    mock.tick_step = 1 << 40;
    assert_eq!(
        run_send(&mut mock, app_cmd(0)),
        Err(CardError::TimeoutErr(Timeout::WaitDataLine))
    );
    assert_eq!(mock.writes(), Vec::<(u32, u32)>::new());

    let mut mock = Mock::new();
    mock.cmd = START;
    assert_eq!(run_send(&mut mock, app_cmd(0)), Err(CardError::TimeoutErr(Timeout::WaitCmdLine)));
    assert_eq!(mock.writes(), Vec::<(u32, u32)>::new());

    let mut mock = Mock::new();
    mock.silent = true;
    assert_eq!(run_send(&mut mock, app_cmd(0)), Err(CardError::TimeoutErr(Timeout::WaitCmdDone)));
    assert_eq!(mock.writes_of(55), 1);

    let mut mock = Mock::new();
    mock.resets_stick = true;
    assert_eq!(
        run_send(&mut mock, read_single_block(0)),
        Err(CardError::TimeoutErr(Timeout::WaitReset))
    );
    assert_eq!(mock.blksiz, 0);
}

#[test]
fn send_prepares_the_fifo_for_data() {
    let mut mock = Mock::new();
    assert_eq!(run_send(&mut mock, read_single_block(7)), Ok(Response::R48(0x900)));
    assert_eq!(
        mock.writes(),
        vec![
            (REG_RINTSTS, 0xFFFF_FFFF),
            (REG_CMDARG, 7),
            (REG_CMD, read_single_block(7).to_cmd()),
            (REG_CTRL, 0x2),
            (REG_BLKSIZ, 512),
            (REG_BYTCNT, 512),
        ]
    );
    assert_eq!(mock.blksiz, 512);
    assert_eq!(mock.bytcnt, 512);
    // The reset was waited for.
    assert!(mock.log.contains(&Access::ReadReg(REG_CTRL)));
}

#[test]
fn clock_change_is_sandwiched_between_updates() {
    let mut mock = Mock::new();
    assert_eq!(run_clock(&mut mock, 1, 62), Ok(()));
    let update = 0xA020_2000;
    assert_eq!(
        mock.writes(),
        vec![
            (REG_CLKENA, 0),
            (REG_CLKDIV, 62),
            (REG_CMDARG, 0),
            (REG_CMD, update),
            (REG_CMD, update),
            (REG_CLKENA, 1),
            (REG_CMDARG, 0),
            (REG_CMD, update),
        ]
    );
    // Before each of the first three groups the command line was polled.
    let polls = mock.log.iter().filter(|a| **a == Access::ReadReg(REG_CMD)).count();
    assert_eq!(polls, 3);
    assert_eq!(mock.clkdiv, 62);
    assert_eq!(mock.clkena, 1);
}

#[test]
fn clock_change_that_leaves_the_clock_off() {
    let mut mock = Mock::new();
    assert_eq!(run_clock(&mut mock, 0, 5), Ok(()));
    assert_eq!(
        mock.writes(),
        vec![(REG_CLKENA, 0), (REG_CLKDIV, 5), (REG_CMDARG, 0), (REG_CMD, 0xA020_2000)]
    );
}

#[test]
fn clock_change_times_out() {
    let mut mock = Mock::new();
    mock.start_sticks = true;
    assert_eq!(run_clock(&mut mock, 1, 62), Err(Timeout::WaitCmdLine));
    // The first update went out, the second never did.
    assert_eq!(mock.taken.len(), 1);
}

#[test]
fn init_happy() {
    let mut mock = Mock::new();
    let mut host = SdHost::new();
    assert_eq!(host.rca(), 0);
    let first = host.init();
    assert_eq!(first, Access::ReadReg(REG_HCON));
    assert_eq!(run_host(&mut mock, &mut host, first), Ok(()));
    assert_eq!(host.rca(), 0xAAAA);
    // The third poll found the card powered up.
    assert_eq!(
        mock.indices(),
        vec![0, 8, 55, 41, 55, 41, 55, 41, 2, 3, 9, 7, 6, 55, 6]
    );
    let args: Vec<u32> =
        mock.taken.iter().filter(|(w, _)| w & UPDATE_CLOCK == 0).map(|(_, a)| *a).collect();
    assert_eq!(
        args,
        vec![
            0,
            0x1AA,
            0,
            0x4110_0000,
            0,
            0x4110_0000,
            0,
            0x4110_0000,
            0,
            0,
            0xAAAA_0000,
            0xAAAA_0000,
            0x00FF_FFF1,
            0xAAAA_0000,
            2
        ]
    );
    assert_eq!(mock.pwren, 1);
    assert_eq!(mock.tmout, 0xFFFF_FFFF);
    assert_eq!(mock.intmask, 0);
    assert_eq!(mock.ctype, 1);
    assert_eq!(mock.bmod, 1);
    assert_eq!(mock.clkdiv, 1);
    assert_eq!(mock.clkena, 1);
    assert_eq!(mock.ctrl, 0);
    assert_issue_order(&mock.log);
    // A host that is done stays done.
    assert!(matches!(host.resume(0), Step::Done(Ok(()))));
}

#[test]
fn init_register_writes_in_order() {
    let mut mock = Mock::new();
    let mut host = SdHost::new();
    let first = host.init();
    run_host(&mut mock, &mut host, first).unwrap();
    let update = 0xA020_2000;
    let writes = mock.writes();
    assert_eq!(
        writes[..16].to_vec(),
        vec![
            (REG_CTRL, 0x7),
            (REG_PWREN, 1),
            (REG_CLKENA, 0),
            (REG_CLKDIV, 62),
            (REG_CMDARG, 0),
            (REG_CMD, update),
            (REG_CMD, update),
            (REG_CLKENA, 1),
            (REG_CMDARG, 0),
            (REG_CMD, update),
            (REG_TMOUT, 0xFFFF_FFFF),
            (REG_RINTSTS, 0xFFFF_FFFF),
            (REG_INTMASK, 0),
            (REG_CTYPE, 1),
            (REG_BMOD, 1),
            (REG_RINTSTS, 0xFFFF_FFFF),
        ]
    );
    assert_eq!(
        writes[writes.len() - 8..].to_vec(),
        vec![
            (REG_CLKENA, 0),
            (REG_CLKDIV, 1),
            (REG_CMDARG, 0),
            (REG_CMD, update),
            (REG_CMD, update),
            (REG_CLKENA, 1),
            (REG_CMDARG, 0),
            (REG_CMD, update),
        ]
    );
    assert_eq!(mock.log[0], Access::ReadReg(REG_HCON));
    assert_eq!(mock.log[1], Access::WriteReg(REG_CTRL, 0x7));
}

#[test]
fn init_keeps_what_it_read() {
    let mut mock = Mock::new();
    let (mut sequencer, mut access) = init_card();
    let result = loop {
        let reply = mock.perform(access);
        match sequencer.resume(reply) {
            Step::Do(next) => access = next,
            Step::Done(result) => break result,
        }
    };
    assert_eq!(result, Ok(()));
    assert_eq!(sequencer.hcon, 0x00E4_2CC1);
    assert_eq!(sequencer.rca_address(), 0xAAAA);
    assert!(sequencer.ocr().high_capacity());
    assert!(!sequencer.ocr().is_busy());
    assert_eq!(sequencer.ocr().voltage_window_mv(), Some((2700, 3600)));
    assert_eq!(sequencer.cid().manufacturer_id(), 0x03);
    assert_eq!(sequencer.cid().oem_id(), "SD");
    assert_eq!(sequencer.cid().product_name(), "SD32G");
    assert_eq!(sequencer.csd().version(), 1);
    assert_eq!(sequencer.csd().block_count(), (0x0E90 + 1) * 1024);
}

#[test]
fn init_pauses_ten_milliseconds_after_each_command() {
    let mut mock = Mock::new();
    mock.tick_step = 100;
    let mut host = SdHost::new();
    let first = host.init();
    run_host(&mut mock, &mut host, first).unwrap();
    // Eleven pauses of 40000 ticks: behind CMD0, CMD8, each of the two busy
    // ACMD41, the last ACMD41, CMD2, CMD3, CMD9, CMD7, CMD6 and ACMD6. What
    // the commands themselves take is little beside them.
    assert!(mock.tick >= 11 * 40_000);
    assert!(mock.tick < 12 * 40_000);
}

#[test]
fn init_wrong_echo_pattern() {
    let mut mock = Mock::new();
    mock.cic = 0x0000_0155;
    let mut host = SdHost::new();
    let first = host.init();
    assert_eq!(run_host(&mut mock, &mut host, first), Err(CardError::VoltagePattern));
    assert_eq!(mock.indices(), vec![0, 8]);
    assert_eq!(host.rca(), 0);
}

#[test]
fn init_wrong_voltage() {
    let mut mock = Mock::new();
    mock.cic = 0x0000_02AA;
    let mut host = SdHost::new();
    let first = host.init();
    assert_eq!(run_host(&mut mock, &mut host, first), Err(CardError::VoltagePattern));
}

#[test]
fn init_tolerates_reserved_bits_in_the_echo() {
    let mut mock = Mock::new();
    mock.cic = 0xFFFF_F1AA;
    let mut host = SdHost::new();
    let first = host.init();
    assert_eq!(run_host(&mut mock, &mut host, first), Ok(()));
}

#[test]
fn init_reset_never_clears() {
    let mut mock = Mock::new();
    mock.resets_stick = true;
    let mut host = SdHost::new();
    let first = host.init();
    assert_eq!(
        run_host(&mut mock, &mut host, first),
        Err(CardError::TimeoutErr(Timeout::WaitReset))
    );
    assert_eq!(mock.writes(), vec![(REG_CTRL, 0x7)]);
}

#[test]
fn init_returns_the_first_error() {
    let mut mock = Mock::new();
    mock.fail_index = Some((3, RTO));
    let mut host = SdHost::new();
    let first = host.init();
    assert_eq!(
        run_host(&mut mock, &mut host, first),
        Err(CardError::InterruptErr(Interrupt::ResponseTimeout))
    );
    assert_eq!(mock.indices().last(), Some(&3));
    assert_eq!(host.rca(), 0);
}

#[test]
fn init_polls_until_the_card_is_powered() {
    for busy in [0u32, 1, 9] {
        let mut mock = Mock::new();
        mock.busy_polls = busy;
        let mut host = SdHost::new();
        let first = host.init();
        assert_eq!(run_host(&mut mock, &mut host, first), Ok(()));
        assert_eq!(mock.writes_of(41), busy as usize + 1);
        // Each ACMD41 has its CMD55, and one more goes before ACMD6.
        assert_eq!(mock.writes_of(55), busy as usize + 2);
    }
}

#[test]
fn init_survives_hardware_locks() {
    let mut mock = Mock::new();
    mock.reject_issues = 3;
    let mut host = SdHost::new();
    let first = host.init();
    assert_eq!(run_host(&mut mock, &mut host, first), Ok(()));
    assert_eq!(host.rca(), 0xAAAA);
}

#[test]
fn idle_host_has_nothing_to_do() {
    let mut host = SdHost::new();
    assert!(matches!(host.resume(0), Step::Done(Ok(()))));
    assert_eq!(host.block(), &[0u8; 512]);
}

#[test]
fn read_block_happy() {
    let mut mock = Mock::new();
    let mut host = ready_host(&mut mock);
    let first = host.read_block(0);
    assert_eq!(first, Access::ReadTick);
    assert_eq!(run_host(&mut mock, &mut host, first), Ok(()));
    assert_eq!(host.block(), &pattern());
    assert_eq!(mock.taken, vec![(read_single_block(0).to_cmd(), 0)]);
    assert_eq!(mock.writes_of(12), 0);
    // Every byte came from the place of its offset, in order.
    let offsets: Vec<usize> = mock
        .log
        .iter()
        .filter_map(|a| match a {
            Access::ReadFifo(offset) => Some(*offset),
            _ => None,
        })
        .collect();
    assert_eq!(offsets, (0..512).collect::<Vec<usize>>());
    // On the way out the pending interrupts were cleared.
    assert_eq!(mock.rintsts, 0);
    assert_eq!(host.rca(), 0xAAAA);
}

#[test]
fn read_block_address_is_the_argument() {
    let mut mock = Mock::new();
    let mut host = ready_host(&mut mock);
    let first = host.read_block(0x0012_3456);
    assert_eq!(run_host(&mut mock, &mut host, first), Ok(()));
    assert_eq!(mock.taken, vec![(read_single_block(0).to_cmd(), 0x0012_3456)]);
}

#[test]
fn read_block_with_crc_error_recovers() {
    let mut mock = Mock::new();
    let mut host = ready_host(&mut mock);
    mock.fault_after = Some((100, DCRC));
    let (mut procedure, mut access) = read_block(0);
    let mut buf = [0u8; 512];
    let result = loop {
        let reply = mock.perform(access);
        match procedure.resume(reply, &mut buf) {
            Step::Do(next) => access = next,
            Step::Done(result) => break result,
        }
    };
    // The result is that of the recovery; the failure is kept as its cause.
    assert_eq!(result, Ok(()));
    assert_eq!(procedure.cause, Some(CardError::InterruptErr(Interrupt::DataCrc)));
    assert_eq!(mock.writes_of(12), 1);
    assert_eq!(mock.indices(), vec![17, 12]);
    assert_issue_order(&mock.log);

    // The same through the host.
    let mut mock = Mock::new();
    let mut host2 = ready_host(&mut mock);
    mock.fault_after = Some((100, DCRC));
    let first = host2.read_block(0);
    assert_eq!(run_host(&mut mock, &mut host2, first), Ok(()));
    assert_eq!(mock.writes_of(12), 1);
    let _ = host.rca();
}

#[test]
fn read_block_command_error_recovers() {
    let mut mock = Mock::new();
    let mut host = ready_host(&mut mock);
    mock.fail_index = Some((17, RTO));
    let (mut procedure, mut access) = read_block(0);
    let mut buf = [0u8; 512];
    let result = loop {
        let reply = mock.perform(access);
        match procedure.resume(reply, &mut buf) {
            Step::Do(next) => access = next,
            Step::Done(result) => break result,
        }
    };
    assert_eq!(result, Ok(()));
    assert_eq!(procedure.cause, Some(CardError::InterruptErr(Interrupt::ResponseTimeout)));
    assert_eq!(mock.indices(), vec![17, 12]);
    assert_eq!(buf, [0u8; 512]);
    let _ = host.rca();
}

#[test]
fn read_block_reports_a_failed_recovery() {
    let mut mock = Mock::new();
    let mut host = ready_host(&mut mock);
    mock.fault_after = Some((1, SBE));
    let first = host.read_block(0);
    let mut access = first;
    let result = loop {
        // Once CMD12 is out the controller stays silent.
        if let Access::WriteReg(REG_CMD, w) = access {
            if w & 0x3F == 12 {
                mock.silent = true;
            }
        }
        let reply = mock.perform(access);
        match host.resume(reply) {
            Step::Do(next) => access = next,
            Step::Done(result) => break result,
        }
    };
    assert_eq!(result, Err(CardError::TimeoutErr(Timeout::WaitCmdDone)));
    assert_eq!(mock.writes_of(12), 1);
}

#[test]
fn read_data_error_priority() {
    let ranked = [
        (EBE, Interrupt::EndBitErr),
        (SBE, Interrupt::StartBitErr),
        (HLE, Interrupt::HardwareLock),
        (FRUN, Interrupt::Fifo),
        (DRTO, Interrupt::DataReadTimeout),
        (DCRC, Interrupt::DataCrc),
    ];
    for (i, (_, expected)) in ranked.iter().enumerate() {
        let mut mock = Mock::new();
        for (bit, _) in ranked[i..].iter() {
            mock.rintsts |= bit;
        }
        let mut buf = [0u8; 512];
        assert_eq!(
            run_read_data(&mut mock, &mut buf),
            Err(CardError::InterruptErr(*expected))
        );
        let mut mock = Mock::new();
        for (bit, _) in ranked[i..].iter() {
            mock.rintsts |= bit;
        }
        assert_eq!(run_write_data(&mut mock, &buf), Err(CardError::InterruptErr(*expected)));
    }
}

#[test]
fn read_data_end_of_transfer_needs_a_complete_block() {
    // Transfer over with an error and no byte read: the error counts.
    let mut mock = Mock::new();
    mock.rintsts = DTO | DCRC;
    let mut buf = [0u8; 512];
    assert_eq!(
        run_read_data(&mut mock, &mut buf),
        Err(CardError::InterruptErr(Interrupt::DataCrc))
    );
}

#[test]
fn read_data_drains_on_transfer_over_alone() {
    // No receive request, only transfer over: the FIFO is drained all the same.
    let mut mock = Mock::new();
    mock.fifo = pattern().to_vec();
    mock.rintsts = DTO;
    let mut buf = [0u8; 512];
    assert_eq!(run_read_data(&mut mock, &mut buf), Ok(()));
    assert_eq!(buf, pattern());
}

#[test]
fn read_data_leaves_surplus_bytes_in_the_fifo() {
    let mut mock = Mock::new();
    mock.fifo = pattern().to_vec();
    mock.fifo.extend_from_slice(&[1, 2, 3]);
    mock.rintsts = RXDR;
    let mut buf = [0u8; 512];
    assert_eq!(run_read_data(&mut mock, &mut buf), Ok(()));
    assert_eq!(buf, pattern());
    assert_eq!(mock.fifo, vec![1, 2, 3]);
}

#[test]
fn read_data_in_two_bursts() {
    let mut mock = Mock::new();
    mock.fifo = pattern()[..200].to_vec();
    mock.rintsts = RXDR;
    let (mut engine, mut access) = read_data();
    let mut buf = [0u8; 512];
    let mut refilled = false;
    let result = loop {
        if !refilled && access == Access::WriteReg(REG_RINTSTS, RXDR) {
            // When the first burst is acknowledged the second arrives.
            refilled = true;
            let reply = mock.perform(access);
            mock.fifo = pattern()[200..].to_vec();
            mock.rintsts |= RXDR;
            match engine.resume(reply, &mut buf) {
                Step::Do(next) => access = next,
                Step::Done(result) => break result,
            }
            continue;
        }
        let reply = mock.perform(access);
        match engine.resume(reply, &mut buf) {
            Step::Do(next) => access = next,
            Step::Done(result) => break result,
        }
    };
    assert_eq!(result, Ok(()));
    assert_eq!(buf, pattern());
}

#[test]
fn read_watchdog() {
    let mut mock = Mock::new();
    mock.tick_step = 1 << 22;
    let mut buf = [0x5Au8; 512];
    assert_eq!(run_read_data(&mut mock, &mut buf), Err(CardError::DataTransferTimeout));
    // The watchdog runs from the first reading; within a tenth of its length.
    let elapsed = mock.tick - mock.tick_step;
    assert!(elapsed >= WATCHDOG_TICKS);
    assert!(elapsed < WATCHDOG_TICKS + WATCHDOG_TICKS / 10);
    assert_eq!(buf, [0x5Au8; 512]);
    assert!(!mock.log.iter().any(|a| matches!(a, Access::ReadFifo(_))));
}

#[test]
fn read_block_watchdog_then_one_recovery() {
    let mut mock = Mock::new();
    let mut host = ready_host(&mut mock);
    mock.dead_data = true;
    let (mut procedure, mut access) = read_block(0);
    let mut buf = [0u8; 512];
    let mut started = 0;
    let result = loop {
        let reply = mock.perform(access);
        if access == Access::WriteReg(REG_BYTCNT, 512) {
            // The command is out; from here on time flies.
            started = mock.tick;
            mock.tick_step = 1 << 22;
        }
        match procedure.resume(reply, &mut buf) {
            Step::Do(next) => access = next,
            Step::Done(result) => break result,
        }
        if procedure.cause.is_some() {
            mock.tick_step = 1000;
        }
    };
    assert_eq!(procedure.cause, Some(CardError::DataTransferTimeout));
    assert_eq!(result, Ok(()));
    assert_eq!(mock.writes_of(12), 1);
    assert_eq!(mock.indices(), vec![17, 12]);
    let elapsed = mock.tick - started;
    assert!(elapsed >= WATCHDOG_TICKS);
    assert!(elapsed < WATCHDOG_TICKS + WATCHDOG_TICKS / 10);
    let _ = host.rca();
}

#[test]
fn stop_transmission_under_hardware_lock() {
    let mut mock = Mock::new();
    mock.reject_issues = 1;
    assert_eq!(run_stop(&mut mock), Ok(()));
    let issues = mock.log.iter().filter(|a| matches!(a, Access::WriteReg(REG_CMD, _))).count();
    assert_eq!(issues, 2);
    assert_eq!(mock.taken, vec![(0xA000_414C, 0)]);
    assert_issue_order(&mock.log);
}

#[test]
fn stop_transmission_plain() {
    let mut mock = Mock::new();
    assert_eq!(run_stop(&mut mock), Ok(()));
    assert_eq!(
        mock.writes(),
        vec![(REG_RINTSTS, 0xFFFF_FFFF), (REG_CMDARG, 0), (REG_CMD, 0xA000_414C)]
    );
    // It does not wait for the data line, which the failed transfer may hold.
    assert!(!mock.log.contains(&Access::ReadReg(REG_STATUS)));
    assert_eq!(mock.response_reads(), vec![REG_RESP0]);
}

#[test]
fn stop_transmission_times_out() {
    let mut mock = Mock::new();
    mock.cmd = START;
    assert_eq!(run_stop_raw(&mut mock), Err(CardError::TimeoutErr(Timeout::WaitCmdLine)));
    let mut mock = Mock::new();
    mock.silent = true;
    assert_eq!(run_stop_raw(&mut mock), Err(CardError::TimeoutErr(Timeout::WaitCmdDone)));
}

fn run_stop_raw(mock: &mut Mock) -> Result<(), CardError> {
    let (mut recovery, mut access) = stop_transmission_ops();
    for _ in 0..STEP_LIMIT {
        let reply = mock.perform(access);
        match recovery.resume(reply) {
            Step::Do(next) => access = next,
            Step::Done(result) => return result,
        }
    }
    panic!("the recovery does not end");
}

#[test]
fn write_block_happy() {
    let mut mock = Mock::new();
    let mut host = ready_host(&mut mock);
    let mut block = pattern();
    block.reverse();
    let first = host.write_block(9, &block);
    assert_eq!(first, Access::ReadTick);
    assert_eq!(run_host(&mut mock, &mut host, first), Ok(()));
    assert_eq!(mock.taken, vec![(0xA000_2758, 9)]);
    let expected: Vec<(usize, u8)> = block.iter().cloned().enumerate().collect();
    assert_eq!(mock.sink, expected);
    assert_eq!(mock.writes_of(12), 0);
    assert_eq!(mock.rintsts, 0);
    assert_eq!(host.block(), &block);
}

#[test]
fn write_block_error_recovers() {
    let mut mock = Mock::new();
    let _host = ready_host(&mut mock);
    mock.dead_data = true;
    let (mut procedure, mut access) = write_block(3);
    let buf = pattern();
    let mut polls = 0;
    let result = loop {
        if access == Access::ReadReg(REG_RINTSTS) {
            polls += 1;
            if polls == 10 {
                mock.rintsts |= EBE | DCRC;
            }
        }
        let reply = mock.perform(access);
        match procedure.resume(reply, &buf) {
            Step::Do(next) => access = next,
            Step::Done(result) => break result,
        }
    };
    assert_eq!(result, Ok(()));
    assert_eq!(procedure.cause, Some(CardError::InterruptErr(Interrupt::EndBitErr)));
    assert_eq!(mock.indices(), vec![24, 12]);
    assert_eq!(mock.sink, Vec::<(usize, u8)>::new());
}

#[test]
fn write_watchdog() {
    let mut mock = Mock::new();
    mock.tick_step = 1 << 22;
    let buf = pattern();
    assert_eq!(run_write_data(&mut mock, &buf), Err(CardError::DataTransferTimeout));
    let elapsed = mock.tick - mock.tick_step;
    assert!(elapsed >= WATCHDOG_TICKS);
    assert!(elapsed < WATCHDOG_TICKS + WATCHDOG_TICKS / 10);
    assert_eq!(mock.sink, Vec::<(usize, u8)>::new());
}

#[test]
fn write_data_pushes_the_whole_block_per_request() {
    let mut mock = Mock::new();
    mock.rintsts = TXDR;
    let buf = pattern();
    assert_eq!(run_write_data(&mut mock, &buf), Ok(()));
    assert_eq!(mock.sink.len(), 512);
    // What is pending at the end is written back, which clears it.
    assert_eq!(mock.writes().last(), Some(&(REG_RINTSTS, DTO)));
    assert_eq!(mock.rintsts, 0);
}

#[test]
fn host_begins_anew_in_place_of_what_was_going_on() {
    let mut mock = Mock::new();
    let mut host = ready_host(&mut mock);
    let mut access = host.read_block(1);
    for _ in 0..20 {
        let reply = mock.perform(access);
        match host.resume(reply) {
            Step::Do(next) => access = next,
            Step::Done(_) => panic!("over too early"),
        }
    }
    let first = host.init();
    assert_eq!(first, Access::ReadReg(REG_HCON));
    let mut mock = Mock::new();
    assert_eq!(run_host(&mut mock, &mut host, first), Ok(()));
}
