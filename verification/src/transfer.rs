//! The two commands sent to the master drive of the primary channel,
//! IDENTIFY DEVICE and READ SECTORS, as a state machine.
//!
//! A `Transfer` never touches a port. Each `step` takes what the port
//! operation of the step before returned and answers with the next operation.
//! Whoever drives it performs the operation and comes back. No step waits:
//! where the protocol polls, the machine asks for the status again, for as
//! long as the caller keeps asking, unless a poll limit was set.
use crate::identify::{decode, AtaIdentifyData};
use crate::ports::{
    has_error, is_busy, wants_data, Diagnostic, Port, PortOp, Step, PRIMARY_IRQ, STATUS_BUSY,
    STATUS_DATA_REQUEST, STATUS_ERROR,
};
use vstd::prelude::*;

verus! {

/// Drive-select value that addresses the master drive for IDENTIFY DEVICE.
pub const IDENTIFY_MASTER_DRIVE: u8 = 0xA0;

/// Drive-select value that addresses the slave drive for IDENTIFY DEVICE.
pub const IDENTIFY_SLAVE_DRIVE: u8 = 0xB0;

/// The IDENTIFY DEVICE command.
pub const IDENTIFY_COMMAND: u8 = 0xEC;

/// The READ SECTORS command.
pub const READ_COMMAND: u8 = 0x20;

/// Drive-select value for an LBA access to the master drive, before the top
/// four address bits are added.
pub const READ_MASTER: u8 = 0xE0;

/// Which of the two drives of the channel is meant.
#[derive(Clone, Copy, Debug, PartialEq, Eq, Structural)]
pub enum DriveSelector {
    Master,
    Slave,
}

impl DriveSelector {
    pub open spec fn spec_identify_byte(self) -> u8 {
        match self {
            DriveSelector::Master => IDENTIFY_MASTER_DRIVE,
            DriveSelector::Slave => IDENTIFY_SLAVE_DRIVE,
        }
    }

    /// The drive-select value that addresses this drive for IDENTIFY DEVICE.
    #[verifier::when_used_as_spec(spec_identify_byte)]
    pub fn identify_byte(self) -> (byte: u8)
        ensures
            byte == self.spec_identify_byte(),
    {
        match self {
            DriveSelector::Master => IDENTIFY_MASTER_DRIVE,
            DriveSelector::Slave => IDENTIFY_SLAVE_DRIVE,
        }
    }
}

/// The six registers that are written to start a command, in the order in
/// which they are written.
#[derive(Clone, Copy, Debug, PartialEq, Eq, Structural)]
pub struct TaskFile {
    pub select: u8,
    pub count: u8,
    pub low: u8,
    pub mid: u8,
    pub high: u8,
    pub command: u8,
}

/// Which command a transfer carries out.
#[derive(Clone, Copy, Debug, PartialEq, Eq, Structural)]
pub enum Kind {
    Identify,
    ReadSector,
}

/// Where a transfer stands. The phases from `Selected` to `FetchingWord` are
/// named after the port operation that is under way.
#[derive(Clone, Copy, Debug, PartialEq, Eq, Structural)]
pub enum Phase {
    /// Nothing has been asked for yet.
    Start,
    /// The drive-select register is being written.
    Selected,
    /// The sector count is being written.
    Counted,
    /// LBA low is being written.
    LowSet,
    /// LBA mid is being written.
    MidSet,
    /// LBA high is being written.
    HighSet,
    /// The command is being written.
    Issued,
    /// The status is being read back: zero means that no drive is there.
    Probing,
    /// The status is being read until the busy bit is clear.
    AwaitingReady,
    /// LBA mid is being read: an ATA drive has left it zero.
    CheckingMid,
    /// LBA high is being read: an ATA drive has left it zero.
    CheckingHigh,
    /// The status is being read until data request or error is set.
    AwaitingData,
    /// The status is being read until data request is set, for one word.
    PollingWord,
    /// The data port is being read.
    FetchingWord,
    /// All 256 words are in.
    Finished,
    /// A poll limit was set, and a wait went over it.
    TimedOut,
}

impl Phase {
    /// The phases in which the six registers are written.
    pub open spec fn is_setup(self) -> bool {
        self == Phase::Start || self == Phase::Selected || self == Phase::Counted || self
            == Phase::LowSet || self == Phase::MidSet || self == Phase::HighSet || self
            == Phase::Issued
    }

    /// The phases that only IDENTIFY DEVICE goes through.
    pub open spec fn is_handshake(self) -> bool {
        self == Phase::Probing || self == Phase::AwaitingReady || self == Phase::CheckingMid
            || self == Phase::CheckingHigh || self == Phase::AwaitingData
    }

    /// The phases after which nothing more happens.
    pub open spec fn is_final(self) -> bool {
        self == Phase::Finished || self == Phase::TimedOut
    }
}

/// What an 8-bit register returned: the low byte of the value handed in.
pub open spec fn register(input: u16) -> u8 {
    (input & 0xff) as u8
}

/// The drive-select byte of a read at block `lba`: the master drive in LBA
/// mode, with bits 24 to 27 of the address in the low four bits.
pub open spec fn drive_select(lba: u32) -> u8 {
    READ_MASTER | (((lba >> 24) & 0x0f) as u8)
}

/// What `read_primary_data_port` decides on a status.
pub open spec fn data_port_step(status: u8) -> Step {
    if wants_data(status) {
        Step::read(Port::Data)
    } else {
        Step::read(Port::Command).noting(Diagnostic::DataNotReady)
    }
}

/// A transfer as plain values.
pub struct TransferModel {
    pub kind: Kind,
    pub regs: TaskFile,
    pub phase: Phase,
    /// The words read from the data port so far, in the order read.
    pub words: Seq<u16>,
    /// The status read back right after the command was zero.
    pub absent: bool,
    /// LBA mid or LBA high was found not to be zero.
    pub not_ata: bool,
    /// How often one wait may ask again, if there is a limit.
    pub limit: Option<u32>,
    /// How often the wait under way has asked again. Counted only under a
    /// limit.
    pub polls: u32,
}

impl TransferModel {
    /// IDENTIFY DEVICE for the drive that `drive` selects, before its first
    /// step.
    pub open spec fn identify(drive: u8) -> TransferModel {
        TransferModel {
            kind: Kind::Identify,
            regs: TaskFile {
                select: drive,
                count: 0,
                low: 0,
                mid: 0,
                high: 0,
                command: IDENTIFY_COMMAND,
            },
            phase: Phase::Start,
            words: Seq::empty(),
            absent: false,
            not_ata: false,
            limit: None,
            polls: 0,
        }
    }

    /// READ SECTORS at block `lba` of the master drive, before its first
    /// step. The sector count is written as zero.
    pub open spec fn read_sector(lba: u32) -> TransferModel {
        TransferModel {
            kind: Kind::ReadSector,
            regs: TaskFile {
                select: drive_select(lba),
                count: 0,
                low: (lba & 0xff) as u8,
                mid: ((lba >> 8) & 0xff) as u8,
                high: ((lba >> 16) & 0xff) as u8,
                command: READ_COMMAND,
            },
            phase: Phase::Start,
            words: Seq::empty(),
            absent: false,
            not_ata: false,
            limit: None,
            polls: 0,
        }
    }

    /// What holds of every transfer that the constructors and `step` can
    /// produce.
    pub open spec fn wf(self) -> bool {
        &&& self.words.len() <= 256
        &&& (self.phase == Phase::Finished <==> self.words.len() == 256)
        &&& (self.phase.is_setup() || self.phase.is_handshake() ==> self.words.len() == 0)
        &&& match self.limit {
            Some(limit) => self.polls <= limit,
            None => self.polls == 0,
        }
        &&& (self.phase == Phase::TimedOut ==> self.limit is Some)
        &&& (self.kind == Kind::ReadSector ==> !self.phase.is_handshake() && !self.absent
            && !self.not_ata)
    }

    /// The same transfer in another phase, with no poll repeated yet.
    pub open spec fn at(self, phase: Phase) -> TransferModel {
        TransferModel { phase, polls: 0, ..self }
    }

    /// A wait that did not see what it waits for: the status is asked for
    /// again, unless a limit is set and used up, which ends the transfer.
    pub open spec fn retry(self, note: Diagnostic) -> (TransferModel, Step) {
        match self.limit {
            Some(limit) => if self.polls >= limit {
                (self.at(Phase::TimedOut), Step::done().noting(note))
            } else {
                (
                    TransferModel { polls: (self.polls + 1) as u32, ..self },
                    Step::read(Port::Command).noting(note),
                )
            },
            None => (self, Step::read(Port::Command).noting(note)),
        }
    }

    /// One step: the transfer afterwards and what it asks for, given what the
    /// operation asked for before returned. After a write, and at the start,
    /// the input means nothing and is ignored.
    pub open spec fn next(self, input: u16) -> (TransferModel, Step) {
        let value = register(input);
        match self.phase {
            Phase::Start => (
                self.at(Phase::Selected),
                Step::write(Port::DriveSelect, self.regs.select),
            ),
            Phase::Selected => (
                self.at(Phase::Counted),
                Step::write(Port::SectorCount, self.regs.count),
            ),
            Phase::Counted => (self.at(Phase::LowSet), Step::write(Port::LbaLow, self.regs.low)),
            Phase::LowSet => (self.at(Phase::MidSet), Step::write(Port::LbaMid, self.regs.mid)),
            Phase::MidSet => (self.at(Phase::HighSet), Step::write(Port::LbaHigh, self.regs.high)),
            Phase::HighSet => (
                self.at(Phase::Issued),
                Step::write(Port::Command, self.regs.command),
            ),
            Phase::Issued => match self.kind {
                Kind::Identify => (self.at(Phase::Probing), Step::read(Port::Command)),
                Kind::ReadSector => (
                    self.at(Phase::PollingWord),
                    Step::read(Port::Command).noting(Diagnostic::ReadIssued),
                ),
            },
            Phase::Probing => if value == 0 {
                (
                    TransferModel { absent: true, ..self.at(Phase::AwaitingReady) },
                    Step::read(Port::Command).noting(Diagnostic::NoDrive),
                )
            } else {
                (self.at(Phase::AwaitingReady), Step::read(Port::Command))
            },
            Phase::AwaitingReady => if is_busy(value) {
                self.retry(Diagnostic::Busy(value))
            } else {
                (self.at(Phase::CheckingMid), Step::read(Port::LbaMid))
            },
            Phase::CheckingMid => if value != 0 {
                (
                    TransferModel { not_ata: true, ..self.at(Phase::AwaitingData) },
                    Step::read(Port::Command).noting(Diagnostic::NotAta),
                )
            } else {
                (self.at(Phase::CheckingHigh), Step::read(Port::LbaHigh))
            },
            Phase::CheckingHigh => if value != 0 {
                (
                    TransferModel { not_ata: true, ..self.at(Phase::AwaitingData) },
                    Step::read(Port::Command).noting(Diagnostic::NotAta),
                )
            } else {
                (self.at(Phase::AwaitingData), Step::read(Port::Command))
            },
            Phase::AwaitingData => if !wants_data(value) && !has_error(value) {
                self.retry(Diagnostic::DataPending(value))
            } else {
                (self.at(Phase::PollingWord), Step::read(Port::Command))
            },
            Phase::PollingWord => if wants_data(value) {
                (self.at(Phase::FetchingWord), data_port_step(value))
            } else {
                self.retry(Diagnostic::DataNotReady)
            },
            Phase::FetchingWord => {
                let words = self.words.push(input);
                if words.len() >= 256 {
                    (TransferModel { words, ..self.at(Phase::Finished) }, Step::done())
                } else {
                    (
                        TransferModel { words, ..self.at(Phase::PollingWord) },
                        Step::read(Port::Command),
                    )
                }
            },
            Phase::Finished => (self, Step::done()),
            Phase::TimedOut => (self, Step::done()),
        }
    }

    /// The transfer after one step for each input, in order.
    pub open spec fn run(self, inputs: Seq<u16>) -> TransferModel
        decreases inputs.len(),
    {
        if inputs.len() == 0 {
            self
        } else {
            self.run(inputs.drop_last()).next(inputs.last()).0
        }
    }

    /// The write that setup step number `k` asks for, counted from zero.
    pub open spec fn setup_write(self, k: int) -> Step {
        if k == 0 {
            Step::write(Port::DriveSelect, self.regs.select)
        } else if k == 1 {
            Step::write(Port::SectorCount, self.regs.count)
        } else if k == 2 {
            Step::write(Port::LbaLow, self.regs.low)
        } else if k == 3 {
            Step::write(Port::LbaMid, self.regs.mid)
        } else if k == 4 {
            Step::write(Port::LbaHigh, self.regs.high)
        } else {
            Step::write(Port::Command, self.regs.command)
        }
    }
}

/// What IDENTIFY DEVICE found: the record decoded from the drive's answer,
/// and the two signs that the answer may be worthless. Neither sign stops the
/// command, so a record is there in any case.
#[derive(Clone, Copy, Debug, PartialEq, Eq)]
pub struct DriveReport {
    pub record: AtaIdentifyData,
    /// The status was zero right after the command: there is no drive.
    pub absent: bool,
    /// LBA mid or LBA high was not zero: the device is not an ATA drive.
    pub not_ata: bool,
}

/// A command under way. See the module's description for how it is driven.
pub struct Transfer {
    kind: Kind,
    regs: TaskFile,
    phase: Phase,
    words: Vec<u16>,
    absent: bool,
    not_ata: bool,
    limit: Option<u32>,
    polls: u32,
}

impl View for Transfer {
    type V = TransferModel;

    closed spec fn view(&self) -> TransferModel {
        TransferModel {
            kind: self.kind,
            regs: self.regs,
            phase: self.phase,
            words: self.words@,
            absent: self.absent,
            not_ata: self.not_ata,
            limit: self.limit,
            polls: self.polls,
        }
    }
}

fn write_step(port: Port, value: u8) -> (step: Step)
    ensures
        step == Step::write(port, value),
{
    Step { op: Some(PortOp::Write { port, value: value as u32 }), note: None }
}

fn read_step(port: Port, note: Option<Diagnostic>) -> (step: Step)
    ensures
        step == (Step { op: Some(PortOp::Read { port }), note }),
{
    Step { op: Some(PortOp::Read { port }), note }
}

fn low_byte_of(input: u16) -> (value: u8)
    ensures
        value == register(input),
{
    assert(input & 0xff < 0x100) by (bit_vector);
    (input & 0xff) as u8
}

fn block_of(words: &Vec<u16>) -> (block: [u16; 256])
    requires
        words@.len() == 256,
    ensures
        block@ == words@,
{
    let mut block: [u16; 256] = [0u16; 256];
    let mut i: usize = 0;
    while i < 256
        invariant
            i <= 256,
            words@.len() == 256,
            forall|j: int| 0 <= j < i ==> block@[j] == words@[j],
        decreases 256 - i,
    {
        block[i] = words[i];
        i = i + 1;
    }
    block
}

/// Decides how one word is taken from the data port, given the status just
/// read: with data request set the data port is read next, and otherwise the
/// status is read again, which is worth a note.
pub fn read_primary_data_port(status: u8) -> (step: Step)
    ensures
        step == data_port_step(status),
{
    if status & STATUS_DATA_REQUEST != 0 {
        read_step(Port::Data, None)
    } else {
        read_step(Port::Command, Some(Diagnostic::DataNotReady))
    }
}

/// Acknowledges the interrupt of the primary channel. The note is all there
/// is to it: no transfer learns of the interrupt.
pub fn handle_primary_interrupt() -> (note: Diagnostic)
    ensures
        note == Diagnostic::Irq(PRIMARY_IRQ),
{
    Diagnostic::Irq(PRIMARY_IRQ)
}

/// Starts IDENTIFY DEVICE for the drive that `drive` selects: the
/// `identify_byte` of a `DriveSelector`.
///
/// The transfer writes the drive select, zeroes the sector count and the
/// three address registers, and writes the command. It reads the status back
/// once, and notes a missing drive if that is zero. It polls the status until
/// the drive is no longer busy, reads LBA mid and, if that is zero, LBA high,
/// and notes a device that is not ATA if either is not zero. It polls the
/// status until data request or error is set and then takes 256 words, each
/// as `read_primary_data_port` decides. Neither note ends the transfer.
#[allow(non_snake_case)]
pub fn ATADriveExists(drive: u8) -> (transfer: Transfer)
    ensures
        transfer@ == TransferModel::identify(drive),
        transfer@.wf(),
{
    Transfer {
        kind: Kind::Identify,
        regs: TaskFile { select: drive, count: 0, low: 0, mid: 0, high: 0, command: IDENTIFY_COMMAND },
        phase: Phase::Start,
        words: Vec::new(),
        absent: false,
        not_ata: false,
        limit: None,
        polls: 0,
    }
}

/// Starts READ SECTORS for the sector at block `lba` of the master drive.
///
/// Of `lba` the low 28 bits count. The transfer writes the drive select with
/// the top four of them, a sector count of zero, the other 24 bits to LBA
/// low, mid and high, and the command, and then takes 256 words, each as
/// `read_primary_data_port` decides. What a count of zero means is the
/// drive's to say, one sector or 256; the transfer takes one sector's worth
/// of words either way.
pub fn pio_read(lba: u32) -> (transfer: Transfer)
    ensures
        transfer@ == TransferModel::read_sector(lba),
        transfer@.wf(),
{
    let top: u32 = (lba >> 24) & 0x0f;
    let low: u32 = lba & 0xff;
    let mid: u32 = (lba >> 8) & 0xff;
    let high: u32 = (lba >> 16) & 0xff;
    assert((lba >> 24) & 0x0f < 0x100) by (bit_vector);
    assert(lba & 0xff < 0x100) by (bit_vector);
    assert((lba >> 8) & 0xff < 0x100) by (bit_vector);
    assert((lba >> 16) & 0xff < 0x100) by (bit_vector);
    Transfer {
        kind: Kind::ReadSector,
        regs: TaskFile {
            select: READ_MASTER | (top as u8),
            count: 0,
            low: low as u8,
            mid: mid as u8,
            high: high as u8,
            command: READ_COMMAND,
        },
        phase: Phase::Start,
        words: Vec::new(),
        absent: false,
        not_ata: false,
        limit: None,
        polls: 0,
    }
}

impl Transfer {
    #[verifier::type_invariant]
    spec fn inv(self) -> bool {
        self@.wf()
    }

    fn moved_to(self, phase: Phase) -> (t: Transfer)
        requires
            self@.at(phase).wf(),
        ensures
            t@ == self@.at(phase),
    {
        Transfer {
            kind: self.kind,
            regs: self.regs,
            phase,
            words: self.words,
            absent: self.absent,
            not_ata: self.not_ata,
            limit: self.limit,
            polls: 0,
        }
    }

    fn retry(self, note: Diagnostic) -> (r: (Transfer, Step))
        requires
            !self@.phase.is_final(),
        ensures
            r.0@ == self@.retry(note).0,
            r.1 == self@.retry(note).1,
    {
        proof {
            use_type_invariant(&self);
        }
        match self.limit {
            Some(limit) => {
                if self.polls >= limit {
                    (self.moved_to(Phase::TimedOut), Step { op: None, note: Some(note) })
                } else {
                    (
                        Transfer {
                            kind: self.kind,
                            regs: self.regs,
                            phase: self.phase,
                            words: self.words,
                            absent: self.absent,
                            not_ata: self.not_ata,
                            limit: self.limit,
                            polls: self.polls + 1,
                        },
                        read_step(Port::Command, Some(note)),
                    )
                }
            },
            None => (self, read_step(Port::Command, Some(note))),
        }
    }

    /// Sets the number of times that one wait may ask for the status again.
    /// The wait that goes over it ends the transfer in `Phase::TimedOut`.
    /// Without a limit, which is how every transfer starts, a wait lasts as
    /// long as the drive makes it last.
    pub fn with_poll_limit(self, retries: u32) -> (t: Transfer)
        ensures
            t@ == (TransferModel { limit: Some(retries), polls: 0, ..self@ }),
            t@.wf(),
    {
        proof {
            use_type_invariant(&self);
        }
        Transfer {
            kind: self.kind,
            regs: self.regs,
            phase: self.phase,
            words: self.words,
            absent: self.absent,
            not_ata: self.not_ata,
            limit: Some(retries),
            polls: 0,
        }
    }

    /// Takes what the last port operation returned and says what to do next.
    ///
    /// `input` is the value that the read asked for by the step before
    /// returned, an 8-bit register's value in its low byte. The first step,
    /// and a step after a write, ignore it. A step without an operation ends
    /// the transfer, and every step after it is another such step.
    pub fn step(self, input: u16) -> (r: (Transfer, Step))
        ensures
            r.0@ == self@.next(input).0,
            r.1 == self@.next(input).1,
            r.0@.wf(),
    {
        proof {
            use_type_invariant(&self);
        }
        let value: u8 = low_byte_of(input);
        match self.phase {
            Phase::Start => {
                let op = write_step(Port::DriveSelect, self.regs.select);
                (self.moved_to(Phase::Selected), op)
            },
            Phase::Selected => {
                let op = write_step(Port::SectorCount, self.regs.count);
                (self.moved_to(Phase::Counted), op)
            },
            Phase::Counted => {
                let op = write_step(Port::LbaLow, self.regs.low);
                (self.moved_to(Phase::LowSet), op)
            },
            Phase::LowSet => {
                let op = write_step(Port::LbaMid, self.regs.mid);
                (self.moved_to(Phase::MidSet), op)
            },
            Phase::MidSet => {
                let op = write_step(Port::LbaHigh, self.regs.high);
                (self.moved_to(Phase::HighSet), op)
            },
            Phase::HighSet => {
                let op = write_step(Port::Command, self.regs.command);
                (self.moved_to(Phase::Issued), op)
            },
            Phase::Issued => match self.kind {
                Kind::Identify => (self.moved_to(Phase::Probing), read_step(Port::Command, None)),
                Kind::ReadSector => (
                    self.moved_to(Phase::PollingWord),
                    read_step(Port::Command, Some(Diagnostic::ReadIssued)),
                ),
            },
            Phase::Probing => {
                if value == 0 {
                    (
                        Transfer {
                            kind: self.kind,
                            regs: self.regs,
                            phase: Phase::AwaitingReady,
                            words: self.words,
                            absent: true,
                            not_ata: self.not_ata,
                            limit: self.limit,
                            polls: 0,
                        },
                        read_step(Port::Command, Some(Diagnostic::NoDrive)),
                    )
                } else {
                    (self.moved_to(Phase::AwaitingReady), read_step(Port::Command, None))
                }
            },
            Phase::AwaitingReady => {
                if value & STATUS_BUSY != 0 {
                    self.retry(Diagnostic::Busy(value))
                } else {
                    (self.moved_to(Phase::CheckingMid), read_step(Port::LbaMid, None))
                }
            },
            Phase::CheckingMid => {
                if value != 0 {
                    self.found_not_ata()
                } else {
                    (self.moved_to(Phase::CheckingHigh), read_step(Port::LbaHigh, None))
                }
            },
            Phase::CheckingHigh => {
                if value != 0 {
                    self.found_not_ata()
                } else {
                    (self.moved_to(Phase::AwaitingData), read_step(Port::Command, None))
                }
            },
            Phase::AwaitingData => {
                if value & STATUS_DATA_REQUEST == 0 && value & STATUS_ERROR == 0 {
                    self.retry(Diagnostic::DataPending(value))
                } else {
                    (self.moved_to(Phase::PollingWord), read_step(Port::Command, None))
                }
            },
            Phase::PollingWord => {
                let decided = read_primary_data_port(value);
                match decided.note {
                    None => (self.moved_to(Phase::FetchingWord), decided),
                    Some(note) => self.retry(note),
                }
            },
            Phase::FetchingWord => {
                let mut words = self.words;
                words.push(input);
                if words.len() >= 256 {
                    (
                        Transfer {
                            kind: self.kind,
                            regs: self.regs,
                            phase: Phase::Finished,
                            words,
                            absent: self.absent,
                            not_ata: self.not_ata,
                            limit: self.limit,
                            polls: 0,
                        },
                        Step { op: None, note: None },
                    )
                } else {
                    (
                        Transfer {
                            kind: self.kind,
                            regs: self.regs,
                            phase: Phase::PollingWord,
                            words,
                            absent: self.absent,
                            not_ata: self.not_ata,
                            limit: self.limit,
                            polls: 0,
                        },
                        read_step(Port::Command, None),
                    )
                }
            },
            Phase::Finished => (self, Step { op: None, note: None }),
            Phase::TimedOut => (self, Step { op: None, note: None }),
        }
    }

    fn found_not_ata(self) -> (r: (Transfer, Step))
        requires
            self@.phase == Phase::CheckingMid || self@.phase == Phase::CheckingHigh,
        ensures
            r.0@ == (TransferModel { not_ata: true, ..self@.at(Phase::AwaitingData) }),
            r.1 == Step::read(Port::Command).noting(Diagnostic::NotAta),
    {
        proof {
            use_type_invariant(&self);
        }
        (
            Transfer {
                kind: self.kind,
                regs: self.regs,
                phase: Phase::AwaitingData,
                words: self.words,
                absent: self.absent,
                not_ata: true,
                limit: self.limit,
                polls: 0,
            },
            read_step(Port::Command, Some(Diagnostic::NotAta)),
        )
    }

    /// Where the transfer stands.
    pub fn phase(&self) -> (phase: Phase)
        ensures
            phase == self@.phase,
            self@.wf(),
    {
        proof {
            use_type_invariant(self);
        }
        self.phase
    }

    /// The 256 words of a finished transfer, in the order in which the data
    /// port gave them; nothing before the transfer has finished.
    pub fn sector(&self) -> (block: Option<[u16; 256]>)
        ensures
            block is Some <==> self@.phase == Phase::Finished,
            block matches Some(words) ==> words@ == self@.words,
    {
        proof {
            use_type_invariant(self);
        }
        match self.phase {
            Phase::Finished => Some(block_of(&self.words)),
            _ => None,
        }
    }

    /// What a finished IDENTIFY DEVICE found; nothing for a read, and nothing
    /// before the transfer has finished.
    pub fn report(&self) -> (found: Option<DriveReport>)
        ensures
            found is Some <==> self@.phase == Phase::Finished && self@.kind == Kind::Identify,
            found matches Some(report) ==> report.record@ == decode(self@.words) && report.absent
                == self@.absent && report.not_ata == self@.not_ata,
    {
        proof {
            use_type_invariant(self);
        }
        match (self.phase, self.kind) {
            (Phase::Finished, Kind::Identify) => Some(
                DriveReport {
                    record: AtaIdentifyData::new(block_of(&self.words)),
                    absent: self.absent,
                    not_ata: self.not_ata,
                },
            ),
            _ => None,
        }
    }
}

} // verus!
