//! What holds of whole runs of a transfer: which registers it writes, how
//! long it waits, when it ends, and what it has when it ends.
use crate::ports::{has_error, is_busy, wants_data, Port, PortOp, Step};
use crate::transfer::{drive_select, register, Kind, Phase, TransferModel};
use vstd::prelude::*;

verus! {

/// Every input from number `first` on has the busy bit set in its low byte.
pub open spec fn busy_from(inputs: Seq<u16>, first: int) -> bool {
    forall|i: int| first <= i < inputs.len() ==> is_busy(register(#[trigger] inputs[i]))
}

/// The phase in which setup step number `k` leaves a transfer.
pub open spec fn phase_after_setup(k: int) -> Phase {
    if k <= 0 {
        Phase::Start
    } else if k == 1 {
        Phase::Selected
    } else if k == 2 {
        Phase::Counted
    } else if k == 3 {
        Phase::LowSet
    } else if k == 4 {
        Phase::MidSet
    } else if k == 5 {
        Phase::HighSet
    } else {
        Phase::Issued
    }
}

/// The transfer is in a wait, and the input is not what the wait is for.
pub open spec fn asks_again(m: TransferModel, input: u16) -> bool {
    let status = register(input);
    match m.phase {
        Phase::AwaitingReady => is_busy(status),
        Phase::AwaitingData => !wants_data(status) && !has_error(status),
        Phase::PollingWord => !wants_data(status),
        _ => false,
    }
}

/// None of the inputs is what the wait that the transfer is in is for.
pub open spec fn all_ask_again(m: TransferModel, inputs: Seq<u16>) -> bool {
    forall|i: int| 0 <= i < inputs.len() ==> asks_again(m, #[trigger] inputs[i])
}

/// The drive-select byte of a read lies between 0xE0 and 0xEF, has the slave
/// bit clear, and carries bits 24 to 27 of the address and nothing of the
/// four bits above them.
pub proof fn lemma_drive_select(lba: u32)
    ensures
        drive_select(lba) == 0xE0 + (lba / 0x100_0000) % 16,
        0xE0 <= drive_select(lba) <= 0xEF,
        drive_select(lba) & 0x10 == 0,
        drive_select(lba) == drive_select(lba & 0x0fff_ffff),
        drive_select(0) == 0xE0,
        drive_select(0x0F00_0000) == 0xEF,
{
    assert(0xE0u8 | (((lba >> 24) & 0x0f) as u8) == 0xE0 + (lba / 0x100_0000) % 16)
        by (bit_vector);
    assert((0xE0u8 | (((lba >> 24) & 0x0f) as u8)) & 0x10 == 0) by (bit_vector);
    assert(((lba & 0x0fff_ffff) >> 24) & 0x0f == (lba >> 24) & 0x0f) by (bit_vector);
    assert(0xE0u8 | (((0u32 >> 24) & 0x0f) as u8) == 0xE0) by (bit_vector);
    assert(0xE0u8 | (((0x0F00_0000u32 >> 24) & 0x0f) as u8) == 0xEF) by (bit_vector);
}

/// The three address bytes of a read are bits 0 to 23 of the address.
pub proof fn lemma_address_bytes(lba: u32)
    ensures
        TransferModel::read_sector(lba).regs.low == lba % 0x100,
        TransferModel::read_sector(lba).regs.mid == (lba / 0x100) % 0x100,
        TransferModel::read_sector(lba).regs.high == (lba / 0x1_0000) % 0x100,
{
    assert((lba & 0xff) as u8 == lba % 0x100) by (bit_vector);
    assert(((lba >> 8) & 0xff) as u8 == (lba / 0x100) % 0x100) by (bit_vector);
    assert(((lba >> 16) & 0xff) as u8 == (lba / 0x1_0000) % 0x100) by (bit_vector);
}

/// Both commands start well formed.
pub proof fn lemma_start_wf(drive: u8, lba: u32)
    ensures
        TransferModel::identify(drive).wf(),
        TransferModel::read_sector(lba).wf(),
{
}

/// A step keeps a transfer well formed and its command, its six register
/// values and its poll limit as they are. Only the step that takes what the
/// data port returned adds a word, and it adds that.
pub proof fn lemma_next_wf(m: TransferModel, input: u16)
    requires
        m.wf(),
    ensures
        m.next(input).0.wf(),
        m.next(input).0.kind == m.kind,
        m.next(input).0.regs == m.regs,
        m.next(input).0.limit == m.limit,
        m.next(input).0.words == if m.phase == Phase::FetchingWord {
            m.words.push(input)
        } else {
            m.words
        },
{
}

/// So does any number of steps.
pub proof fn lemma_run_wf(m: TransferModel, inputs: Seq<u16>)
    requires
        m.wf(),
    ensures
        m.run(inputs).wf(),
        m.run(inputs).kind == m.kind,
        m.run(inputs).regs == m.regs,
        m.run(inputs).limit == m.limit,
    decreases inputs.len(),
{
    if inputs.len() > 0 {
        lemma_run_wf(m, inputs.drop_last());
        lemma_next_wf(m.run(inputs.drop_last()), inputs.last());
    }
}

/// What a step asks to be written fits the port it is written to, and a step
/// asks for nothing exactly when it leaves the transfer finished or timed
/// out.
pub proof fn lemma_step_fits(m: TransferModel, input: u16)
    requires
        m.wf(),
    ensures
        m.next(input).1.op matches Some(op) ==> op.fits(),
        m.next(input).1.op is None <==> m.next(input).0.phase.is_final(),
{
}

/// The first six steps write the six registers in their order, select, count,
/// low, mid, high, command, whatever is handed in meanwhile.
pub proof fn lemma_setup_writes(m: TransferModel, inputs: Seq<u16>, k: int)
    requires
        m.phase == Phase::Start,
        0 <= k < 6,
        k < inputs.len(),
    ensures
        m.run(inputs.take(k)).phase == phase_after_setup(k),
        m.run(inputs.take(k)).next(inputs[k]).1 == m.setup_write(k),
    decreases k,
{
    if k == 0 {
    } else {
        lemma_setup_writes(m, inputs, k - 1);
        let shorter = inputs.take(k - 1);
        let prefix = inputs.take(k);
        assert(prefix.drop_last() =~= shorter);
        lemma_run_keeps_registers(m, shorter);
    }
}

proof fn lemma_run_keeps_registers(m: TransferModel, inputs: Seq<u16>)
    ensures
        m.run(inputs).regs == m.regs,
        m.run(inputs).kind == m.kind,
    decreases inputs.len(),
{
    if inputs.len() > 0 {
        lemma_run_keeps_registers(m, inputs.drop_last());
    }
}

/// Without a poll limit a wait lasts as long as the drive makes it last:
/// however many inputs fail to be what the wait is for, the transfer is after
/// them what it was before them.
pub proof fn lemma_wait_lasts(m: TransferModel, inputs: Seq<u16>)
    requires
        m.limit is None,
        all_ask_again(m, inputs),
    ensures
        m.run(inputs) == m,
    decreases inputs.len(),
{
    if inputs.len() > 0 {
        let shorter = inputs.drop_last();
        assert(all_ask_again(m, shorter));
        lemma_wait_lasts(m, shorter);
    }
}

/// A drive that never clears its busy bit keeps IDENTIFY DEVICE waiting
/// without end. Once the command is written, every input is the answer to a
/// read of the status; if each of them has the busy bit set, the transfer is
/// in the wait for the busy bit after the first of them and stays there,
/// takes no word, and neither finishes nor gives up. No bound is hidden in a
/// transfer without a poll limit.
pub proof fn lemma_busy_drive_never_answers(m: TransferModel, inputs: Seq<u16>)
    requires
        m.kind == Kind::Identify,
        m.limit is None,
        m.phase == Phase::Probing || m.phase == Phase::AwaitingReady,
        busy_from(inputs, 0),
    ensures
        m.run(inputs).phase == if inputs.len() == 0 {
            m.phase
        } else {
            Phase::AwaitingReady
        },
        m.run(inputs).words == m.words,
        m.run(inputs).kind == Kind::Identify,
        m.run(inputs).limit is None,
    decreases inputs.len(),
{
    if inputs.len() > 0 {
        assert(busy_from(inputs.drop_last(), 0));
        lemma_busy_drive_never_answers(m, inputs.drop_last());
    }
}

/// The same of IDENTIFY DEVICE from its start, as a driver runs it. The
/// first seven steps, which write the six registers and ask for the status,
/// ignore their inputs, so nothing is asked of those. If every input after
/// them has the busy bit set, the transfer writes its registers, reads the
/// status back, and is in the wait for the busy bit from its eighth step on,
/// however many steps follow.
pub proof fn lemma_busy_drive_hangs_identify(m: TransferModel, inputs: Seq<u16>)
    requires
        m.kind == Kind::Identify,
        m.limit is None,
        m.phase == Phase::Start,
        busy_from(inputs, 7),
    ensures
        m.run(inputs).phase == if inputs.len() <= 6 {
            phase_after_setup(inputs.len() as int)
        } else if inputs.len() == 7 {
            Phase::Probing
        } else {
            Phase::AwaitingReady
        },
        !m.run(inputs).phase.is_final(),
        m.run(inputs).words == m.words,
        m.run(inputs).kind == Kind::Identify,
        m.run(inputs).limit is None,
    decreases inputs.len(),
{
    if inputs.len() > 0 {
        assert(busy_from(inputs.drop_last(), 7));
        lemma_busy_drive_hangs_identify(m, inputs.drop_last());
    }
}

/// Without a poll limit no transfer ever times out.
pub proof fn lemma_no_limit_no_timeout(m: TransferModel, inputs: Seq<u16>)
    requires
        m.limit is None,
        m.phase != Phase::TimedOut,
    ensures
        m.run(inputs).limit is None,
        m.run(inputs).phase != Phase::TimedOut,
    decreases inputs.len(),
{
    if inputs.len() > 0 {
        lemma_no_limit_no_timeout(m, inputs.drop_last());
    }
}

/// With a poll limit, a wait that starts afresh asks again once for each
/// input that is not what it waits for, up to the limit, and the next such
/// input ends the transfer.
pub proof fn lemma_limit_ends_wait(m: TransferModel, limit: u32, inputs: Seq<u16>)
    requires
        m.limit == Some(limit),
        m.polls == 0,
        all_ask_again(m, inputs),
        0 < inputs.len() <= limit + 1,
    ensures
        inputs.len() <= limit ==> m.run(inputs) == (TransferModel {
            polls: inputs.len() as u32,
            ..m
        }),
        inputs.len() == limit + 1 ==> m.run(inputs) == m.at(Phase::TimedOut),
    decreases inputs.len(),
{
    let shorter = inputs.drop_last();
    if shorter.len() > 0 {
        assert(all_ask_again(m, shorter));
        lemma_limit_ends_wait(m, limit, shorter);
    } else {
        assert(m.run(shorter) == m);
    }
}

/// A word is taken in two steps: on a status with data request set the data
/// port is read, and what it returns becomes the last word. The 256th word
/// finishes the transfer, and any other is followed by a look at the status.
pub proof fn lemma_word_taken(m: TransferModel, status: u16, word: u16)
    requires
        m.wf(),
        m.phase == Phase::PollingWord,
        wants_data(register(status)),
    ensures
        m.next(status).1 == Step::read(Port::Data),
        m.next(status).0.next(word).0.words == m.words.push(word),
        m.next(status).0.next(word).0.phase == if m.words.len() == 255 {
            Phase::Finished
        } else {
            Phase::PollingWord
        },
{
}

/// A drive as a transfer sees it: what its status register shows read after
/// read, what LBA mid and high hold, and the words its data port hands out.
pub struct DriveModel {
    /// What the status register shows at its next reads, one value a read.
    pub statuses: Seq<u8>,
    /// What the status register shows once those are used up.
    pub status: u8,
    pub lba_mid: u8,
    pub lba_high: u8,
    /// The words that the data port hands out, in their order.
    pub data: Seq<u16>,
    /// How many of them it has handed out.
    pub taken: int,
}

impl DriveModel {
    /// The status that the next read of the status register returns.
    pub open spec fn shown(self) -> u8 {
        if self.statuses.len() > 0 {
            self.statuses[0]
        } else {
            self.status
        }
    }

    /// What the drive returns for an operation. A write returns nothing that
    /// matters.
    pub open spec fn answer(self, op: PortOp) -> u16 {
        match op {
            PortOp::Read { port: Port::Command } => self.shown() as u16,
            PortOp::Read { port: Port::LbaMid } => self.lba_mid as u16,
            PortOp::Read { port: Port::LbaHigh } => self.lba_high as u16,
            PortOp::Read { port: Port::Data } => self.data[self.taken],
            _ => 0,
        }
    }

    /// The drive after an operation: a read of the status register moves on
    /// to the next status, and a read of the data port uses up a word.
    pub open spec fn after(self, op: PortOp) -> DriveModel {
        match op {
            PortOp::Read { port: Port::Command } => if self.statuses.len() > 0 {
                DriveModel { statuses: self.statuses.drop_first(), ..self }
            } else {
                self
            },
            PortOp::Read { port: Port::Data } => DriveModel { taken: self.taken + 1, ..self },
            _ => self,
        }
    }

    /// A drive that is ready in the end: whatever its status register shows
    /// at first, it then shows the drive not busy and data request up for
    /// good, and the data port has a full block of words to give.
    pub open spec fn ready_in_the_end(self) -> bool {
        &&& !is_busy(self.status)
        &&& wants_data(self.status)
        &&& self.taken == 0
        &&& self.data.len() >= 256
    }

    /// LBA mid and high are as an ATA drive leaves them after IDENTIFY
    /// DEVICE.
    pub open spec fn is_ata(self) -> bool {
        self.lba_mid == 0 && self.lba_high == 0
    }
}

/// A transfer driven against a drive for at most `steps` steps: each
/// operation a step asks for is put to the drive, and what the drive returns
/// is the input of the next step. A step that asks for nothing ends the play.
pub open spec fn play(m: TransferModel, d: DriveModel, input: u16, steps: nat) -> (
    TransferModel,
    DriveModel,
)
    decreases steps,
{
    if steps == 0 {
        (m, d)
    } else {
        match m.next(input).1.op {
            Some(op) => play(m.next(input).0, d.after(op), d.answer(op), (steps - 1) as nat),
            None => (m.next(input).0, d),
        }
    }
}

/// The number of steps that a transfer still takes if no wait has to ask
/// twice and LBA mid is zero.
spec fn distance(m: TransferModel) -> int {
    let issued: int = if m.kind == Kind::Identify {
        518
    } else {
        513
    };
    match m.phase {
        Phase::Start => issued + 6,
        Phase::Selected => issued + 5,
        Phase::Counted => issued + 4,
        Phase::LowSet => issued + 3,
        Phase::MidSet => issued + 2,
        Phase::HighSet => issued + 1,
        Phase::Issued => issued,
        Phase::Probing => 517,
        Phase::AwaitingReady => 516,
        Phase::CheckingMid => 515,
        Phase::CheckingHigh => 514,
        Phase::AwaitingData => 513,
        Phase::PollingWord => 2 * (256 - m.words.len()),
        Phase::FetchingWord => 2 * (256 - m.words.len()) - 1,
        Phase::Finished => 0,
        Phase::TimedOut => 0,
    }
}

/// An upper bound on the steps that are left of a play against a drive that
/// is ready in the end.
spec fn steps_left(m: TransferModel, d: DriveModel, input: u16) -> int {
    distance(m) + d.statuses.len() + if asks_again(m, input) {
        1int
    } else {
        0int
    }
}

/// What ties a transfer without a poll limit to the drive it is played
/// against and to the input that is on its way: the words taken so far are
/// the first words of the drive's data, and the two signs of trouble are, or
/// are about to be, what `absent` and `not_ata` say.
spec fn in_step(m: TransferModel, d: DriveModel, input: u16, absent: bool, not_ata: bool) -> bool {
    &&& m.wf()
    &&& m.limit is None
    &&& !m.phase.is_final()
    &&& !is_busy(d.status)
    &&& wants_data(d.status)
    &&& d.data.len() >= 256
    &&& if m.phase == Phase::FetchingWord {
        &&& d.taken == m.words.len() + 1
        &&& input == d.data[d.taken - 1]
    } else {
        d.taken == m.words.len()
    }
    &&& m.words == d.data.take(m.words.len() as int)
    &&& if m.kind == Kind::ReadSector {
        !absent && !not_ata
    } else if m.phase.is_setup() {
        &&& !m.absent
        &&& !m.not_ata
        &&& absent == (d.shown() == 0)
        &&& not_ata == !d.is_ata()
    } else if m.phase == Phase::Probing {
        &&& !m.absent
        &&& !m.not_ata
        &&& absent == (register(input) == 0)
        &&& not_ata == !d.is_ata()
    } else if m.phase == Phase::AwaitingReady {
        &&& m.absent == absent
        &&& !m.not_ata
        &&& not_ata == !d.is_ata()
    } else if m.phase == Phase::CheckingMid {
        &&& m.absent == absent
        &&& !m.not_ata
        &&& not_ata == !d.is_ata()
        &&& input == d.lba_mid as u16
    } else if m.phase == Phase::CheckingHigh {
        &&& m.absent == absent
        &&& !m.not_ata
        &&& not_ata == !d.is_ata()
        &&& d.lba_mid == 0
        &&& input == d.lba_high as u16
    } else {
        m.absent == absent && m.not_ata == not_ata
    }
}

proof fn lemma_register_of_byte(value: u8)
    ensures
        register(value as u16) == value,
{
    assert(((value as u16) & 0xff) as u8 == value) by (bit_vector);
}

/// One step of a play keeps transfer and drive tied, and brings the end
/// nearer: by a step of the protocol, or by a status that the drive will not
/// show again.
proof fn lemma_play_step(m: TransferModel, d: DriveModel, input: u16, absent: bool, not_ata: bool)
    requires
        in_step(m, d, input, absent, not_ata),
    ensures
        ({
            let after = m.next(input).0;
            match m.next(input).1.op {
                Some(op) => {
                    &&& in_step(after, d.after(op), d.answer(op), absent, not_ata)
                    &&& steps_left(after, d.after(op), d.answer(op)) < steps_left(m, d, input)
                },
                None => after == (TransferModel {
                    words: d.data.take(256),
                    absent,
                    not_ata,
                    ..m.at(Phase::Finished)
                }),
            }
        }),
{
    lemma_register_of_byte(d.shown());
    lemma_register_of_byte(d.lba_mid);
    lemma_register_of_byte(d.lba_high);
    if m.phase == Phase::FetchingWord {
        let after = m.next(input).0;
        assert(after.words == d.data.take(after.words.len() as int));
    }
}

/// Played long enough, a transfer without a poll limit ends finished, with
/// the first 256 words of the drive's data.
proof fn lemma_play_completes(
    m: TransferModel,
    d: DriveModel,
    input: u16,
    steps: nat,
    absent: bool,
    not_ata: bool,
)
    requires
        in_step(m, d, input, absent, not_ata),
        steps >= steps_left(m, d, input),
    ensures
        play(m, d, input, steps).0 == (TransferModel {
            words: d.data.take(256),
            absent,
            not_ata,
            ..m.at(Phase::Finished)
        }),
    decreases steps,
{
    lemma_play_step(m, d, input, absent, not_ata);
    let after = m.next(input).0;
    match m.next(input).1.op {
        Some(op) => {
            lemma_play_completes(
                after,
                d.after(op),
                d.answer(op),
                (steps - 1) as nat,
                absent,
                not_ata,
            );
            lemma_next_wf(m, input);
        },
        None => {},
    }
}

/// READ SECTORS finishes against every drive that is ready in the end, with
/// the first 256 words of the drive's data in the order in which the drive
/// gave them. It takes 519 steps and one more for each status that the drive
/// shows before it is ready for good, at most.
pub proof fn lemma_read_completes(lba: u32, d: DriveModel, input: u16, steps: nat)
    requires
        d.ready_in_the_end(),
        steps >= 519 + d.statuses.len(),
    ensures
        play(TransferModel::read_sector(lba), d, input, steps).0 == (TransferModel {
            words: d.data.take(256),
            ..TransferModel::read_sector(lba).at(Phase::Finished)
        }),
{
    let m = TransferModel::read_sector(lba);
    assert(m.words =~= d.data.take(0));
    lemma_play_completes(m, d, input, steps, false, false);
}

/// IDENTIFY DEVICE finishes against every drive that is ready in the end,
/// with the first 256 words of the drive's data in the order in which the
/// drive gave them. The drive is found absent exactly if the first status it
/// shows is zero, and found not to be ATA exactly if LBA mid or LBA high is
/// not zero. It takes 524 steps and one more for each status that the drive
/// shows before it is ready for good, at most.
pub proof fn lemma_identify_completes(select: u8, d: DriveModel, input: u16, steps: nat)
    requires
        d.ready_in_the_end(),
        steps >= 524 + d.statuses.len(),
    ensures
        play(TransferModel::identify(select), d, input, steps).0 == (TransferModel {
            words: d.data.take(256),
            absent: d.shown() == 0,
            not_ata: !d.is_ata(),
            ..TransferModel::identify(select).at(Phase::Finished)
        }),
{
    let m = TransferModel::identify(select);
    assert(m.words =~= d.data.take(0));
    lemma_play_completes(m, d, input, steps, d.shown() == 0, !d.is_ata());
}

} // verus!
