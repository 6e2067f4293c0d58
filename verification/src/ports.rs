//! The register file: the ports the protocols use, and the vocabulary in which
//! a protocol tells its caller what to do with them.
use vstd::prelude::*;

verus! {

/// Status bit 0: the drive reports an error.
pub const STATUS_ERROR: u8 = 0x01;

/// Status bit 3: the drive has data to transfer.
pub const STATUS_DATA_REQUEST: u8 = 0x08;

/// Status bit 7: the drive is working on a command.
pub const STATUS_BUSY: u8 = 0x80;

/// The interrupt line of the primary IDE channel.
pub const PRIMARY_IRQ: u8 = 14;

/// A port of the primary IDE channel or of the PCI configuration mechanism.
///
/// A port's address and width are functions of its name alone, so neither can
/// change over the life of a handle.
#[derive(Clone, Copy, Debug, PartialEq, Eq, Structural)]
pub enum Port {
    /// 16-bit data port.
    Data,
    /// Number of sectors to transfer.
    SectorCount,
    /// Bits 0 to 7 of the block address.
    LbaLow,
    /// Bits 8 to 15 of the block address.
    LbaMid,
    /// Bits 16 to 23 of the block address.
    LbaHigh,
    /// Drive select, with bits 24 to 27 of the block address.
    DriveSelect,
    /// Command register when written, status register when read.
    Command,
    /// PCI configuration address.
    ConfigAddress,
    /// PCI configuration data.
    ConfigData,
}

impl Port {
    pub open spec fn spec_address(self) -> u16 {
        match self {
            Port::Data => 0x1F0,
            Port::SectorCount => 0x1F2,
            Port::LbaLow => 0x1F3,
            Port::LbaMid => 0x1F4,
            Port::LbaHigh => 0x1F5,
            Port::DriveSelect => 0x1F6,
            Port::Command => 0x1F7,
            Port::ConfigAddress => 0xCF8,
            Port::ConfigData => 0xCFC,
        }
    }

    /// Width of the port in bits.
    pub open spec fn spec_width(self) -> u8 {
        match self {
            Port::Data => 16,
            Port::ConfigAddress | Port::ConfigData => 32,
            _ => 8,
        }
    }

    /// The port's I/O address.
    #[verifier::when_used_as_spec(spec_address)]
    pub fn address(self) -> (a: u16)
        ensures
            a == self.spec_address(),
    {
        match self {
            Port::Data => 0x1F0,
            Port::SectorCount => 0x1F2,
            Port::LbaLow => 0x1F3,
            Port::LbaMid => 0x1F4,
            Port::LbaHigh => 0x1F5,
            Port::DriveSelect => 0x1F6,
            Port::Command => 0x1F7,
            Port::ConfigAddress => 0xCF8,
            Port::ConfigData => 0xCFC,
        }
    }

    /// The port's width in bits: 8, 16 or 32.
    #[verifier::when_used_as_spec(spec_width)]
    pub fn width(self) -> (w: u8)
        ensures
            w == self.spec_width(),
            w == 8 || w == 16 || w == 32,
    {
        match self {
            Port::Data => 16,
            Port::ConfigAddress | Port::ConfigData => 32,
            _ => 8,
        }
    }
}

/// One access to one port.
#[derive(Clone, Copy, Debug, PartialEq, Eq, Structural)]
pub enum PortOp {
    /// Write `value` to `port`.
    Write { port: Port, value: u32 },
    /// Read `port`; the value read is the input of the next step.
    Read { port: Port },
}

impl PortOp {
    /// The value written fits the port it is written to.
    pub open spec fn fits(self) -> bool {
        match self {
            PortOp::Write { port, value } => port.spec_width() == 32 || (port.spec_width() == 16
                && value < 0x1_0000) || value < 0x100,
            PortOp::Read { .. } => true,
        }
    }
}

/// Something worth a line in the log. None of these stops a transfer.
#[derive(Clone, Copy, Debug, PartialEq, Eq, Structural)]
pub enum Diagnostic {
    /// The status register read zero right after the command: no drive.
    NoDrive,
    /// The drive is still busy; the status is attached.
    Busy(u8),
    /// LBA mid or LBA high is not zero after IDENTIFY: not an ATA drive.
    NotAta,
    /// Neither data request nor error is up yet; the status is attached.
    DataPending(u8),
    /// The data port was wanted while data request was down.
    DataNotReady,
    /// READ SECTORS has been written to the command register.
    ReadIssued,
    /// The interrupt line with this number fired.
    Irq(u8),
}

/// What a protocol asks of its caller: at most one port access, and at most
/// one diagnostic to log. Without an access there is nothing left to do.
#[derive(Clone, Copy, Debug, PartialEq, Eq, Structural)]
pub struct Step {
    pub op: Option<PortOp>,
    pub note: Option<Diagnostic>,
}

impl Step {
    pub open spec fn write(port: Port, value: u8) -> Step {
        Step { op: Some(PortOp::Write { port, value: value as u32 }), note: None }
    }

    pub open spec fn read(port: Port) -> Step {
        Step { op: Some(PortOp::Read { port }), note: None }
    }

    pub open spec fn noting(self, note: Diagnostic) -> Step {
        Step { op: self.op, note: Some(note) }
    }

    pub open spec fn done() -> Step {
        Step { op: None, note: None }
    }
}

/// Bit 7 of the status: the drive is busy.
pub open spec fn is_busy(status: u8) -> bool {
    status & STATUS_BUSY != 0
}

/// Bit 3 of the status: the drive wants to transfer data.
pub open spec fn wants_data(status: u8) -> bool {
    status & STATUS_DATA_REQUEST != 0
}

/// Bit 0 of the status: the drive reports an error.
pub open spec fn has_error(status: u8) -> bool {
    status & STATUS_ERROR != 0
}

} // verus!
