//! Programmed-I/O access to a legacy IDE disk and to PCI configuration space,
//! written so that every port access is decided here and performed elsewhere.
//!
//! Nothing in this crate touches hardware. Each operation is handed out as a
//! plan: a `ConfigRead` for one PCI configuration word, a `Transfer` for an
//! IDENTIFY or READ SECTORS command. The caller performs the port operation a
//! plan asks for and hands the value read back to it.
pub mod identify;
pub mod pci;
pub mod ports;
pub mod text;
pub mod traces;
pub mod transfer;

pub use identify::{AtaIdentifyData, IdentifyFields};
pub use pci::{pciConfigRead, ConfigRead};
pub use ports::{Diagnostic, Port, PortOp, Step};
pub use text::{flip_bytes, RawString};
pub use transfer::{
    handle_primary_interrupt, pio_read, read_primary_data_port, ATADriveExists, DriveReport,
    DriveSelector, Kind, Phase, TaskFile, Transfer, TransferModel,
};
