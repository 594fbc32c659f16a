//! Error taxonomy shared by the PCI, interrupt, and event-queue layers.

use vstd::prelude::*;

verus! {

/// The kind of a failure. Most variants are owned by the USB transfer layer
/// and are carried through unchanged; the scan/configure paths here produce
/// `Full`, `Empty`, `IndexOutOfRange`, `NotImplemented` and `NoPCIMSI`.
#[derive(Debug, Clone, Copy, PartialEq, Eq, Structural)]
pub enum Code {
    Success,
    Full,
    Empty,
    NoEnoughMemory,
    IndexOutOfRange,
    HostControllerNotHalted,
    InvalidSlotID,
    PortNotConnected,
    InvalidEndpointNumber,
    TransferRingNotSet,
    AlreadyAllocated,
    NotImplemented,
    InvalidDescriptor,
    BufferTooSmall,
    UnknownDevice,
    NoCorrespondingSetupStage,
    TransferFailed,
    InvalidPhase,
    UnknownXHCISpeedID,
    NoWaiter,
    NoPCIMSI,
    LastOfCode,
}

/// A failure: the kind of error plus the source location it originated at,
/// kept for diagnostics.
#[derive(Debug, Clone, Copy)]
pub struct Error {
    code: Code,
    file: &'static str,
    line: u32,
}

impl Error {
    /// The kind of this error, as seen by contracts.
    pub closed spec fn spec_code(&self) -> Code {
        self.code
    }

    /// The recorded source file, as seen by contracts.
    pub closed spec fn spec_file(&self) -> &'static str {
        self.file
    }

    /// The recorded source line, as seen by contracts.
    pub closed spec fn spec_line(&self) -> u32 {
        self.line
    }

    pub fn new(code: Code, file: &'static str, line: u32) -> (r: Error)
        ensures
            r.spec_code() == code,
            r.spec_file() == file,
            r.spec_line() == line,
    {
        Error { code, file, line }
    }

    /// The kind of this error.
    pub fn code(&self) -> (r: Code)
        ensures
            r == self.spec_code(),
    {
        self.code
    }

    /// The source file recorded when the error was made.
    pub fn file(&self) -> (r: &'static str)
        ensures
            r == self.spec_file(),
    {
        self.file
    }

    /// The source line recorded when the error was made.
    pub fn line(&self) -> (r: u32)
        ensures
            r == self.spec_line(),
    {
        self.line
    }
}

} // verus!
