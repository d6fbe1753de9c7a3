//! The failures that the engine reports.

use vstd::prelude::*;

verus! {

/// `elf::ParseError`, the reason why the `elf` crate rejected an image or a
/// string table offset. The engine carries it and never looks inside.
#[verifier::external_type_specification]
#[verifier::external_body]
pub struct ExParseError(elf::ParseError);

/// `std::io::Error`, carried from the driver to the caller untouched.
#[verifier::external_type_specification]
#[verifier::external_body]
pub struct ExIoError(std::io::Error);

/// Every way in which an operation of the engine can fail.
#[derive(Debug)]
pub enum Error {
    /// The executable at this path could not be read.
    NoReadExecutablePath(String),
    /// The executable image is not a well-formed ELF file.
    InvalidElfFile(elf::ParseError),
    /// The tracee could not be spawned, attached to, or brought to its first stop.
    ChildAttachment,
    /// Resuming the tracee, or waiting for it afterwards, failed.
    ContinueExecution,
    /// A word of tracee memory could not be read at this address.
    ReadMemory(u64),
    /// A word of tracee memory could not be written at this address.
    WriteMemory(u64),
    /// The registers of the tracee could not be read.
    ReadRegisters,
    /// The registers of the tracee could not be written.
    WriteRegisters,
    /// A breakpoint is already tracked at this address.
    BreakpointExists(u64),
    /// The executable of the process with this identifier could not be resolved.
    ReadExecutablePath(i32),
    /// This index names no debug register.
    DebugRegisterIndex(usize),
    /// A watchpoint cannot watch this number of bytes.
    WatchpointLengthValue(usize),
    /// All four hardware watchpoint slots are in use.
    MaxNumWatchpoints,
    /// The kernel refused a single step.
    SingleStep,
    /// The live region table could not be read.
    IoError(std::io::Error),
}

impl From<elf::ParseError> for Error {
    fn from(error: elf::ParseError) -> (result: Error) {
        Error::InvalidElfFile(error)
    }
}

impl vstd::std_specs::convert::FromSpecImpl<elf::ParseError> for Error {
    open spec fn obeys_from_spec() -> bool {
        true
    }

    open spec fn from_spec(error: elf::ParseError) -> Error {
        Error::InvalidElfFile(error)
    }
}

impl From<std::io::Error> for Error {
    fn from(error: std::io::Error) -> (result: Error) {
        Error::IoError(error)
    }
}

impl vstd::std_specs::convert::FromSpecImpl<std::io::Error> for Error {
    open spec fn obeys_from_spec() -> bool {
        true
    }

    open spec fn from_spec(error: std::io::Error) -> Error {
        Error::IoError(error)
    }
}

} // verus!
