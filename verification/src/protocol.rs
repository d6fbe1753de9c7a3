//! The conversation between the engine and the driver that performs its
//! kernel requests.

use vstd::prelude::*;

use crate::error::Error;
use crate::registers::Registers;
use crate::watchpoint::Watchpoint;

verus! {

/// The number of the trap signal.
pub const SIGTRAP: i32 = 5;

/// One request to the kernel's tracing interface, on the tracee.
#[derive(Debug, Clone, Copy, PartialEq, Eq)]
pub enum TraceRequest {
    /// Read the word of tracee memory at `address`.
    ReadWord { address: u64 },
    /// Write `word` to tracee memory at `address`.
    WriteWord { address: u64, word: i64 },
    /// Read the general registers.
    ReadRegisters,
    /// Write the general registers.
    WriteRegisters { registers: Registers },
    /// Read the debug register with this index from the user area.
    ReadDebugRegister { index: usize },
    /// Write `value` to the debug register with this index in the user area.
    WriteDebugRegister { index: usize, value: i64 },
    /// Let the tracee run.
    Continue,
    /// Let the tracee run for one instruction.
    SingleStep,
    /// Block until the state of the tracee changes.
    Wait,
}

/// How a wait for the tracee ended.
#[derive(Debug, Clone, Copy, PartialEq, Eq)]
pub enum TraceeStatus {
    /// The tracee exited with this code.
    Exited(i32),
    /// The tracee was stopped by the signal with this number.
    Stopped(i32),
    /// Any other change of state.
    Other,
}

/// What the driver hands back after a request.
#[derive(Debug, Clone, Copy, PartialEq, Eq)]
pub enum TraceReply {
    /// The kernel refused the request.
    Failed,
    /// A request that returns nothing was carried out.
    Done,
    /// The word that was read, from memory or from a debug register.
    Word(i64),
    /// The general registers that were read.
    Registers(Registers),
    /// The change of state that ended a wait.
    Status(TraceeStatus),
}

/// Why the tracee is stopped after it was let run.
#[derive(Debug, Clone, Copy, PartialEq, Eq)]
pub enum ContinueExecutionOutcome {
    /// The tracee exited with this code.
    ProcessExited(i32),
    /// The tracee ran into the software breakpoint at this address.
    BreakpointHit(u64),
    /// The watchpoint with this address and kind fired.
    WatchpointHit((u64, Watchpoint)),
    /// The tracee stopped for a reason that the engine does not track.
    Other,
}

/// What an operation yields when it succeeds.
#[derive(Debug, Clone, Copy, PartialEq, Eq)]
pub enum Completion {
    /// The operation yields nothing.
    Done,
    /// The instruction pointer of the tracee.
    Pc(u64),
    /// The value of a debug register.
    Register(i64),
    /// Why the tracee is stopped.
    Stopped(ContinueExecutionOutcome),
}

/// Where an operation stands: the reply that the engine waits for, and what
/// it has to remember until then.
#[derive(Debug, Clone, Copy, PartialEq, Eq)]
pub enum Pending {
    /// No operation is under way.
    Idle,
    /// Setting a breakpoint: the word at `address` is being read.
    BreakpointRead { address: u64 },
    /// Setting a breakpoint: the word read was `word`, and the patched word
    /// is being written.
    BreakpointWrite { address: u64, word: i64 },
    /// Setting a watchpoint: `address` is being written to the address
    /// register of `slot`.
    WatchpointAddress { slot: usize, address: u64, watchpoint: Watchpoint },
    /// Setting a watchpoint: the control register is being read.
    WatchpointControlRead { slot: usize, address: u64, watchpoint: Watchpoint },
    /// Setting a watchpoint: the control register is being written.
    WatchpointControlWrite { slot: usize, address: u64, watchpoint: Watchpoint },
    /// The registers are being read for the instruction pointer.
    PcRead,
    /// Moving the instruction pointer to `pc`: the registers are being read.
    PcRegistersRead { pc: u64 },
    /// Moving the instruction pointer: the registers are being written.
    PcRegistersWrite,
    /// A debug register is being read.
    DebugRegisterRead,
    /// A debug register is being written.
    DebugRegisterWrite,
    /// Stepping: a single step was asked for, and `remaining` steps are
    /// still to be finished, this one among them.
    StepIssued { remaining: u32 },
    /// Stepping: the tracee is being waited for after a single step.
    StepWait { remaining: u32 },
    /// Continuing: the tracee is being told to run.
    ContinueIssued,
    /// Continuing: the tracee runs, and is being waited for.
    ContinueWait,
    /// The tracee trapped: the debug status register is being read.
    TrapStatus,
    /// The tracee trapped on no watchpoint: the registers are being read.
    TrapRegisters,
    /// The tracee hit the breakpoint at `address`, which replaced `word`:
    /// the registers are being read.
    HitRegistersRead { address: u64, word: i64 },
    /// The instruction pointer is being moved back to the breakpoint.
    HitRegistersWrite { address: u64, word: i64 },
    /// The replaced word is being written back.
    HitRestore { address: u64 },
    /// The tracee is being told to run the restored instruction.
    HitStep { address: u64 },
    /// The tracee is being waited for after that instruction.
    HitWait { address: u64 },
    /// The breakpoint is being set again: the word at `address` is being read.
    HitRead { address: u64 },
    /// The breakpoint is being set again: the patched word is being written.
    HitWrite { address: u64, word: i64 },
}

impl Pending {
    /// The hardware slot that the operation under way is about to fill.
    pub open spec fn watchpoint_slot(self) -> Option<usize> {
        match self {
            Pending::WatchpointAddress { slot, .. } => Some(slot),
            Pending::WatchpointControlRead { slot, .. } => Some(slot),
            Pending::WatchpointControlWrite { slot, .. } => Some(slot),
            _ => None,
        }
    }
}

/// What the engine tells the driver after each call.
#[derive(Debug)]
pub enum Progress {
    /// Perform this request, and hand the reply to `Debugger::resume`.
    Request(TraceRequest),
    /// The operation is over, with this result.
    Finished(Result<Completion, Error>),
    /// No operation was under way.
    Idle,
}

} // verus!
