//! The debugger: what it knows of its tracee, and the operations on it.

use std::collections::HashMap;
use vstd::prelude::*;

use crate::breakpoint::{breakpoint_word, trap_address};
use crate::error::Error;
use crate::memory_map::{first_executable, MemoryMap, ProcMemoryMaps};
use crate::protocol::{
    Completion, ContinueExecutionOutcome, Pending, Progress, TraceReply, TraceRequest,
    TraceeStatus, SIGTRAP,
};
use crate::watchpoint::{
    arm_control, armed_control, first_triggered, triggered, DebugRegisterOffsets, Watchpoint,
    MAX_WATCHPOINTS,
};

verus! {

broadcast use vstd::std_specs::hash::group_hash_axioms;

/// The debugger of one tracee. It is made by attachment (see
/// `crate::attach`) and from then on owns everything that is known of the
/// tracee: where the executable lies and what it holds, the identifier of the
/// process, its region table as it stood at attachment, the software
/// breakpoints and the hardware watchpoints.
#[derive(Debug)]
pub struct Debugger {
    executable_path: String,
    tracee_id: i32,
    memory_maps: ProcMemoryMaps,
    breakpoints: HashMap<u64, i64>,
    watchpoints: HashMap<usize, (u64, Watchpoint)>,
    executable_data: Vec<u8>,
    pending: Pending,
}

/// What a debugger holds, as mathematics.
pub ghost struct DebuggerModel {
    /// The path of the traced executable.
    pub executable_path: Seq<char>,
    /// The process identifier of the tracee.
    pub tracee_id: i32,
    /// The regions of the tracee at attachment.
    pub memory_maps: Seq<MemoryMap>,
    /// For each address that carries a trap opcode, the word that the
    /// patched word replaced.
    pub breakpoints: Map<u64, i64>,
    /// For each hardware slot in use, the address and the kind of its watchpoint.
    pub watchpoints: Map<usize, (u64, Watchpoint)>,
    /// The bytes of the executable.
    pub executable_data: Seq<u8>,
    /// Where the operation under way stands.
    pub pending: Pending,
}

impl DebuggerModel {
    /// What holds of every debugger: at most four watchpoints are active,
    /// they fill the slots from 0 upwards without a gap, and a watchpoint
    /// that is being set goes to the first free slot.
    pub open spec fn wf(self) -> bool {
        &&& self.watchpoints.dom().finite()
        &&& self.watchpoints.len() <= MAX_WATCHPOINTS
        &&& forall|slot: usize|
            self.watchpoints.dom().contains(slot) <==> slot < self.watchpoints.len()
        &&& self.pending.watchpoint_slot() matches Some(slot) ==> slot == self.watchpoints.len()
            && slot < MAX_WATCHPOINTS
    }

    /// Whether the tracee has a region that may be executed.
    pub open spec fn has_text_section(self) -> bool {
        first_executable(self.memory_maps, 0) < self.memory_maps.len()
    }

    /// The live address of the byte at `offset` in the executable: the
    /// offset moved by the load bias of the text section.
    pub open spec fn text_offset_address(self, offset: u64) -> u64 {
        self.memory_maps[first_executable(self.memory_maps, 0)].live_address(offset)
    }

    /// The engine asks for `request` and waits in `pending`.
    pub open spec fn ask(self, pending: Pending, request: TraceRequest) -> (
        DebuggerModel,
        Progress,
    ) {
        (DebuggerModel { pending, ..self }, Progress::Request(request))
    }

    /// The operation under way ends with `result`.
    pub open spec fn finish(self, result: Result<Completion, Error>) -> (DebuggerModel, Progress) {
        (DebuggerModel { pending: Pending::Idle, ..self }, Progress::Finished(result))
    }

    /// Begins to set a breakpoint at `address`: the word there is read first.
    pub open spec fn set_breakpoint_at(self, address: u64) -> (DebuggerModel, Progress) {
        self.ask(Pending::BreakpointRead { address }, TraceRequest::ReadWord { address })
    }

    /// Begins to set a breakpoint at an offset into the executable, unless
    /// one is tracked at that address already.
    pub open spec fn set_breakpoint_at_text_offset(self, text_offset: u64) -> (
        DebuggerModel,
        Progress,
    ) {
        let address = self.text_offset_address(text_offset);
        if self.breakpoints.dom().contains(address) {
            self.finish(Err(Error::BreakpointExists(address)))
        } else {
            self.set_breakpoint_at(address)
        }
    }

    /// Begins to set a watchpoint at `address` in the first free slot,
    /// unless all slots are in use: the address register of the slot is
    /// written first.
    pub open spec fn set_watchpoint_at(self, address: u64, watchpoint: Watchpoint) -> (
        DebuggerModel,
        Progress,
    ) {
        if self.watchpoints.len() >= MAX_WATCHPOINTS {
            self.finish(Err(Error::MaxNumWatchpoints))
        } else {
            let slot = self.watchpoints.len() as usize;
            self.ask(
                Pending::WatchpointAddress { slot, address, watchpoint },
                TraceRequest::WriteDebugRegister { index: slot, value: address as i64 },
            )
        }
    }

    /// Begins to set a watchpoint at an offset into the executable.
    pub open spec fn set_watchpoint_at_text_offset(
        self,
        text_offset: u64,
        watchpoint: Watchpoint,
    ) -> (DebuggerModel, Progress) {
        self.set_watchpoint_at(self.text_offset_address(text_offset), watchpoint)
    }

    /// Begins to read the instruction pointer.
    pub open spec fn get_tracee_pc(self) -> (DebuggerModel, Progress) {
        self.ask(Pending::PcRead, TraceRequest::ReadRegisters)
    }

    /// Begins to move the instruction pointer to `new_pc`.
    pub open spec fn set_tracee_pc(self, new_pc: u64) -> (DebuggerModel, Progress) {
        self.ask(Pending::PcRegistersRead { pc: new_pc }, TraceRequest::ReadRegisters)
    }

    /// Begins to read the debug register with this index.
    pub open spec fn get_debug_register(self, index: usize) -> (DebuggerModel, Progress) {
        self.ask(Pending::DebugRegisterRead, TraceRequest::ReadDebugRegister { index })
    }

    /// Begins to write `data` to the debug register with this index.
    pub open spec fn set_debug_register(self, index: usize, data: i64) -> (
        DebuggerModel,
        Progress,
    ) {
        self.ask(
            Pending::DebugRegisterWrite,
            TraceRequest::WriteDebugRegister { index, value: data },
        )
    }

    /// Begins `steps` single steps; with none to take, the instruction
    /// pointer is read at once.
    pub open spec fn step_instructions(self, steps: u32) -> (DebuggerModel, Progress) {
        if steps == 0 {
            self.get_tracee_pc()
        } else {
            self.ask(Pending::StepIssued { remaining: steps }, TraceRequest::SingleStep)
        }
    }

    /// Begins to let the tracee run.
    pub open spec fn continue_execution(self) -> (DebuggerModel, Progress) {
        self.ask(Pending::ContinueIssued, TraceRequest::Continue)
    }

    /// How a wait after the tracee was let run is read. An exit ends the
    /// operation; so does every stop but a trap. After a trap the debug
    /// status register is read.
    pub open spec fn stopped(self, reply: TraceReply) -> (DebuggerModel, Progress) {
        match reply {
            TraceReply::Status(TraceeStatus::Exited(code)) => self.finish(
                Ok(Completion::Stopped(ContinueExecutionOutcome::ProcessExited(code))),
            ),
            TraceReply::Status(TraceeStatus::Stopped(signal)) => if signal == SIGTRAP {
                self.ask(
                    Pending::TrapStatus,
                    TraceRequest::ReadDebugRegister {
                        index: DebugRegisterOffsets::DebugStatus.index(),
                    },
                )
            } else {
                self.finish(Ok(Completion::Stopped(ContinueExecutionOutcome::Other)))
            },
            TraceReply::Status(TraceeStatus::Other) => self.finish(
                Ok(Completion::Stopped(ContinueExecutionOutcome::Other)),
            ),
            _ => self.finish(Err(Error::ContinueExecution)),
        }
    }

    /// How the debug status register is read after a trap. If it names an
    /// active watchpoint, the one in the lowest slot is the outcome. If it
    /// names none, or could not be read, the registers are read next.
    pub open spec fn trapped(self, reply: TraceReply) -> (DebuggerModel, Progress) {
        match reply {
            TraceReply::Word(status) => match first_triggered(status, self.watchpoints) {
                Some(slot) => self.finish(
                    Ok(
                        Completion::Stopped(
                            ContinueExecutionOutcome::WatchpointHit(self.watchpoints[slot]),
                        ),
                    ),
                ),
                None => self.ask(Pending::TrapRegisters, TraceRequest::ReadRegisters),
            },
            _ => self.ask(Pending::TrapRegisters, TraceRequest::ReadRegisters),
        }
    }

    /// How the registers are read after a trap that no watchpoint explains.
    /// If the address before the instruction pointer carries a breakpoint,
    /// the tracee is taken past it, beginning with another read of the
    /// registers; if not, the stop is put down to something else.
    pub open spec fn located(self, reply: TraceReply) -> (DebuggerModel, Progress) {
        match reply {
            TraceReply::Registers(registers) => match trap_address(registers.rip) {
                Some(address) => if self.breakpoints.dom().contains(address) {
                    self.ask(
                        Pending::HitRegistersRead { address, word: self.breakpoints[address] },
                        TraceRequest::ReadRegisters,
                    )
                } else {
                    self.finish(Ok(Completion::Stopped(ContinueExecutionOutcome::Other)))
                },
                None => self.finish(Ok(Completion::Stopped(ContinueExecutionOutcome::Other))),
            },
            _ => self.finish(Err(Error::ReadRegisters)),
        }
    }

    /// The next move of the engine after `reply`. A reply of another kind
    /// than the request calls for counts as a refusal.
    pub open spec fn resume(self, reply: TraceReply) -> (DebuggerModel, Progress) {
        match self.pending {
            Pending::Idle => (self, Progress::Idle),
            Pending::BreakpointRead { address } => match reply {
                TraceReply::Word(word) => self.ask(
                    Pending::BreakpointWrite { address, word },
                    TraceRequest::WriteWord { address, word: breakpoint_word(word) },
                ),
                _ => self.finish(Err(Error::ReadMemory(address))),
            },
            Pending::BreakpointWrite { address, word } => match reply {
                TraceReply::Done => DebuggerModel {
                    breakpoints: self.breakpoints.insert(address, word),
                    ..self
                }.finish(Ok(Completion::Done)),
                _ => self.finish(Err(Error::WriteMemory(address))),
            },
            Pending::WatchpointAddress { slot, address, watchpoint } => match reply {
                TraceReply::Done => self.ask(
                    Pending::WatchpointControlRead { slot, address, watchpoint },
                    TraceRequest::ReadDebugRegister {
                        index: DebugRegisterOffsets::DebugControl.index(),
                    },
                ),
                _ => self.finish(Err(Error::WriteRegisters)),
            },
            Pending::WatchpointControlRead { slot, address, watchpoint } => match reply {
                TraceReply::Word(control) => self.ask(
                    Pending::WatchpointControlWrite { slot, address, watchpoint },
                    TraceRequest::WriteDebugRegister {
                        index: DebugRegisterOffsets::DebugControl.index(),
                        value: armed_control(control, slot, watchpoint),
                    },
                ),
                _ => self.finish(Err(Error::ReadRegisters)),
            },
            Pending::WatchpointControlWrite { slot, address, watchpoint } => match reply {
                TraceReply::Done => DebuggerModel {
                    watchpoints: self.watchpoints.insert(slot, (address, watchpoint)),
                    ..self
                }.finish(Ok(Completion::Done)),
                _ => self.finish(Err(Error::WriteRegisters)),
            },
            Pending::PcRead => match reply {
                TraceReply::Registers(registers) => self.finish(
                    Ok(Completion::Pc(registers.rip)),
                ),
                _ => self.finish(Err(Error::ReadRegisters)),
            },
            Pending::PcRegistersRead { pc } => match reply {
                TraceReply::Registers(registers) => self.ask(
                    Pending::PcRegistersWrite,
                    TraceRequest::WriteRegisters { registers: registers.with_pc(pc) },
                ),
                _ => self.finish(Err(Error::ReadRegisters)),
            },
            Pending::PcRegistersWrite => match reply {
                TraceReply::Done => self.finish(Ok(Completion::Done)),
                _ => self.finish(Err(Error::WriteRegisters)),
            },
            Pending::DebugRegisterRead => match reply {
                TraceReply::Word(value) => self.finish(Ok(Completion::Register(value))),
                _ => self.finish(Err(Error::ReadRegisters)),
            },
            Pending::DebugRegisterWrite => match reply {
                TraceReply::Done => self.finish(Ok(Completion::Done)),
                _ => self.finish(Err(Error::WriteRegisters)),
            },
            Pending::StepIssued { remaining } => match reply {
                TraceReply::Done => self.ask(Pending::StepWait { remaining }, TraceRequest::Wait),
                _ => self.finish(Err(Error::SingleStep)),
            },
            Pending::StepWait { remaining } => match reply {
                TraceReply::Status(_) => if remaining > 1 {
                    self.ask(
                        Pending::StepIssued { remaining: (remaining - 1) as u32 },
                        TraceRequest::SingleStep,
                    )
                } else {
                    self.get_tracee_pc()
                },
                _ => self.finish(Err(Error::ContinueExecution)),
            },
            Pending::ContinueIssued => match reply {
                TraceReply::Done => self.ask(Pending::ContinueWait, TraceRequest::Wait),
                _ => self.finish(Err(Error::ContinueExecution)),
            },
            Pending::ContinueWait => self.stopped(reply),
            Pending::TrapStatus => self.trapped(reply),
            Pending::TrapRegisters => self.located(reply),
            Pending::HitRegistersRead { address, word } => match reply {
                TraceReply::Registers(registers) => self.ask(
                    Pending::HitRegistersWrite { address, word },
                    TraceRequest::WriteRegisters { registers: registers.with_pc(address) },
                ),
                _ => self.finish(Err(Error::ReadRegisters)),
            },
            Pending::HitRegistersWrite { address, word } => match reply {
                TraceReply::Done => self.ask(
                    Pending::HitRestore { address },
                    TraceRequest::WriteWord { address, word },
                ),
                _ => self.finish(Err(Error::WriteRegisters)),
            },
            Pending::HitRestore { address } => match reply {
                TraceReply::Done => self.ask(
                    Pending::HitStep { address },
                    TraceRequest::SingleStep,
                ),
                _ => self.finish(Err(Error::WriteMemory(address))),
            },
            Pending::HitStep { address } => match reply {
                TraceReply::Done => self.ask(Pending::HitWait { address }, TraceRequest::Wait),
                _ => self.finish(Err(Error::ContinueExecution)),
            },
            Pending::HitWait { address } => match reply {
                TraceReply::Status(_) => self.ask(
                    Pending::HitRead { address },
                    TraceRequest::ReadWord { address },
                ),
                _ => self.finish(Err(Error::ContinueExecution)),
            },
            Pending::HitRead { address } => match reply {
                TraceReply::Word(word) => self.ask(
                    Pending::HitWrite { address, word },
                    TraceRequest::WriteWord { address, word: breakpoint_word(word) },
                ),
                _ => self.finish(Err(Error::ReadMemory(address))),
            },
            Pending::HitWrite { address, word } => match reply {
                TraceReply::Done => DebuggerModel {
                    breakpoints: self.breakpoints.insert(address, word),
                    ..self
                }.finish(Ok(Completion::Stopped(ContinueExecutionOutcome::BreakpointHit(address)))),
                _ => self.finish(Err(Error::WriteMemory(address))),
            },
        }
    }
}

impl View for Debugger {
    type V = DebuggerModel;

    closed spec fn view(&self) -> DebuggerModel {
        DebuggerModel {
            executable_path: self.executable_path@,
            tracee_id: self.tracee_id,
            memory_maps: self.memory_maps@,
            breakpoints: self.breakpoints@,
            watchpoints: self.watchpoints@,
            executable_data: self.executable_data@,
            pending: self.pending,
        }
    }
}

impl Debugger {
    #[verifier::type_invariant]
    spec fn well_formed(self) -> bool {
        self@.wf()
    }

    /// The debugger of the process `tracee_id`, which runs the executable at
    /// `executable_path` with the bytes `executable_data` and has the regions
    /// `memory_maps`. Nothing is tracked yet and no operation is under way.
    pub fn new(
        executable_path: String,
        tracee_id: i32,
        memory_maps: ProcMemoryMaps,
        executable_data: Vec<u8>,
    ) -> (debugger: Debugger)
        ensures
            debugger@ == (DebuggerModel {
                executable_path: executable_path@,
                tracee_id,
                memory_maps: memory_maps@,
                breakpoints: Map::empty(),
                watchpoints: Map::empty(),
                executable_data: executable_data@,
                pending: Pending::Idle,
            }),
            debugger@.wf(),
    {
        Debugger {
            executable_path,
            tracee_id,
            memory_maps,
            breakpoints: HashMap::new(),
            watchpoints: HashMap::new(),
            executable_data,
            pending: Pending::Idle,
        }
    }

    fn ask(&mut self, pending: Pending, request: TraceRequest) -> (progress: Progress)
        requires
            pending.watchpoint_slot() matches Some(slot) ==> slot == old(self)@.watchpoints.len()
                && slot < MAX_WATCHPOINTS,
        ensures
            (final(self)@, progress) == old(self)@.ask(pending, request),
    {
        proof {
            use_type_invariant(&*self);
        }
        self.pending = pending;
        Progress::Request(request)
    }

    fn finish(&mut self, result: Result<Completion, Error>) -> (progress: Progress)
        ensures
            (final(self)@, progress) == old(self)@.finish(result),
    {
        proof {
            use_type_invariant(&*self);
        }
        self.pending = Pending::Idle;
        Progress::Finished(result)
    }

    fn record_breakpoint(&mut self, address: u64, word: i64)
        ensures
            final(self)@ == (DebuggerModel {
                breakpoints: old(self)@.breakpoints.insert(address, word),
                ..old(self)@
            }),
    {
        proof {
            use_type_invariant(&*self);
        }
        let mut breakpoints = HashMap::new();
        std::mem::swap(&mut breakpoints, &mut self.breakpoints);
        breakpoints.insert(address, word);
        self.breakpoints = breakpoints;
    }

    fn record_watchpoint(&mut self, slot: usize, address: u64, watchpoint: Watchpoint)
        requires
            old(self)@.pending.watchpoint_slot() == Some(slot),
        ensures
            final(self)@ == (DebuggerModel {
                watchpoints: old(self)@.watchpoints.insert(slot, (address, watchpoint)),
                pending: Pending::Idle,
                ..old(self)@
            }),
    {
        proof {
            use_type_invariant(&*self);
        }
        self.pending = Pending::Idle;
        let mut watchpoints = HashMap::new();
        std::mem::swap(&mut watchpoints, &mut self.watchpoints);
        watchpoints.insert(slot, (address, watchpoint));
        self.watchpoints = watchpoints;
    }

    /// The watchpoint that a trap with this debug status is put down to.
    fn triggered_watchpoint(&self, status: i64) -> (hit: Option<(u64, Watchpoint)>)
        ensures
            hit == match first_triggered(status, self@.watchpoints) {
                Some(slot) => Some(self@.watchpoints[slot]),
                None => None,
            },
    {
        let mut slot: usize = 0;
        while slot < MAX_WATCHPOINTS
            invariant
                slot <= MAX_WATCHPOINTS,
                forall|earlier: usize|
                    earlier < slot ==> !triggered(status, self@.watchpoints, earlier),
            decreases MAX_WATCHPOINTS - slot,
        {
            if status & (1i64 << (slot as u64)) != 0 {
                if let Some(found) = self.watchpoints.get(&slot) {
                    return Some(*found);
                }
            }
            slot += 1;
        }
        None
    }

    /// The process identifier of the tracee.
    pub fn tracee_id(&self) -> (tracee_id: i32)
        ensures
            tracee_id == self@.tracee_id,
    {
        self.tracee_id
    }

    /// The path of the traced executable.
    pub fn executable_path(&self) -> (path: &str)
        ensures
            path@ == self@.executable_path,
    {
        self.executable_path.as_str()
    }

    /// The bytes of the traced executable.
    pub fn executable_data(&self) -> (data: &[u8])
        ensures
            data@ == self@.executable_data,
    {
        self.executable_data.as_slice()
    }

    /// The regions of the tracee at attachment.
    pub fn memory_maps(&self) -> (table: &ProcMemoryMaps)
        ensures
            table@ == self@.memory_maps,
    {
        &self.memory_maps
    }

    /// Where the operation under way stands.
    pub fn pending(&self) -> (pending: Pending)
        ensures
            pending == self@.pending,
    {
        self.pending
    }

    /// The word that the breakpoint at `address` replaced, if one is tracked there.
    pub fn breakpoint_at(&self, address: u64) -> (word: Option<i64>)
        ensures
            word == if self@.breakpoints.dom().contains(address) {
                Some(self@.breakpoints[address])
            } else {
                None
            },
    {
        match self.breakpoints.get(&address) {
            Some(word) => Some(*word),
            None => None,
        }
    }

    /// The number of breakpoints that are tracked.
    pub fn breakpoint_count(&self) -> (count: usize)
        ensures
            count == self@.breakpoints.len(),
    {
        self.breakpoints.len()
    }

    /// The watchpoint in `slot`, if the slot is in use.
    pub fn watchpoint_at(&self, slot: usize) -> (watchpoint: Option<(u64, Watchpoint)>)
        ensures
            watchpoint == if self@.watchpoints.dom().contains(slot) {
                Some(self@.watchpoints[slot])
            } else {
                None
            },
            self@.wf(),
    {
        proof {
            use_type_invariant(self);
        }
        match self.watchpoints.get(&slot) {
            Some(watchpoint) => Some(*watchpoint),
            None => None,
        }
    }

    /// The number of hardware slots in use.
    pub fn watchpoint_count(&self) -> (count: usize)
        ensures
            count == self@.watchpoints.len(),
            count <= MAX_WATCHPOINTS,
            self@.wf(),
    {
        proof {
            use_type_invariant(self);
        }
        self.watchpoints.len()
    }

    /// Whether the tracee has a text section, which the operations on
    /// offsets into the executable depend on.
    pub fn has_text_section(&self) -> (found: bool)
        ensures
            found == self@.has_text_section(),
    {
        self.memory_maps.has_text_section()
    }

    /// The live address of the byte at `offset` in the executable: the
    /// offset moved by the load bias of the text section,
    /// `range_from - offset_of_region + offset`. Offsets are resolved against
    /// the regions as they stood at attachment.
    pub fn get_text_offset_address(&self, offset: u64) -> (address: u64)
        requires
            self@.has_text_section(),
        ensures
            address == self@.text_offset_address(offset),
    {
        self.memory_maps.get_text_section().live_address(offset)
    }

    /// Begins to set a software breakpoint at `breakpoint_address`. The
    /// engine asks for the word there, then asks to write it back with its
    /// low byte replaced by the trap opcode, then records the word that was
    /// read. An address that is tracked already is patched again.
    pub fn set_breakpoint_at(&mut self, breakpoint_address: u64) -> (progress: Progress)
        ensures
            (final(self)@, progress) == old(self)@.set_breakpoint_at(breakpoint_address),
            final(self)@.wf(),
    {
        let progress = self.ask(
            Pending::BreakpointRead { address: breakpoint_address },
            TraceRequest::ReadWord { address: breakpoint_address },
        );
        proof {
            use_type_invariant(&*self);
        }
        progress
    }

    /// Begins to set a software breakpoint at an offset into the
    /// executable. Where the address is tracked already the operation ends
    /// at once with `Error::BreakpointExists`, and nothing is asked of the
    /// tracee.
    pub fn set_breakpoint_at_text_offset(&mut self, text_offset: u64) -> (progress: Progress)
        requires
            old(self)@.has_text_section(),
        ensures
            (final(self)@, progress) == old(self)@.set_breakpoint_at_text_offset(text_offset),
            final(self)@.wf(),
    {
        let breakpoint_address = self.get_text_offset_address(text_offset);
        let progress = if self.breakpoints.contains_key(&breakpoint_address) {
            self.finish(Err(Error::BreakpointExists(breakpoint_address)))
        } else {
            self.set_breakpoint_at(breakpoint_address)
        };
        proof {
            use_type_invariant(&*self);
        }
        progress
    }

    /// Begins to set a hardware watchpoint at `address`. With four
    /// watchpoints active the operation ends at once with
    /// `Error::MaxNumWatchpoints`, and nothing is asked of the tracee.
    /// Otherwise the engine asks to write the address to the address
    /// register of the first free slot, then for the control register, then
    /// to write the control register back with the slot armed, and then
    /// records the watchpoint. A refused write of either register ends the
    /// operation with `Error::WriteRegisters`, a refused read with
    /// `Error::ReadRegisters`, and the slot stays free.
    pub fn set_watchpoint_at(&mut self, address: u64, watchpoint: Watchpoint) -> (progress: Progress)
        ensures
            (final(self)@, progress) == old(self)@.set_watchpoint_at(address, watchpoint),
            final(self)@.wf(),
    {
        proof {
            use_type_invariant(&*self);
        }
        let number_watchpoints = self.watchpoints.len();
        let progress = if number_watchpoints == MAX_WATCHPOINTS {
            self.finish(Err(Error::MaxNumWatchpoints))
        } else {
            self.ask(
                Pending::WatchpointAddress { slot: number_watchpoints, address, watchpoint },
                TraceRequest::WriteDebugRegister {
                    index: number_watchpoints,
                    value: address as i64,
                },
            )
        };
        proof {
            use_type_invariant(&*self);
        }
        progress
    }

    /// Begins to set a hardware watchpoint at an offset into the executable.
    pub fn set_watchpoint_at_text_offset(
        &mut self,
        text_offset: u64,
        watchpoint: Watchpoint,
    ) -> (progress: Progress)
        requires
            old(self)@.has_text_section(),
        ensures
            (final(self)@, progress) == old(self)@.set_watchpoint_at_text_offset(
                text_offset,
                watchpoint,
            ),
            final(self)@.wf(),
    {
        let address = self.get_text_offset_address(text_offset);
        self.set_watchpoint_at(address, watchpoint)
    }

    /// Begins to read the instruction pointer of the tracee.
    pub fn get_tracee_pc(&mut self) -> (progress: Progress)
        ensures
            (final(self)@, progress) == old(self)@.get_tracee_pc(),
            final(self)@.wf(),
    {
        let progress = self.ask(Pending::PcRead, TraceRequest::ReadRegisters);
        proof {
            use_type_invariant(&*self);
        }
        progress
    }

    /// Begins to move the instruction pointer of the tracee to `new_pc`:
    /// the registers are read, and written back with only `rip` changed.
    pub fn set_tracee_pc(&mut self, new_pc: u64) -> (progress: Progress)
        ensures
            (final(self)@, progress) == old(self)@.set_tracee_pc(new_pc),
            final(self)@.wf(),
    {
        let progress = self.ask(
            Pending::PcRegistersRead { pc: new_pc },
            TraceRequest::ReadRegisters,
        );
        proof {
            use_type_invariant(&*self);
        }
        progress
    }

    /// Begins to read the debug register with this index. The index is
    /// handed to the kernel as it is.
    pub fn get_debug_register(&mut self, index: usize) -> (progress: Progress)
        ensures
            (final(self)@, progress) == old(self)@.get_debug_register(index),
            final(self)@.wf(),
    {
        let progress = self.ask(
            Pending::DebugRegisterRead,
            TraceRequest::ReadDebugRegister { index },
        );
        proof {
            use_type_invariant(&*self);
        }
        progress
    }

    /// Begins to write `data` to the debug register with this index.
    pub fn set_debug_register(&mut self, index: usize, data: i64) -> (progress: Progress)
        ensures
            (final(self)@, progress) == old(self)@.set_debug_register(index, data),
            final(self)@.wf(),
    {
        let progress = self.ask(
            Pending::DebugRegisterWrite,
            TraceRequest::WriteDebugRegister { index, value: data },
        );
        proof {
            use_type_invariant(&*self);
        }
        progress
    }

    /// Begins to read the debug control register.
    pub fn get_debug_control(&mut self) -> (progress: Progress)
        ensures
            (final(self)@, progress) == old(self)@.get_debug_register(
                DebugRegisterOffsets::DebugControl.index(),
            ),
            final(self)@.wf(),
    {
        self.get_debug_register(DebugRegisterOffsets::DebugControl.index())
    }

    /// Begins to write `value` to the debug control register.
    pub fn set_debug_control(&mut self, value: i64) -> (progress: Progress)
        ensures
            (final(self)@, progress) == old(self)@.set_debug_register(
                DebugRegisterOffsets::DebugControl.index(),
                value,
            ),
            final(self)@.wf(),
    {
        self.set_debug_register(DebugRegisterOffsets::DebugControl.index(), value)
    }

    /// Begins to read the debug status register.
    pub fn get_debug_status(&mut self) -> (progress: Progress)
        ensures
            (final(self)@, progress) == old(self)@.get_debug_register(
                DebugRegisterOffsets::DebugStatus.index(),
            ),
            final(self)@.wf(),
    {
        self.get_debug_register(DebugRegisterOffsets::DebugStatus.index())
    }

    /// Begins `steps` single steps of the tracee. After each step the
    /// engine waits for the tracee, whatever the wait reports; after the
    /// last it reads the instruction pointer, which is the result.
    pub fn step_instructions(&mut self, steps: u32) -> (progress: Progress)
        ensures
            (final(self)@, progress) == old(self)@.step_instructions(steps),
            final(self)@.wf(),
    {
        if steps == 0 {
            self.get_tracee_pc()
        } else {
            let progress = self.ask(
                Pending::StepIssued { remaining: steps },
                TraceRequest::SingleStep,
            );
            proof {
                use_type_invariant(&*self);
            }
            progress
        }
    }

    /// Begins to let the tracee run until it stops or exits.
    pub fn continue_execution(&mut self) -> (progress: Progress)
        ensures
            (final(self)@, progress) == old(self)@.continue_execution(),
            final(self)@.wf(),
    {
        let progress = self.ask(Pending::ContinueIssued, TraceRequest::Continue);
        proof {
            use_type_invariant(&*self);
        }
        progress
    }

    fn stopped(&mut self, reply: TraceReply) -> (progress: Progress)
        ensures
            (final(self)@, progress) == old(self)@.stopped(reply),
    {
        match reply {
            TraceReply::Status(TraceeStatus::Exited(code)) => self.finish(
                Ok(Completion::Stopped(ContinueExecutionOutcome::ProcessExited(code))),
            ),
            TraceReply::Status(TraceeStatus::Stopped(signal)) => {
                if signal == SIGTRAP {
                    self.ask(
                        Pending::TrapStatus,
                        TraceRequest::ReadDebugRegister {
                            index: DebugRegisterOffsets::DebugStatus.index(),
                        },
                    )
                } else {
                    self.finish(Ok(Completion::Stopped(ContinueExecutionOutcome::Other)))
                }
            },
            TraceReply::Status(TraceeStatus::Other) => self.finish(
                Ok(Completion::Stopped(ContinueExecutionOutcome::Other)),
            ),
            _ => self.finish(Err(Error::ContinueExecution)),
        }
    }

    fn trapped(&mut self, reply: TraceReply) -> (progress: Progress)
        ensures
            (final(self)@, progress) == old(self)@.trapped(reply),
    {
        match reply {
            TraceReply::Word(status) => match self.triggered_watchpoint(status) {
                Some(hit) => self.finish(
                    Ok(Completion::Stopped(ContinueExecutionOutcome::WatchpointHit(hit))),
                ),
                None => self.ask(Pending::TrapRegisters, TraceRequest::ReadRegisters),
            },
            _ => self.ask(Pending::TrapRegisters, TraceRequest::ReadRegisters),
        }
    }

    fn located(&mut self, reply: TraceReply) -> (progress: Progress)
        ensures
            (final(self)@, progress) == old(self)@.located(reply),
    {
        match reply {
            TraceReply::Registers(registers) => {
                let known = match trap_address(registers.rip) {
                    Some(address) => match self.breakpoints.get(&address) {
                        Some(word) => Some((address, *word)),
                        None => None,
                    },
                    None => None,
                };
                match known {
                    Some((address, word)) => self.ask(
                        Pending::HitRegistersRead { address, word },
                        TraceRequest::ReadRegisters,
                    ),
                    None => self.finish(
                        Ok(Completion::Stopped(ContinueExecutionOutcome::Other)),
                    ),
                }
            },
            _ => self.finish(Err(Error::ReadRegisters)),
        }
    }

    /// Takes the reply to the request that the engine asked for last, and
    /// says what comes next: another request, or the result of the
    /// operation. A reply of another kind than the request calls for counts
    /// as a refusal. With no operation under way the answer is
    /// `Progress::Idle` and nothing changes.
    pub fn resume(&mut self, reply: TraceReply) -> (progress: Progress)
        ensures
            (final(self)@, progress) == old(self)@.resume(reply),
            final(self)@.wf(),
    {
        proof {
            use_type_invariant(&*self);
        }
        let progress = match self.pending {
            Pending::Idle => Progress::Idle,
            Pending::BreakpointRead { address } => match reply {
                TraceReply::Word(word) => self.ask(
                    Pending::BreakpointWrite { address, word },
                    TraceRequest::WriteWord { address, word: breakpoint_word(word) },
                ),
                _ => self.finish(Err(Error::ReadMemory(address))),
            },
            Pending::BreakpointWrite { address, word } => match reply {
                TraceReply::Done => {
                    self.record_breakpoint(address, word);
                    self.finish(Ok(Completion::Done))
                },
                _ => self.finish(Err(Error::WriteMemory(address))),
            },
            Pending::WatchpointAddress { slot, address, watchpoint } => match reply {
                TraceReply::Done => self.ask(
                    Pending::WatchpointControlRead { slot, address, watchpoint },
                    TraceRequest::ReadDebugRegister {
                        index: DebugRegisterOffsets::DebugControl.index(),
                    },
                ),
                _ => self.finish(Err(Error::WriteRegisters)),
            },
            Pending::WatchpointControlRead { slot, address, watchpoint } => match reply {
                TraceReply::Word(control) => self.ask(
                    Pending::WatchpointControlWrite { slot, address, watchpoint },
                    TraceRequest::WriteDebugRegister {
                        index: DebugRegisterOffsets::DebugControl.index(),
                        value: arm_control(control, slot, watchpoint),
                    },
                ),
                _ => self.finish(Err(Error::ReadRegisters)),
            },
            Pending::WatchpointControlWrite { slot, address, watchpoint } => match reply {
                TraceReply::Done => {
                    self.record_watchpoint(slot, address, watchpoint);
                    self.finish(Ok(Completion::Done))
                },
                _ => self.finish(Err(Error::WriteRegisters)),
            },
            Pending::PcRead => match reply {
                TraceReply::Registers(registers) => self.finish(
                    Ok(Completion::Pc(registers.rip)),
                ),
                _ => self.finish(Err(Error::ReadRegisters)),
            },
            Pending::PcRegistersRead { pc } => match reply {
                TraceReply::Registers(registers) => self.ask(
                    Pending::PcRegistersWrite,
                    TraceRequest::WriteRegisters { registers: registers.with_pc(pc) },
                ),
                _ => self.finish(Err(Error::ReadRegisters)),
            },
            Pending::PcRegistersWrite => match reply {
                TraceReply::Done => self.finish(Ok(Completion::Done)),
                _ => self.finish(Err(Error::WriteRegisters)),
            },
            Pending::DebugRegisterRead => match reply {
                TraceReply::Word(value) => self.finish(Ok(Completion::Register(value))),
                _ => self.finish(Err(Error::ReadRegisters)),
            },
            Pending::DebugRegisterWrite => match reply {
                TraceReply::Done => self.finish(Ok(Completion::Done)),
                _ => self.finish(Err(Error::WriteRegisters)),
            },
            Pending::StepIssued { remaining } => match reply {
                TraceReply::Done => self.ask(Pending::StepWait { remaining }, TraceRequest::Wait),
                _ => self.finish(Err(Error::SingleStep)),
            },
            Pending::StepWait { remaining } => match reply {
                TraceReply::Status(_) => {
                    if remaining > 1 {
                        self.ask(
                            Pending::StepIssued { remaining: remaining - 1 },
                            TraceRequest::SingleStep,
                        )
                    } else {
                        self.ask(Pending::PcRead, TraceRequest::ReadRegisters)
                    }
                },
                _ => self.finish(Err(Error::ContinueExecution)),
            },
            Pending::ContinueIssued => match reply {
                TraceReply::Done => self.ask(Pending::ContinueWait, TraceRequest::Wait),
                _ => self.finish(Err(Error::ContinueExecution)),
            },
            Pending::ContinueWait => self.stopped(reply),
            Pending::TrapStatus => self.trapped(reply),
            Pending::TrapRegisters => self.located(reply),
            Pending::HitRegistersRead { address, word } => match reply {
                TraceReply::Registers(registers) => self.ask(
                    Pending::HitRegistersWrite { address, word },
                    TraceRequest::WriteRegisters { registers: registers.with_pc(address) },
                ),
                _ => self.finish(Err(Error::ReadRegisters)),
            },
            Pending::HitRegistersWrite { address, word } => match reply {
                TraceReply::Done => self.ask(
                    Pending::HitRestore { address },
                    TraceRequest::WriteWord { address, word },
                ),
                _ => self.finish(Err(Error::WriteRegisters)),
            },
            Pending::HitRestore { address } => match reply {
                TraceReply::Done => self.ask(
                    Pending::HitStep { address },
                    TraceRequest::SingleStep,
                ),
                _ => self.finish(Err(Error::WriteMemory(address))),
            },
            Pending::HitStep { address } => match reply {
                TraceReply::Done => self.ask(Pending::HitWait { address }, TraceRequest::Wait),
                _ => self.finish(Err(Error::ContinueExecution)),
            },
            Pending::HitWait { address } => match reply {
                TraceReply::Status(_) => self.ask(
                    Pending::HitRead { address },
                    TraceRequest::ReadWord { address },
                ),
                _ => self.finish(Err(Error::ContinueExecution)),
            },
            Pending::HitRead { address } => match reply {
                TraceReply::Word(word) => self.ask(
                    Pending::HitWrite { address, word },
                    TraceRequest::WriteWord { address, word: breakpoint_word(word) },
                ),
                _ => self.finish(Err(Error::ReadMemory(address))),
            },
            Pending::HitWrite { address, word } => match reply {
                TraceReply::Done => {
                    self.record_breakpoint(address, word);
                    self.finish(
                        Ok(Completion::Stopped(ContinueExecutionOutcome::BreakpointHit(address))),
                    )
                },
                _ => self.finish(Err(Error::WriteMemory(address))),
            },
        };
        proof {
            use_type_invariant(&*self);
        }
        progress
    }
}

} // verus!
