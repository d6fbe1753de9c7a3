//! What holds of the engine whatever the tracee does.

use vstd::prelude::*;

use crate::breakpoint::{breakpoint_word, lemma_breakpoint_word, TRAP_OPCODE};
use crate::debugger::DebuggerModel;
use crate::error::Error;
use crate::protocol::{
    Completion, ContinueExecutionOutcome, Pending, Progress, TraceReply, TraceRequest,
    TraceeStatus, SIGTRAP,
};
use crate::registers::Registers;
use crate::watchpoint::{
    armed_control, first_triggered, slot_enabled, slot_field, triggered, Watchpoint,
    MAX_WATCHPOINTS,
};

verus! {

/// The memory of the tracee once the driver has done what `progress` asks
/// for: a request to write a word changes that word, and nothing else
/// changes anything.
pub open spec fn memory_after(memory: Map<u64, i64>, progress: Progress) -> Map<u64, i64> {
    match progress {
        Progress::Request(TraceRequest::WriteWord { address, word }) => memory.insert(
            address,
            word,
        ),
        _ => memory,
    }
}

/// The control register after the driver has done what `progress` asks for.
pub open spec fn control_after(control: i64, progress: Progress) -> i64 {
    match progress {
        Progress::Request(TraceRequest::WriteDebugRegister { index, value }) => if index == 7 {
            value
        } else {
            control
        },
        _ => control,
    }
}

/// Whether the control register says of every slot what the table of
/// watchpoints says: a slot is enabled exactly when it holds a watchpoint,
/// and its field holds the condition and the length of a data watchpoint and
/// is zero otherwise.
pub open spec fn control_mirrors(control: i64, watchpoints: Map<usize, (u64, Watchpoint)>) -> bool {
    forall|slot: usize|
        slot < MAX_WATCHPOINTS ==> {
            &&& #[trigger] slot_enabled(control, slot) == watchpoints.dom().contains(slot)
            &&& slot_field(control, slot) == if watchpoints.dom().contains(slot) {
                watchpoints[slot].1.spec_field()
            } else {
                0
            }
        }
}

/// Whether every address in the table of breakpoints carries the trap
/// opcode in the memory of the tracee.
pub open spec fn traps_installed(memory: Map<u64, i64>, breakpoints: Map<u64, i64>) -> bool {
    forall|address: u64| #[trigger]
        breakpoints.dom().contains(address) ==> memory.dom().contains(address)
            && memory[address] & 0xFF == TRAP_OPCODE
}

/// No move of the engine breaks the invariant of the debugger.
pub proof fn lemma_resume_keeps_well_formed(model: DebuggerModel, reply: TraceReply)
    requires
        model.wf(),
    ensures
        model.resume(reply).0.wf(),
{
    let next = model.resume(reply).0;
    match model.pending {
        Pending::WatchpointControlWrite { slot, address, watchpoint } => {
            if reply == TraceReply::Done {
                assert(next.watchpoints == model.watchpoints.insert(slot, (address, watchpoint)));
                assert(!model.watchpoints.dom().contains(slot));
                assert(next.watchpoints.len() == model.watchpoints.len() + 1);
            }
        },
        _ => {},
    }
}

/// No operation breaks the invariant of the debugger when it begins.
pub proof fn lemma_operations_keep_well_formed(
    model: DebuggerModel,
    address: u64,
    watchpoint: Watchpoint,
    index: usize,
    data: i64,
    steps: u32,
)
    requires
        model.wf(),
    ensures
        model.set_breakpoint_at(address).0.wf(),
        model.set_breakpoint_at_text_offset(address).0.wf(),
        model.set_watchpoint_at(address, watchpoint).0.wf(),
        model.set_watchpoint_at_text_offset(address, watchpoint).0.wf(),
        model.get_tracee_pc().0.wf(),
        model.set_tracee_pc(address).0.wf(),
        model.get_debug_register(index).0.wf(),
        model.set_debug_register(index, data).0.wf(),
        model.step_instructions(steps).0.wf(),
        model.continue_execution().0.wf(),
{
}

/// A breakpoint leaves no mark once the tracee is taken past it. Let a
/// breakpoint be set at `address`, where the memory of the tracee holds some
/// word. The word written in its place is that word with the trap opcode in
/// its low byte, and the word recorded is the word that was there. When the
/// tracee later traps behind that address, on no watchpoint, the engine moves
/// the instruction pointer back to the address and writes the recorded word:
/// before the tracee takes its single step, its memory is again what it was
/// before the breakpoint was set.
pub proof fn lemma_breakpoint_round_trip(
    model: DebuggerModel,
    memory: Map<u64, i64>,
    address: u64,
    status: TraceReply,
    stopped: Registers,
    reread: Registers,
)
    requires
        memory.dom().contains(address),
        stopped.rip == address + 1,
        status matches TraceReply::Word(bits) ==> first_triggered(bits, model.watchpoints)
            is None,
    ensures
        ({
            let word = memory[address];
            let read = model.set_breakpoint_at(address);
            let write = read.0.resume(TraceReply::Word(word));
            let patched = memory_after(memory, write.1);
            let set = write.0.resume(TraceReply::Done);
            let run = set.0.continue_execution();
            let wait = run.0.resume(TraceReply::Done);
            let trap = wait.0.resume(TraceReply::Status(TraceeStatus::Stopped(SIGTRAP)));
            let locate = trap.0.resume(status);
            let hit = locate.0.resume(TraceReply::Registers(stopped));
            let rewind = hit.0.resume(TraceReply::Registers(reread));
            let restore = rewind.0.resume(TraceReply::Done);
            let restored = memory_after(patched, restore.1);
            &&& read.1 == Progress::Request(TraceRequest::ReadWord { address })
            &&& write.1 == Progress::Request(
                TraceRequest::WriteWord { address, word: breakpoint_word(word) },
            )
            &&& patched == memory.insert(address, breakpoint_word(word))
            &&& set.1 == Progress::Finished(Ok(Completion::Done))
            &&& set.0.breakpoints == model.breakpoints.insert(address, word)
            &&& rewind.1 == Progress::Request(
                TraceRequest::WriteRegisters { registers: reread.with_pc(address) },
            )
            &&& restore.1 == Progress::Request(TraceRequest::WriteWord { address, word })
            &&& restored == memory
        }),
{
    let word = memory[address];
    assert(memory.insert(address, breakpoint_word(word)).insert(address, word) =~= memory);
}

/// The word that the engine writes back over a breakpoint is the word that
/// it recorded when the breakpoint was set, and after the single step the
/// engine sets the breakpoint again and reports a hit at its address.
pub proof fn lemma_breakpoint_hit_reports_address(
    model: DebuggerModel,
    address: u64,
    stopped: Registers,
    reread: Registers,
    stepped: TraceeStatus,
    word: i64,
)
    requires
        model.pending == Pending::TrapRegisters,
        model.breakpoints.dom().contains(address),
        stopped.rip == address + 1,
    ensures
        ({
            let hit = model.resume(TraceReply::Registers(stopped));
            let rewind = hit.0.resume(TraceReply::Registers(reread));
            let restore = rewind.0.resume(TraceReply::Done);
            let step = restore.0.resume(TraceReply::Done);
            let wait = step.0.resume(TraceReply::Done);
            let read = wait.0.resume(TraceReply::Status(stepped));
            let write = read.0.resume(TraceReply::Word(word));
            let done = write.0.resume(TraceReply::Done);
            &&& restore.1 == Progress::Request(
                TraceRequest::WriteWord { address, word: model.breakpoints[address] },
            )
            &&& step.1 == Progress::Request(TraceRequest::SingleStep)
            &&& wait.1 == Progress::Request(TraceRequest::Wait)
            &&& read.1 == Progress::Request(TraceRequest::ReadWord { address })
            &&& write.1 == Progress::Request(
                TraceRequest::WriteWord { address, word: breakpoint_word(word) },
            )
            &&& done.1 == Progress::Finished(
                Ok(Completion::Stopped(ContinueExecutionOutcome::BreakpointHit(address))),
            )
            &&& done.0.breakpoints == model.breakpoints.insert(address, word)
            &&& done.0.watchpoints == model.watchpoints
            &&& done.0.pending == Pending::Idle
        }),
{
}

/// A breakpoint is set once. At an offset whose address carries a
/// breakpoint already, the operation ends at once with the collision error:
/// the engine asks nothing of the tracee, so its memory stays as it is, and
/// the table of breakpoints is unchanged.
pub proof fn lemma_breakpoint_is_unique(
    model: DebuggerModel,
    memory: Map<u64, i64>,
    text_offset: u64,
)
    requires
        model.breakpoints.dom().contains(model.text_offset_address(text_offset)),
    ensures
        ({
            let refused = model.set_breakpoint_at_text_offset(text_offset);
            &&& refused.1 == Progress::Finished(
                Err(Error::BreakpointExists(model.text_offset_address(text_offset))),
            )
            &&& refused.0.breakpoints == model.breakpoints
            &&& refused.0.watchpoints == model.watchpoints
            &&& refused.0.pending == Pending::Idle
            &&& memory_after(memory, refused.1) == memory
        }),
{
}

/// Four watchpoints are the limit. With four active, a fifth is refused
/// with the capacity error: the engine asks nothing of the tracee, and the
/// four slots stay as they are.
pub proof fn lemma_watchpoints_are_capped(
    model: DebuggerModel,
    address: u64,
    watchpoint: Watchpoint,
)
    requires
        model.wf(),
        model.watchpoints.len() == MAX_WATCHPOINTS,
    ensures
        ({
            let refused = model.set_watchpoint_at(address, watchpoint);
            &&& refused.1 == Progress::Finished(Err(Error::MaxNumWatchpoints))
            &&& refused.0.watchpoints == model.watchpoints
            &&& refused.0.watchpoints.len() == MAX_WATCHPOINTS
            &&& refused.0.breakpoints == model.breakpoints
        }),
{
}

/// With a slot free, a watchpoint goes to the first free slot: the engine
/// writes the address to the address register of that slot, reads the control
/// register, writes it back armed, and records the watchpoint there, if the
/// kernel carries out all three.
pub proof fn lemma_watchpoint_takes_first_free_slot(
    model: DebuggerModel,
    address: u64,
    watchpoint: Watchpoint,
    control: i64,
)
    requires
        model.wf(),
        model.watchpoints.len() < MAX_WATCHPOINTS,
    ensures
        ({
            let slot = model.watchpoints.len() as usize;
            let write = model.set_watchpoint_at(address, watchpoint);
            let read = write.0.resume(TraceReply::Done);
            let arm = read.0.resume(TraceReply::Word(control));
            let done = arm.0.resume(TraceReply::Done);
            &&& write.1 == Progress::Request(
                TraceRequest::WriteDebugRegister { index: slot, value: address as i64 },
            )
            &&& read.1 == Progress::Request(TraceRequest::ReadDebugRegister { index: 7 })
            &&& arm.1 == Progress::Request(
                TraceRequest::WriteDebugRegister {
                    index: 7,
                    value: armed_control(control, slot, watchpoint),
                },
            )
            &&& done.1 == Progress::Finished(Ok(Completion::Done))
            &&& done.0.watchpoints == model.watchpoints.insert(slot, (address, watchpoint))
            &&& done.0.watchpoints.len() == model.watchpoints.len() + 1
            &&& done.0.wf()
        }),
{
    let slot = model.watchpoints.len() as usize;
    assert(!model.watchpoints.dom().contains(slot));
}

/// A watchpoint whose registers cannot be written is not recorded. When the
/// kernel refuses the write of the address register, the engine asks for
/// nothing more; when it refuses the write of the control register, the
/// operation ends there. Either way the result is the register write error
/// and the table of watchpoints is what it was.
pub proof fn lemma_refused_watchpoint_is_not_recorded(
    model: DebuggerModel,
    address: u64,
    watchpoint: Watchpoint,
    refusal: TraceReply,
    control: i64,
)
    requires
        model.wf(),
        model.watchpoints.len() < MAX_WATCHPOINTS,
        refusal != TraceReply::Done,
    ensures
        ({
            let write = model.set_watchpoint_at(address, watchpoint);
            let early = write.0.resume(refusal);
            let read = write.0.resume(TraceReply::Done);
            let arm = read.0.resume(TraceReply::Word(control));
            let late = arm.0.resume(refusal);
            &&& early.1 == Progress::Finished(Err(Error::WriteRegisters))
            &&& early.0.watchpoints == model.watchpoints
            &&& early.0.pending == Pending::Idle
            &&& late.1 == Progress::Finished(Err(Error::WriteRegisters))
            &&& late.0.watchpoints == model.watchpoints
            &&& late.0.pending == Pending::Idle
        }),
{
}

/// When the tracee exits, the outcome is the exit with its code, and no
/// operation is under way afterwards.
pub proof fn lemma_exit_is_reported(model: DebuggerModel, code: i32)
    ensures
        ({
            let run = model.continue_execution();
            let wait = run.0.resume(TraceReply::Done);
            let exit = wait.0.resume(TraceReply::Status(TraceeStatus::Exited(code)));
            &&& run.1 == Progress::Request(TraceRequest::Continue)
            &&& wait.1 == Progress::Request(TraceRequest::Wait)
            &&& exit.1 == Progress::Finished(
                Ok(Completion::Stopped(ContinueExecutionOutcome::ProcessExited(code))),
            )
            &&& exit.0.pending == Pending::Idle
            &&& exit.0.breakpoints == model.breakpoints
            &&& exit.0.watchpoints == model.watchpoints
        }),
{
}

/// Of the watchpoints that a trap could be put down to, the one in the
/// lowest slot is chosen: the slot chosen has fired and holds a watchpoint,
/// no lower slot does both, and a slot is chosen whenever some slot does
/// both. The choice depends on the status and the table alone.
pub proof fn lemma_lowest_slot_wins(status: i64, watchpoints: Map<usize, (u64, Watchpoint)>)
    ensures
        first_triggered(status, watchpoints) matches Some(slot) ==> {
            &&& slot < MAX_WATCHPOINTS
            &&& triggered(status, watchpoints, slot)
            &&& forall|lower: usize| lower < slot ==> !triggered(status, watchpoints, lower)
        },
        first_triggered(status, watchpoints) is None ==> forall|slot: usize|
            slot < MAX_WATCHPOINTS ==> !triggered(status, watchpoints, slot),
{
}

/// After a trap, a watchpoint that fired in an active slot is the outcome,
/// and with two that fired it is the one in the lower slot.
pub proof fn lemma_trap_reports_lowest_watchpoint(
    model: DebuggerModel,
    status: i64,
    low: usize,
    high: usize,
)
    requires
        model.pending == Pending::TrapStatus,
        low < high < MAX_WATCHPOINTS,
        triggered(status, model.watchpoints, low),
        triggered(status, model.watchpoints, high),
        forall|lower: usize| lower < low ==> !triggered(status, model.watchpoints, lower),
    ensures
        model.resume(TraceReply::Word(status)).1 == Progress::Finished(
            Ok(
                Completion::Stopped(
                    ContinueExecutionOutcome::WatchpointHit(model.watchpoints[low]),
                ),
            ),
        ),
{
    lemma_lowest_slot_wins(status, model.watchpoints);
}

/// The control register keeps in step with the table of watchpoints. If it
/// mirrors the table before a watchpoint is set, and the driver answers the
/// read of the control register with what the register holds, then what the
/// engine writes back mirrors the table with the new watchpoint in it.
pub proof fn lemma_control_keeps_in_step(
    model: DebuggerModel,
    address: u64,
    watchpoint: Watchpoint,
    control: i64,
)
    requires
        model.wf(),
        model.watchpoints.len() < MAX_WATCHPOINTS,
        control_mirrors(control, model.watchpoints),
    ensures
        ({
            let write = model.set_watchpoint_at(address, watchpoint);
            let read = write.0.resume(TraceReply::Done);
            let arm = read.0.resume(TraceReply::Word(control));
            let done = arm.0.resume(TraceReply::Done);
            control_mirrors(control_after(control, arm.1), done.0.watchpoints)
        }),
{
    let slot = model.watchpoints.len() as usize;
    let armed = armed_control(control, slot, watchpoint);
    let table = model.watchpoints.insert(slot, (address, watchpoint));
    assert(!model.watchpoints.dom().contains(slot));
    assert forall|other: usize| other < MAX_WATCHPOINTS implies {
        &&& #[trigger] slot_enabled(armed, other) == table.dom().contains(other)
        &&& slot_field(armed, other) == if table.dom().contains(other) {
            table[other].1.spec_field()
        } else {
            0
        }
    } by {
        crate::watchpoint::lemma_armed_control(control, slot, watchpoint, other);
        assert(slot_enabled(control, other) == model.watchpoints.dom().contains(other));
    }
    let write = model.set_watchpoint_at(address, watchpoint);
    let read = write.0.resume(TraceReply::Done);
    let arm = read.0.resume(TraceReply::Word(control));
    let done = arm.0.resume(TraceReply::Done);
    assert(control_after(control, arm.1) == armed);
    assert(done.0.watchpoints == table);
}

/// Every breakpoint in the table has its trap opcode in memory, as long as
/// only the engine writes there. If that holds before a breakpoint is set,
/// it holds afterwards with the new breakpoint in the table.
pub proof fn lemma_set_breakpoint_installs_trap(
    model: DebuggerModel,
    memory: Map<u64, i64>,
    address: u64,
)
    requires
        traps_installed(memory, model.breakpoints),
        memory.dom().contains(address),
    ensures
        ({
            let read = model.set_breakpoint_at(address);
            let write = read.0.resume(TraceReply::Word(memory[address]));
            let set = write.0.resume(TraceReply::Done);
            traps_installed(memory_after(memory, write.1), set.0.breakpoints)
        }),
{
    lemma_breakpoint_word(memory[address]);
}

/// Taking the tracee past a breakpoint puts the trap opcode back. While the
/// tracee takes its single step the address holds the replaced word; once the
/// operation has ended, every breakpoint in the table has its trap opcode in
/// memory again, if the step itself wrote nothing there.
pub proof fn lemma_resumption_installs_trap_again(
    model: DebuggerModel,
    memory: Map<u64, i64>,
    address: u64,
    stopped: Registers,
    reread: Registers,
    stepped: TraceeStatus,
)
    requires
        model.pending == Pending::TrapRegisters,
        traps_installed(memory, model.breakpoints),
        model.breakpoints.dom().contains(address),
        stopped.rip == address + 1,
    ensures
        ({
            let hit = model.resume(TraceReply::Registers(stopped));
            let rewind = hit.0.resume(TraceReply::Registers(reread));
            let restore = rewind.0.resume(TraceReply::Done);
            let restored = memory_after(memory, restore.1);
            let step = restore.0.resume(TraceReply::Done);
            let wait = step.0.resume(TraceReply::Done);
            let read = wait.0.resume(TraceReply::Status(stepped));
            let write = read.0.resume(TraceReply::Word(restored[address]));
            let armed = memory_after(restored, write.1);
            let done = write.0.resume(TraceReply::Done);
            &&& restored == memory.insert(address, model.breakpoints[address])
            &&& armed == memory.insert(address, breakpoint_word(model.breakpoints[address]))
            &&& done.0.breakpoints == model.breakpoints
            &&& traps_installed(armed, done.0.breakpoints)
        }),
{
    let saved = model.breakpoints[address];
    lemma_breakpoint_word(saved);
    assert(memory.insert(address, saved).insert(address, breakpoint_word(saved))
        =~= memory.insert(address, breakpoint_word(saved)));
    assert(model.breakpoints.insert(address, saved) =~= model.breakpoints);
}

} // verus!
