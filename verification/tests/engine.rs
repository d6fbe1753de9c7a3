use std::collections::HashMap;

use debugger_core::breakpoint::breakpoint_word;
use debugger_core::memory_map::ProcMemoryMaps;
use debugger_core::protocol::{
    Completion, ContinueExecutionOutcome, Pending, Progress, TraceReply, TraceRequest,
    TraceeStatus, SIGTRAP,
};
use debugger_core::registers::Registers;
use debugger_core::watchpoint::{Watchpoint, WatchpointDataCondition, WatchpointLength};
use debugger_core::{Debugger, Error};

const MAPS: &str = "\
00400000-00401000 r--p 00000000 08:01 7 /usr/bin/prog
00401000-00402000 r-xp 00000000 08:01 7 /usr/bin/prog
00404000-00405000 rw-p 00003000 08:01 7 /usr/bin/prog
";

const FN_C: u64 = 0x40118f;
const WORD_AT_FN_C: i64 = 0x0000_4855_89e5_4883u64 as i64 | 0x55;
const STEP: u64 = 4;

/// What the tracee does next when it is let run.
#[derive(Debug, Clone, Copy)]
enum Run {
    /// It executes the trap opcode at this address.
    Trap(u64),
    /// The watchpoints in these slots fire while it stands at this address.
    Watch(i64, u64),
    /// It exits with this code.
    Exit(i32),
    /// Another signal stops it.
    Signal(i32),
    /// The wait fails.
    Lost,
}

/// A tracee that lives in the test: memory, registers, debug registers, and
/// a script of what happens each time it is let run.
struct Tracee {
    memory: HashMap<u64, i64>,
    registers: Registers,
    debug: [i64; 8],
    script: Vec<Run>,
    waiting: Option<TraceeStatus>,
    lost: bool,
    log: Vec<TraceRequest>,
    refuse: Option<usize>,
    memory_at_step: Vec<HashMap<u64, i64>>,
}

fn zero_registers() -> Registers {
    Registers {
        r15: 15, r14: 14, r13: 13, r12: 12, rbp: 0x7ffd_0000, rbx: 3, r11: 11, r10: 10, r9: 9,
        r8: 8, rax: 1, rcx: 2, rdx: 4, rsi: 6, rdi: 7, orig_rax: u64::MAX, rip: 0x401000,
        cs: 0x33, eflags: 0x246, rsp: 0x7ffd_1000, ss: 0x2b, fs_base: 0, gs_base: 0, ds: 0,
        es: 0, fs: 0, gs: 0,
    }
}

fn tracee(script: Vec<Run>) -> Tracee {
    let mut memory = HashMap::new();
    memory.insert(FN_C, WORD_AT_FN_C);
    memory.insert(0x401136, 0x1122_3344_5566_7788);
    memory.insert(0x404030, -2);
    Tracee {
        memory,
        registers: zero_registers(),
        debug: [0; 8],
        script,
        waiting: None,
        lost: false,
        log: Vec::new(),
        refuse: None,
        memory_at_step: Vec::new(),
    }
}

impl Tracee {
    fn perform(&mut self, request: TraceRequest) -> TraceReply {
        let number = self.log.len();
        self.log.push(request);
        if self.refuse == Some(number) {
            return TraceReply::Failed;
        }
        match request {
            TraceRequest::ReadWord { address } => match self.memory.get(&address) {
                Some(word) => TraceReply::Word(*word),
                None => TraceReply::Failed,
            },
            TraceRequest::WriteWord { address, word } => {
                if self.memory.contains_key(&address) {
                    self.memory.insert(address, word);
                    TraceReply::Done
                } else {
                    TraceReply::Failed
                }
            }
            TraceRequest::ReadRegisters => TraceReply::Registers(self.registers),
            TraceRequest::WriteRegisters { registers } => {
                self.registers = registers;
                TraceReply::Done
            }
            TraceRequest::ReadDebugRegister { index } => {
                if index < 8 {
                    TraceReply::Word(self.debug[index])
                } else {
                    TraceReply::Failed
                }
            }
            TraceRequest::WriteDebugRegister { index, value } => {
                if index < 8 {
                    self.debug[index] = value;
                    TraceReply::Done
                } else {
                    TraceReply::Failed
                }
            }
            TraceRequest::Continue => {
                self.debug[6] = 0;
                let next = if self.script.is_empty() { Run::Exit(0) } else { self.script.remove(0) };
                match next {
                    Run::Trap(address) => {
                        assert_eq!(self.memory[&address] & 0xFF, 0xCC, "no trap opcode there");
                        self.registers.rip = address + 1;
                        self.waiting = Some(TraceeStatus::Stopped(SIGTRAP));
                    }
                    Run::Watch(bits, address) => {
                        self.debug[6] = bits;
                        self.registers.rip = address;
                        self.waiting = Some(TraceeStatus::Stopped(SIGTRAP));
                    }
                    Run::Exit(code) => self.waiting = Some(TraceeStatus::Exited(code)),
                    Run::Signal(signal) => self.waiting = Some(TraceeStatus::Stopped(signal)),
                    Run::Lost => self.lost = true,
                }
                TraceReply::Done
            }
            TraceRequest::SingleStep => {
                self.memory_at_step.push(self.memory.clone());
                self.registers.rip += STEP;
                self.waiting = Some(TraceeStatus::Stopped(SIGTRAP));
                TraceReply::Done
            }
            TraceRequest::Wait => {
                if self.lost {
                    self.lost = false;
                    return TraceReply::Failed;
                }
                match self.waiting.take() {
                    Some(status) => TraceReply::Status(status),
                    None => TraceReply::Status(TraceeStatus::Other),
                }
            }
        }
    }
}

fn run(debugger: &mut Debugger, tracee: &mut Tracee, begun: Progress) -> Result<Completion, Error> {
    let mut progress = begun;
    loop {
        match progress {
            Progress::Request(request) => progress = debugger.resume(tracee.perform(request)),
            Progress::Finished(result) => return result,
            Progress::Idle => panic!("the engine lost its operation"),
        }
    }
}

fn debugger() -> Debugger {
    let table = ProcMemoryMaps::parse(MAPS).unwrap();
    Debugger::new(String::from("/usr/bin/prog"), 4242, table, Vec::new())
}

fn set_breakpoint(debugger: &mut Debugger, tracee: &mut Tracee, address: u64) -> Result<Completion, Error> {
    let begun = debugger.set_breakpoint_at(address);
    run(debugger, tracee, begun)
}

fn set_watchpoint(
    debugger: &mut Debugger,
    tracee: &mut Tracee,
    address: u64,
    watchpoint: Watchpoint,
) -> Result<Completion, Error> {
    let begun = debugger.set_watchpoint_at(address, watchpoint);
    run(debugger, tracee, begun)
}

fn go(debugger: &mut Debugger, tracee: &mut Tracee) -> Result<Completion, Error> {
    let begun = debugger.continue_execution();
    run(debugger, tracee, begun)
}

fn write_four() -> Watchpoint {
    Watchpoint::Data {
        condition: WatchpointDataCondition::Write,
        length: WatchpointLength::FourBytes,
    }
}

#[test]
fn a_new_debugger_knows_its_tracee_and_tracks_nothing() {
    let debugger = debugger();
    assert_eq!(debugger.tracee_id(), 4242);
    assert_eq!(debugger.executable_path(), "/usr/bin/prog");
    assert_eq!(debugger.executable_data(), &[] as &[u8]);
    assert_eq!(debugger.memory_maps().len(), 3);
    assert_eq!(debugger.breakpoint_count(), 0);
    assert_eq!(debugger.watchpoint_count(), 0);
    assert_eq!(debugger.pending(), Pending::Idle);
    assert!(debugger.has_text_section());
}

#[test]
fn text_offsets_resolve_against_the_text_section() {
    let debugger = debugger();
    assert_eq!(debugger.get_text_offset_address(0x18f), 0x40118f);
    assert_eq!(debugger.get_text_offset_address(0), 0x401000);
    let table = ProcMemoryMaps::parse("00400000-00401000 r-xp 00000000 08:01 7 /p\n").unwrap();
    let plain = Debugger::new(String::from("/p"), 1, table, Vec::new());
    assert_eq!(plain.get_text_offset_address(0x1136), 0x401136);
}

#[test]
fn setting_a_breakpoint_reads_patches_and_records() {
    let mut debugger = debugger();
    let mut tracee = tracee(vec![]);
    let result = set_breakpoint(&mut debugger, &mut tracee, 0x401136);
    assert!(matches!(result, Ok(Completion::Done)));
    assert_eq!(
        tracee.log,
        vec![
            TraceRequest::ReadWord { address: 0x401136 },
            TraceRequest::WriteWord { address: 0x401136, word: 0x1122_3344_5566_77CC },
        ]
    );
    assert_eq!(tracee.memory[&0x401136], 0x1122_3344_5566_77CC);
    assert_eq!(debugger.breakpoint_at(0x401136), Some(0x1122_3344_5566_7788));
    assert_eq!(debugger.breakpoint_at(0x401137), None);
    assert_eq!(debugger.breakpoint_count(), 1);
    assert_eq!(debugger.pending(), Pending::Idle);
}

#[test]
fn a_breakpoint_that_cannot_be_read_is_not_set() {
    let mut debugger = debugger();
    let mut tracee = tracee(vec![]);
    let result = set_breakpoint(&mut debugger, &mut tracee, 0x999);
    assert!(matches!(result, Err(Error::ReadMemory(0x999))));
    assert_eq!(tracee.log, vec![TraceRequest::ReadWord { address: 0x999 }]);
    assert_eq!(debugger.breakpoint_count(), 0);
    assert_eq!(debugger.pending(), Pending::Idle);
}

#[test]
fn a_breakpoint_that_cannot_be_written_is_not_set() {
    let mut debugger = debugger();
    let mut tracee = tracee(vec![]);
    tracee.refuse = Some(1);
    let result = set_breakpoint(&mut debugger, &mut tracee, FN_C);
    assert!(matches!(result, Err(Error::WriteMemory(FN_C))));
    assert_eq!(tracee.memory[&FN_C], WORD_AT_FN_C);
    assert_eq!(debugger.breakpoint_at(FN_C), None);
}

#[test]
fn the_primitive_sets_a_breakpoint_twice() {
    let mut debugger = debugger();
    let mut tracee = tracee(vec![]);
    assert!(set_breakpoint(&mut debugger, &mut tracee, FN_C).is_ok());
    assert!(set_breakpoint(&mut debugger, &mut tracee, FN_C).is_ok());
    assert_eq!(debugger.breakpoint_count(), 1);
    assert_eq!(debugger.breakpoint_at(FN_C), Some(breakpoint_word(WORD_AT_FN_C)));
}

#[test]
fn a_breakpoint_at_a_text_offset_lands_at_the_live_address() {
    let mut debugger = debugger();
    let mut tracee = tracee(vec![]);
    let begun = debugger.set_breakpoint_at_text_offset(0x18f);
    assert!(matches!(begun, Progress::Request(TraceRequest::ReadWord { address: FN_C })));
    assert!(matches!(run(&mut debugger, &mut tracee, begun), Ok(Completion::Done)));
    assert_eq!(debugger.breakpoint_at(FN_C), Some(WORD_AT_FN_C));
}

#[test]
fn a_second_breakpoint_at_the_same_offset_is_refused_and_touches_nothing() {
    let mut debugger = debugger();
    let mut tracee = tracee(vec![]);
    let begun = debugger.set_breakpoint_at_text_offset(0x18f);
    assert!(run(&mut debugger, &mut tracee, begun).is_ok());
    let memory = tracee.memory.clone();
    let asked = tracee.log.len();
    let again = debugger.set_breakpoint_at_text_offset(0x18f);
    assert!(matches!(again, Progress::Finished(Err(Error::BreakpointExists(FN_C)))));
    assert_eq!(tracee.log.len(), asked);
    assert_eq!(tracee.memory, memory);
    assert_eq!(debugger.breakpoint_count(), 1);
    assert_eq!(debugger.breakpoint_at(FN_C), Some(WORD_AT_FN_C));
    assert_eq!(debugger.pending(), Pending::Idle);
}

#[test]
fn memory_is_as_before_when_the_tracee_steps_off_a_breakpoint() {
    let mut debugger = debugger();
    let mut tracee = tracee(vec![Run::Trap(FN_C)]);
    let before = tracee.memory.clone();
    assert!(set_breakpoint(&mut debugger, &mut tracee, FN_C).is_ok());
    assert_ne!(tracee.memory, before);
    let outcome = go(&mut debugger, &mut tracee);
    assert!(matches!(
        outcome,
        Ok(Completion::Stopped(ContinueExecutionOutcome::BreakpointHit(FN_C)))
    ));
    assert_eq!(tracee.memory_at_step, vec![before]);
}

#[test]
fn the_word_restored_is_the_word_recorded() {
    let mut debugger = debugger();
    let mut tracee = tracee(vec![Run::Trap(FN_C)]);
    assert!(set_breakpoint(&mut debugger, &mut tracee, FN_C).is_ok());
    let recorded = debugger.breakpoint_at(FN_C).unwrap();
    assert_eq!(recorded, WORD_AT_FN_C);
    assert!(go(&mut debugger, &mut tracee).is_ok());
    assert_eq!(tracee.memory_at_step[0][&FN_C], recorded);
    assert!(tracee.log.contains(&TraceRequest::WriteWord { address: FN_C, word: recorded }));
}

#[test]
fn a_breakpoint_hit_runs_the_whole_protocol_in_order() {
    let mut debugger = debugger();
    let mut tracee = tracee(vec![Run::Trap(FN_C)]);
    assert!(set_breakpoint(&mut debugger, &mut tracee, FN_C).is_ok());
    tracee.log.clear();
    assert!(go(&mut debugger, &mut tracee).is_ok());
    let mut rewound = zero_registers();
    rewound.rip = FN_C;
    assert_eq!(
        tracee.log,
        vec![
            TraceRequest::Continue,
            TraceRequest::Wait,
            TraceRequest::ReadDebugRegister { index: 6 },
            TraceRequest::ReadRegisters,
            TraceRequest::ReadRegisters,
            TraceRequest::WriteRegisters { registers: rewound },
            TraceRequest::WriteWord { address: FN_C, word: WORD_AT_FN_C },
            TraceRequest::SingleStep,
            TraceRequest::Wait,
            TraceRequest::ReadWord { address: FN_C },
            TraceRequest::WriteWord { address: FN_C, word: breakpoint_word(WORD_AT_FN_C) },
        ]
    );
    assert_eq!(tracee.memory[&FN_C], breakpoint_word(WORD_AT_FN_C));
    assert_eq!(debugger.breakpoint_at(FN_C), Some(WORD_AT_FN_C));
    assert_eq!(debugger.pending(), Pending::Idle);
}

#[test]
fn after_a_hit_the_instruction_pointer_is_past_the_breakpoint() {
    let mut debugger = debugger();
    let mut tracee = tracee(vec![Run::Trap(FN_C)]);
    assert!(set_breakpoint(&mut debugger, &mut tracee, FN_C).is_ok());
    assert!(go(&mut debugger, &mut tracee).is_ok());
    let begun = debugger.get_tracee_pc();
    let pc = run(&mut debugger, &mut tracee, begun);
    assert!(matches!(pc, Ok(Completion::Pc(at)) if at == FN_C + STEP));
}

#[test]
fn a_breakpoint_fires_every_time_the_tracee_comes_by() {
    let mut debugger = debugger();
    let mut tracee = tracee(vec![Run::Trap(FN_C), Run::Trap(FN_C), Run::Exit(0)]);
    let begun = debugger.set_breakpoint_at_text_offset(0x18f);
    assert!(run(&mut debugger, &mut tracee, begun).is_ok());
    for _ in 0..2 {
        assert!(matches!(
            go(&mut debugger, &mut tracee),
            Ok(Completion::Stopped(ContinueExecutionOutcome::BreakpointHit(FN_C)))
        ));
    }
    assert!(matches!(
        go(&mut debugger, &mut tracee),
        Ok(Completion::Stopped(ContinueExecutionOutcome::ProcessExited(0)))
    ));
}

#[test]
fn an_exit_is_reported_with_its_code() {
    for code in [0, 1, 255, -1] {
        let mut debugger = debugger();
        let mut tracee = tracee(vec![Run::Exit(code)]);
        let outcome = go(&mut debugger, &mut tracee);
        assert!(matches!(
            outcome,
            Ok(Completion::Stopped(ContinueExecutionOutcome::ProcessExited(found))) if found == code
        ));
        assert_eq!(tracee.log, vec![TraceRequest::Continue, TraceRequest::Wait]);
        assert_eq!(debugger.pending(), Pending::Idle);
    }
}

#[test]
fn a_stop_on_another_signal_is_other() {
    let mut debugger = debugger();
    let mut tracee = tracee(vec![Run::Signal(19)]);
    let outcome = go(&mut debugger, &mut tracee);
    assert!(matches!(outcome, Ok(Completion::Stopped(ContinueExecutionOutcome::Other))));
    assert_eq!(tracee.log, vec![TraceRequest::Continue, TraceRequest::Wait]);
}

#[test]
fn a_trap_on_nothing_known_is_other() {
    let mut debugger = debugger();
    let mut tracee = tracee(vec![Run::Watch(0, 0x401050)]);
    assert!(set_breakpoint(&mut debugger, &mut tracee, FN_C).is_ok());
    let outcome = go(&mut debugger, &mut tracee);
    assert!(matches!(outcome, Ok(Completion::Stopped(ContinueExecutionOutcome::Other))));
}

#[test]
fn a_trap_at_address_zero_is_other() {
    let mut debugger = debugger();
    let mut tracee = tracee(vec![Run::Watch(0, 0)]);
    let outcome = go(&mut debugger, &mut tracee);
    assert!(matches!(outcome, Ok(Completion::Stopped(ContinueExecutionOutcome::Other))));
}

#[test]
fn a_change_of_state_that_is_no_stop_is_other() {
    let mut debugger = debugger();
    assert!(matches!(debugger.continue_execution(), Progress::Request(TraceRequest::Continue)));
    assert!(matches!(debugger.resume(TraceReply::Done), Progress::Request(TraceRequest::Wait)));
    assert!(matches!(
        debugger.resume(TraceReply::Status(TraceeStatus::Other)),
        Progress::Finished(Ok(Completion::Stopped(ContinueExecutionOutcome::Other)))
    ));
}

#[test]
fn the_tracee_cannot_be_continued() {
    let mut debugger = debugger();
    let mut tracee = tracee(vec![]);
    tracee.refuse = Some(0);
    assert!(matches!(go(&mut debugger, &mut tracee), Err(Error::ContinueExecution)));
    let mut lost = self::tracee(vec![Run::Lost]);
    assert!(matches!(go(&mut debugger, &mut lost), Err(Error::ContinueExecution)));
}

#[test]
fn an_unreadable_status_register_falls_back_to_breakpoints() {
    let mut debugger = debugger();
    let mut tracee = tracee(vec![Run::Trap(FN_C)]);
    assert!(set_breakpoint(&mut debugger, &mut tracee, FN_C).is_ok());
    tracee.refuse = Some(tracee.log.len() + 2);
    let outcome = go(&mut debugger, &mut tracee);
    assert!(matches!(
        outcome,
        Ok(Completion::Stopped(ContinueExecutionOutcome::BreakpointHit(FN_C)))
    ));
}

#[test]
fn failures_while_stepping_off_a_breakpoint() {
    let expected: Vec<(usize, fn(&Error) -> bool)> = vec![
        (3, |e| matches!(e, Error::ReadRegisters)),
        (4, |e| matches!(e, Error::ReadRegisters)),
        (5, |e| matches!(e, Error::WriteRegisters)),
        (6, |e| matches!(e, Error::WriteMemory(FN_C))),
        (7, |e| matches!(e, Error::ContinueExecution)),
        (8, |e| matches!(e, Error::ContinueExecution)),
        (9, |e| matches!(e, Error::ReadMemory(FN_C))),
        (10, |e| matches!(e, Error::WriteMemory(FN_C))),
    ];
    for (step, is_expected) in expected {
        let mut debugger = debugger();
        let mut tracee = tracee(vec![Run::Trap(FN_C)]);
        assert!(set_breakpoint(&mut debugger, &mut tracee, FN_C).is_ok());
        tracee.log.clear();
        tracee.refuse = Some(step);
        match go(&mut debugger, &mut tracee) {
            Err(error) => assert!(is_expected(&error), "step {step} gave {error:?}"),
            Ok(outcome) => panic!("step {step} gave {outcome:?}"),
        }
        assert_eq!(tracee.log.len(), step + 1);
        assert_eq!(debugger.pending(), Pending::Idle);
        assert_eq!(debugger.breakpoint_at(FN_C), Some(WORD_AT_FN_C));
    }
}

#[test]
fn setting_a_watchpoint_programs_the_first_free_slot() {
    let mut debugger = debugger();
    let mut tracee = tracee(vec![]);
    let result = set_watchpoint(&mut debugger, &mut tracee, 0x401136, Watchpoint::Execution);
    assert!(matches!(result, Ok(Completion::Done)));
    assert_eq!(
        tracee.log,
        vec![
            TraceRequest::WriteDebugRegister { index: 0, value: 0x401136 },
            TraceRequest::ReadDebugRegister { index: 7 },
            TraceRequest::WriteDebugRegister { index: 7, value: 1 },
        ]
    );
    assert_eq!(debugger.watchpoint_count(), 1);
    assert_eq!(debugger.watchpoint_at(0), Some((0x401136, Watchpoint::Execution)));
    assert_eq!(debugger.watchpoint_at(1), None);
}

#[test]
fn watchpoints_fill_the_slots_in_order() {
    let mut debugger = debugger();
    let mut tracee = tracee(vec![]);
    assert!(set_watchpoint(&mut debugger, &mut tracee, 0x401136, Watchpoint::Execution).is_ok());
    assert!(set_watchpoint(&mut debugger, &mut tracee, 0x40115d, Watchpoint::Execution).is_ok());
    assert!(set_watchpoint(&mut debugger, &mut tracee, 0x404030, write_four()).is_ok());
    assert_eq!(tracee.debug[0], 0x401136);
    assert_eq!(tracee.debug[1], 0x40115d);
    assert_eq!(tracee.debug[2], 0x404030);
    assert_eq!(tracee.debug[3], 0);
    assert_eq!(tracee.debug[7], 0x0D00_0015);
    assert_eq!(debugger.watchpoint_count(), 3);
    assert_eq!(debugger.watchpoint_at(2), Some((0x404030, write_four())));
}

#[test]
fn a_fifth_watchpoint_is_refused_and_the_four_stay() {
    let mut debugger = debugger();
    let mut tracee = tracee(vec![]);
    for slot in 0..4u64 {
        let result = set_watchpoint(&mut debugger, &mut tracee, 0x404000 + 8 * slot, write_four());
        assert!(result.is_ok());
    }
    let slots: Vec<_> = (0..5).map(|slot| debugger.watchpoint_at(slot)).collect();
    let registers = tracee.debug;
    let asked = tracee.log.len();
    let fifth = debugger.set_watchpoint_at(0x404100, Watchpoint::Execution);
    assert!(matches!(fifth, Progress::Finished(Err(Error::MaxNumWatchpoints))));
    assert_eq!(debugger.watchpoint_count(), 4);
    assert_eq!((0..5).map(|slot| debugger.watchpoint_at(slot)).collect::<Vec<_>>(), slots);
    assert_eq!(slots[3], Some((0x404018, write_four())));
    assert_eq!(slots[4], None);
    assert_eq!(tracee.debug, registers);
    assert_eq!(tracee.log.len(), asked);
    let offset = debugger.set_watchpoint_at_text_offset(0x10, Watchpoint::Execution);
    assert!(matches!(offset, Progress::Finished(Err(Error::MaxNumWatchpoints))));
}

#[test]
fn a_watchpoint_at_a_text_offset_lands_at_the_live_address() {
    let mut debugger = debugger();
    let mut tracee = tracee(vec![]);
    let begun = debugger.set_watchpoint_at_text_offset(0x136, Watchpoint::Execution);
    assert!(run(&mut debugger, &mut tracee, begun).is_ok());
    assert_eq!(debugger.watchpoint_at(0), Some((0x401136, Watchpoint::Execution)));
    assert_eq!(tracee.debug[0], 0x401136);
}

#[test]
fn a_refused_write_of_the_address_register_ends_the_operation() {
    let mut debugger = debugger();
    let mut tracee = tracee(vec![]);
    tracee.refuse = Some(0);
    let result = set_watchpoint(&mut debugger, &mut tracee, 0x404030, write_four());
    assert!(matches!(result, Err(Error::WriteRegisters)));
    assert_eq!(
        tracee.log,
        vec![TraceRequest::WriteDebugRegister { index: 0, value: 0x404030 }]
    );
    assert_eq!(tracee.debug, [0; 8]);
    assert_eq!(debugger.watchpoint_count(), 0);
    assert_eq!(debugger.watchpoint_at(0), None);
    assert_eq!(debugger.pending(), Pending::Idle);
}

#[test]
fn a_refused_watchpoint_leaves_the_slot_to_the_next() {
    let mut debugger = debugger();
    let mut tracee = tracee(vec![]);
    assert!(set_watchpoint(&mut debugger, &mut tracee, 0x401136, Watchpoint::Execution).is_ok());
    tracee.refuse = Some(tracee.log.len());
    let refused = set_watchpoint(&mut debugger, &mut tracee, 0x40115d, Watchpoint::Execution);
    assert!(matches!(refused, Err(Error::WriteRegisters)));
    assert_eq!(debugger.watchpoint_count(), 1);
    assert_eq!(tracee.debug[7], 1);
    tracee.refuse = None;
    assert!(set_watchpoint(&mut debugger, &mut tracee, 0x404030, write_four()).is_ok());
    assert_eq!(debugger.watchpoint_at(0), Some((0x401136, Watchpoint::Execution)));
    assert_eq!(debugger.watchpoint_at(1), Some((0x404030, write_four())));
    assert_eq!(tracee.debug[1], 0x404030);
    assert_eq!(tracee.debug[7], 0x00D0_0005);
}

#[test]
fn a_reply_of_the_wrong_kind_to_the_address_write_is_a_refusal() {
    let mut debugger = debugger();
    assert!(matches!(debugger.set_watchpoint_at(0x404030, write_four()), Progress::Request(_)));
    assert!(matches!(
        debugger.resume(TraceReply::Word(0)),
        Progress::Finished(Err(Error::WriteRegisters))
    ));
    assert_eq!(debugger.watchpoint_count(), 0);
}

#[test]
fn a_watchpoint_needs_the_control_register() {
    let mut debugger = debugger();
    let mut unreadable = tracee(vec![]);
    unreadable.refuse = Some(1);
    let result = set_watchpoint(&mut debugger, &mut unreadable, 0x404030, write_four());
    assert!(matches!(result, Err(Error::ReadRegisters)));
    assert_eq!(debugger.watchpoint_count(), 0);
    let mut unwritable = tracee(vec![]);
    unwritable.refuse = Some(2);
    let result = set_watchpoint(&mut debugger, &mut unwritable, 0x404030, write_four());
    assert!(matches!(result, Err(Error::WriteRegisters)));
    assert_eq!(debugger.watchpoint_count(), 0);
    assert_eq!(unwritable.debug[7], 0);
    assert_eq!(debugger.pending(), Pending::Idle);
}

#[test]
fn a_watchpoint_that_fires_is_the_outcome() {
    let mut debugger = debugger();
    let mut tracee = tracee(vec![Run::Watch(0b0100, 0x401140)]);
    assert!(set_watchpoint(&mut debugger, &mut tracee, 0x401136, Watchpoint::Execution).is_ok());
    assert!(set_watchpoint(&mut debugger, &mut tracee, 0x40115d, Watchpoint::Execution).is_ok());
    assert!(set_watchpoint(&mut debugger, &mut tracee, 0x404030, write_four()).is_ok());
    tracee.log.clear();
    let outcome = go(&mut debugger, &mut tracee);
    match outcome {
        Ok(Completion::Stopped(ContinueExecutionOutcome::WatchpointHit(hit))) => {
            assert_eq!(hit, (0x404030, write_four()))
        }
        other => panic!("{other:?}"),
    }
    assert_eq!(
        tracee.log,
        vec![
            TraceRequest::Continue,
            TraceRequest::Wait,
            TraceRequest::ReadDebugRegister { index: 6 },
        ]
    );
}

#[test]
fn of_two_watchpoints_that_fire_the_lower_slot_wins() {
    for _ in 0..3 {
        let mut debugger = debugger();
        let mut tracee = tracee(vec![Run::Watch(0b1010, 0x401140), Run::Watch(0b1100, 0x401140)]);
        for slot in 0..4u64 {
            assert!(set_watchpoint(&mut debugger, &mut tracee, 0x404000 + 8 * slot, write_four()).is_ok());
        }
        let first = go(&mut debugger, &mut tracee);
        assert!(matches!(
            first,
            Ok(Completion::Stopped(ContinueExecutionOutcome::WatchpointHit((0x404008, _))))
        ));
        let second = go(&mut debugger, &mut tracee);
        assert!(matches!(
            second,
            Ok(Completion::Stopped(ContinueExecutionOutcome::WatchpointHit((0x404010, _))))
        ));
    }
}

#[test]
fn a_status_bit_of_a_free_slot_is_passed_over() {
    let mut debugger = debugger();
    let mut tracee = tracee(vec![Run::Watch(0b0110, 0x401140), Run::Watch(0b1000, 0x401140)]);
    assert!(set_watchpoint(&mut debugger, &mut tracee, 0x404000, write_four()).is_ok());
    assert!(set_watchpoint(&mut debugger, &mut tracee, 0x404008, write_four()).is_ok());
    let first = go(&mut debugger, &mut tracee);
    assert!(matches!(
        first,
        Ok(Completion::Stopped(ContinueExecutionOutcome::WatchpointHit((0x404008, _))))
    ));
    let second = go(&mut debugger, &mut tracee);
    assert!(matches!(second, Ok(Completion::Stopped(ContinueExecutionOutcome::Other))));
}

#[test]
fn a_watchpoint_comes_before_a_breakpoint() {
    let mut debugger = debugger();
    let mut tracee = tracee(vec![Run::Watch(0b0001, FN_C + 1)]);
    assert!(set_breakpoint(&mut debugger, &mut tracee, FN_C).is_ok());
    assert!(set_watchpoint(&mut debugger, &mut tracee, 0x404030, write_four()).is_ok());
    let outcome = go(&mut debugger, &mut tracee);
    assert!(matches!(
        outcome,
        Ok(Completion::Stopped(ContinueExecutionOutcome::WatchpointHit((0x404030, _))))
    ));
    assert_eq!(tracee.memory[&FN_C], breakpoint_word(WORD_AT_FN_C));
}

#[test]
fn high_status_bits_name_no_watchpoint() {
    let mut debugger = debugger();
    let mut tracee = tracee(vec![Run::Watch(0x4ff0, 0x401140)]);
    assert!(set_watchpoint(&mut debugger, &mut tracee, 0x404000, write_four()).is_ok());
    let outcome = go(&mut debugger, &mut tracee);
    assert!(matches!(outcome, Ok(Completion::Stopped(ContinueExecutionOutcome::Other))));
}

#[test]
fn the_instruction_pointer_is_read_from_the_registers() {
    let mut debugger = debugger();
    let mut tracee = tracee(vec![]);
    tracee.registers.rip = 0x40115d;
    let begun = debugger.get_tracee_pc();
    assert!(matches!(run(&mut debugger, &mut tracee, begun), Ok(Completion::Pc(0x40115d))));
    assert_eq!(tracee.log, vec![TraceRequest::ReadRegisters]);
    tracee.refuse = Some(1);
    let begun = debugger.get_tracee_pc();
    assert!(matches!(run(&mut debugger, &mut tracee, begun), Err(Error::ReadRegisters)));
}

#[test]
fn moving_the_instruction_pointer_changes_no_other_register() {
    let mut debugger = debugger();
    let mut tracee = tracee(vec![]);
    let begun = debugger.set_tracee_pc(0x40115d);
    assert!(matches!(run(&mut debugger, &mut tracee, begun), Ok(Completion::Done)));
    let mut expected = zero_registers();
    expected.rip = 0x40115d;
    assert_eq!(tracee.registers, expected);
    assert_eq!(zero_registers().with_pc(0x40115d), expected);
}

#[test]
fn moving_the_instruction_pointer_can_fail_twice() {
    let mut debugger = debugger();
    let mut unreadable = tracee(vec![]);
    unreadable.refuse = Some(0);
    let begun = debugger.set_tracee_pc(0x40115d);
    assert!(matches!(run(&mut debugger, &mut unreadable, begun), Err(Error::ReadRegisters)));
    let mut unwritable = tracee(vec![]);
    unwritable.refuse = Some(1);
    let begun = debugger.set_tracee_pc(0x40115d);
    assert!(matches!(run(&mut debugger, &mut unwritable, begun), Err(Error::WriteRegisters)));
    assert_eq!(unwritable.registers, zero_registers());
}

#[test]
fn stepping_takes_each_step_and_reads_the_instruction_pointer() {
    let mut debugger = debugger();
    let mut tracee = tracee(vec![]);
    let begun = debugger.step_instructions(3);
    let result = run(&mut debugger, &mut tracee, begun);
    assert!(matches!(result, Ok(Completion::Pc(at)) if at == 0x401000 + 3 * STEP));
    assert_eq!(
        tracee.log,
        vec![
            TraceRequest::SingleStep,
            TraceRequest::Wait,
            TraceRequest::SingleStep,
            TraceRequest::Wait,
            TraceRequest::SingleStep,
            TraceRequest::Wait,
            TraceRequest::ReadRegisters,
        ]
    );
}

#[test]
fn no_steps_read_the_instruction_pointer_at_once() {
    let mut debugger = debugger();
    let mut tracee = tracee(vec![]);
    let begun = debugger.step_instructions(0);
    assert!(matches!(run(&mut debugger, &mut tracee, begun), Ok(Completion::Pc(0x401000))));
    assert_eq!(tracee.log, vec![TraceRequest::ReadRegisters]);
    let begun = debugger.step_instructions(1);
    assert!(matches!(run(&mut debugger, &mut tracee, begun), Ok(Completion::Pc(0x401004))));
}

#[test]
fn stepping_does_not_look_at_breakpoints() {
    let mut debugger = debugger();
    let mut tracee = tracee(vec![]);
    assert!(set_breakpoint(&mut debugger, &mut tracee, FN_C).is_ok());
    tracee.registers.rip = FN_C - STEP + 1;
    tracee.log.clear();
    let begun = debugger.step_instructions(1);
    assert!(matches!(run(&mut debugger, &mut tracee, begun), Ok(Completion::Pc(at)) if at == FN_C + 1));
    assert_eq!(tracee.log.len(), 3);
    assert_eq!(tracee.memory[&FN_C], breakpoint_word(WORD_AT_FN_C));
}

#[test]
fn stepping_fails_on_the_step_or_on_the_wait() {
    let mut debugger = debugger();
    let mut refused = tracee(vec![]);
    refused.refuse = Some(2);
    let begun = debugger.step_instructions(4);
    assert!(matches!(run(&mut debugger, &mut refused, begun), Err(Error::SingleStep)));
    assert_eq!(refused.log.len(), 3);
    let mut lost = tracee(vec![]);
    lost.refuse = Some(1);
    let begun = debugger.step_instructions(4);
    assert!(matches!(run(&mut debugger, &mut lost, begun), Err(Error::ContinueExecution)));
    let mut blind = tracee(vec![]);
    blind.refuse = Some(2);
    let begun = debugger.step_instructions(1);
    assert!(matches!(run(&mut debugger, &mut blind, begun), Err(Error::ReadRegisters)));
}

#[test]
fn stepping_goes_on_after_the_tracee_exits() {
    let mut debugger = debugger();
    assert!(matches!(debugger.step_instructions(2), Progress::Request(TraceRequest::SingleStep)));
    assert!(matches!(debugger.resume(TraceReply::Done), Progress::Request(TraceRequest::Wait)));
    assert!(matches!(
        debugger.resume(TraceReply::Status(TraceeStatus::Exited(0))),
        Progress::Request(TraceRequest::SingleStep)
    ));
}

#[test]
fn debug_registers_are_read_and_written_by_index() {
    let mut debugger = debugger();
    let mut tracee = tracee(vec![]);
    let begun = debugger.set_debug_register(2, 0x404030);
    assert!(matches!(run(&mut debugger, &mut tracee, begun), Ok(Completion::Done)));
    assert_eq!(tracee.debug[2], 0x404030);
    let begun = debugger.get_debug_register(2);
    assert!(matches!(run(&mut debugger, &mut tracee, begun), Ok(Completion::Register(0x404030))));
    let begun = debugger.set_debug_control(0x55);
    assert!(matches!(run(&mut debugger, &mut tracee, begun), Ok(Completion::Done)));
    assert_eq!(tracee.debug[7], 0x55);
    let begun = debugger.get_debug_control();
    assert!(matches!(run(&mut debugger, &mut tracee, begun), Ok(Completion::Register(0x55))));
    tracee.debug[6] = 0b1001;
    let begun = debugger.get_debug_status();
    assert!(matches!(run(&mut debugger, &mut tracee, begun), Ok(Completion::Register(0b1001))));
    assert_eq!(
        &tracee.log[2..],
        &[
            TraceRequest::WriteDebugRegister { index: 7, value: 0x55 },
            TraceRequest::ReadDebugRegister { index: 7 },
            TraceRequest::ReadDebugRegister { index: 6 },
        ]
    );
}

#[test]
fn the_kernel_decides_which_debug_registers_exist() {
    let mut debugger = debugger();
    let mut tracee = tracee(vec![]);
    let begun = debugger.get_debug_register(8);
    assert!(matches!(begun, Progress::Request(TraceRequest::ReadDebugRegister { index: 8 })));
    assert!(matches!(run(&mut debugger, &mut tracee, begun), Err(Error::ReadRegisters)));
    let begun = debugger.set_debug_register(usize::MAX, 1);
    assert!(matches!(run(&mut debugger, &mut tracee, begun), Err(Error::WriteRegisters)));
}

#[test]
fn a_reply_of_the_wrong_kind_counts_as_a_refusal() {
    let mut debugger = debugger();
    assert!(matches!(debugger.set_breakpoint_at(FN_C), Progress::Request(_)));
    assert!(matches!(
        debugger.resume(TraceReply::Done),
        Progress::Finished(Err(Error::ReadMemory(FN_C)))
    ));
    assert!(matches!(debugger.set_breakpoint_at(FN_C), Progress::Request(_)));
    assert!(matches!(debugger.resume(TraceReply::Word(7)), Progress::Request(_)));
    assert!(matches!(
        debugger.resume(TraceReply::Word(7)),
        Progress::Finished(Err(Error::WriteMemory(FN_C)))
    ));
    assert!(matches!(debugger.get_tracee_pc(), Progress::Request(_)));
    assert!(matches!(
        debugger.resume(TraceReply::Status(TraceeStatus::Other)),
        Progress::Finished(Err(Error::ReadRegisters))
    ));
    assert!(matches!(debugger.continue_execution(), Progress::Request(_)));
    assert!(matches!(debugger.resume(TraceReply::Done), Progress::Request(_)));
    assert!(matches!(
        debugger.resume(TraceReply::Done),
        Progress::Finished(Err(Error::ContinueExecution))
    ));
}

#[test]
fn with_nothing_under_way_a_reply_changes_nothing() {
    let mut debugger = debugger();
    assert!(matches!(debugger.resume(TraceReply::Done), Progress::Idle));
    assert!(matches!(debugger.resume(TraceReply::Word(1)), Progress::Idle));
    assert_eq!(debugger.breakpoint_count(), 0);
    assert_eq!(debugger.watchpoint_count(), 0);
    assert_eq!(debugger.pending(), Pending::Idle);
}

#[test]
fn a_new_operation_takes_the_place_of_the_one_under_way() {
    let mut debugger = debugger();
    let mut tracee = tracee(vec![]);
    assert!(matches!(debugger.set_watchpoint_at(0x404030, write_four()), Progress::Request(_)));
    assert!(matches!(
        debugger.pending(),
        Pending::WatchpointAddress { slot: 0, address: 0x404030, .. }
    ));
    let begun = debugger.get_tracee_pc();
    assert_eq!(debugger.pending(), Pending::PcRead);
    assert!(matches!(run(&mut debugger, &mut tracee, begun), Ok(Completion::Pc(0x401000))));
    assert_eq!(debugger.watchpoint_count(), 0);
}

#[test]
fn addresses_above_the_signed_range_wrap_into_the_register() {
    let mut debugger = debugger();
    let mut tracee = tracee(vec![]);
    let begun = debugger.set_watchpoint_at(0xffff_ffff_ff60_0000, Watchpoint::Execution);
    assert!(matches!(
        begun,
        Progress::Request(TraceRequest::WriteDebugRegister { index: 0, value: -0xa0_0000 })
    ));
    assert!(run(&mut debugger, &mut tracee, begun).is_ok());
    assert_eq!(debugger.watchpoint_at(0), Some((0xffff_ffff_ff60_0000, Watchpoint::Execution)));
}
