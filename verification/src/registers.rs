//! The general registers of an x86-64 tracee.

use vstd::prelude::*;

verus! {

/// The general registers of the tracee, in the order in which the kernel
/// hands them out. The engine reads and writes the instruction pointer, `rip`,
/// and carries the others through unchanged.
#[derive(Debug, Clone, Copy, PartialEq, Eq)]
pub struct Registers {
    pub r15: u64,
    pub r14: u64,
    pub r13: u64,
    pub r12: u64,
    pub rbp: u64,
    pub rbx: u64,
    pub r11: u64,
    pub r10: u64,
    pub r9: u64,
    pub r8: u64,
    pub rax: u64,
    pub rcx: u64,
    pub rdx: u64,
    pub rsi: u64,
    pub rdi: u64,
    pub orig_rax: u64,
    pub rip: u64,
    pub cs: u64,
    pub eflags: u64,
    pub rsp: u64,
    pub ss: u64,
    pub fs_base: u64,
    pub gs_base: u64,
    pub ds: u64,
    pub es: u64,
    pub fs: u64,
    pub gs: u64,
}

impl Registers {
    /// These registers with the instruction pointer moved to `pc`.
    pub open spec fn spec_with_pc(self, pc: u64) -> Registers {
        Registers { rip: pc, ..self }
    }

    /// These registers with the instruction pointer moved to `pc`.
    #[verifier::when_used_as_spec(spec_with_pc)]
    pub fn with_pc(self, pc: u64) -> (moved: Registers)
        ensures
            moved == self.spec_with_pc(pc),
    {
        Registers { rip: pc, ..self }
    }
}

} // verus!
