//! Software breakpoints: the trap opcode and the word that carries it.

use vstd::prelude::*;

verus! {

/// The one-byte instruction that raises a debug exception.
pub const TRAP_OPCODE: i64 = 0xCC;

/// `word` with its low byte replaced by the trap opcode. The low byte of a
/// word is its remainder modulo 256.
pub open spec fn spec_breakpoint_word(word: i64) -> i64 {
    (word - word % 256 + TRAP_OPCODE) as i64
}

/// `word` with its low byte replaced by the trap opcode.
#[verifier::when_used_as_spec(spec_breakpoint_word)]
pub fn breakpoint_word(word: i64) -> (patched: i64)
    ensures
        patched == spec_breakpoint_word(word),
        patched & 0xFF == TRAP_OPCODE,
        patched & !0xFFi64 == word & !0xFFi64,
{
    proof {
        lemma_breakpoint_word(word);
    }
    (word & !0xFFi64) | TRAP_OPCODE
}

/// A patched word carries the trap opcode in its low byte and is the word
/// that it replaces in every other byte.
pub proof fn lemma_breakpoint_word(word: i64)
    ensures
        breakpoint_word(word) == (word & !0xFFi64) | TRAP_OPCODE,
        breakpoint_word(word) & 0xFF == TRAP_OPCODE,
        breakpoint_word(word) & !0xFFi64 == word & !0xFFi64,
{
    assert((word & !0xFFi64) | 0xCCi64 == word - word % 256 + 0xCC) by (bit_vector);
    assert(((word & !0xFFi64) | 0xCCi64) & 0xFF == 0xCC) by (bit_vector);
    assert(((word & !0xFFi64) | 0xCCi64) & !0xFFi64 == word & !0xFFi64) by (bit_vector);
}

/// The address of the trap opcode that stopped a tracee whose instruction
/// pointer is `pc`: the opcode is one byte long and the processor has moved
/// past it. There is none when `pc` is 0.
pub open spec fn spec_trap_address(pc: u64) -> Option<u64> {
    if pc >= 1 {
        Some((pc - 1) as u64)
    } else {
        None
    }
}

/// The address of the trap opcode that stopped a tracee whose instruction
/// pointer is `pc`.
#[verifier::when_used_as_spec(spec_trap_address)]
pub fn trap_address(pc: u64) -> (address: Option<u64>)
    ensures
        address == spec_trap_address(pc),
{
    if pc >= 1 {
        Some(pc - 1)
    } else {
        None
    }
}

} // verus!
