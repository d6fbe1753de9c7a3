//! Hardware watchpoints: what can be watched, and how a watchpoint is written
//! into the debug control register of the processor.

use vstd::prelude::*;

use crate::error::Error;

verus! {

/// The number of hardware slots, and so of watchpoints that can be active at once.
pub const MAX_WATCHPOINTS: usize = 4;

/// The debug registers that the engine addresses, each known by its index in
/// the debug register file: four address registers, the status register and
/// the control register.
#[derive(Debug, Clone, Copy, PartialEq, Eq)]
pub enum DebugRegisterOffsets {
    B0,
    B1,
    B2,
    B3,
    DebugStatus,
    DebugControl,
}

impl DebugRegisterOffsets {
    /// The index of the register in the debug register file.
    pub open spec fn spec_index(self) -> usize {
        match self {
            DebugRegisterOffsets::B0 => 0,
            DebugRegisterOffsets::B1 => 1,
            DebugRegisterOffsets::B2 => 2,
            DebugRegisterOffsets::B3 => 3,
            DebugRegisterOffsets::DebugStatus => 6,
            DebugRegisterOffsets::DebugControl => 7,
        }
    }

    /// The index of the register in the debug register file.
    #[verifier::when_used_as_spec(spec_index)]
    pub fn index(self) -> (index: usize)
        ensures
            index == self.spec_index(),
    {
        match self {
            DebugRegisterOffsets::B0 => 0,
            DebugRegisterOffsets::B1 => 1,
            DebugRegisterOffsets::B2 => 2,
            DebugRegisterOffsets::B3 => 3,
            DebugRegisterOffsets::DebugStatus => 6,
            DebugRegisterOffsets::DebugControl => 7,
        }
    }
}

/// The kind of data access that fires a data watchpoint.
#[derive(Debug, Clone, Copy, PartialEq, Eq)]
pub enum WatchpointDataCondition {
    Write,
    ReadWrite,
}

impl WatchpointDataCondition {
    /// The two bits that stand for the condition in the control register.
    pub open spec fn spec_code(self) -> i64 {
        match self {
            WatchpointDataCondition::Write => 0b01,
            WatchpointDataCondition::ReadWrite => 0b11,
        }
    }

    /// The two bits that stand for the condition in the control register.
    #[verifier::when_used_as_spec(spec_code)]
    pub fn code(self) -> (code: i64)
        ensures
            code == self.spec_code(),
    {
        match self {
            WatchpointDataCondition::Write => 0b01,
            WatchpointDataCondition::ReadWrite => 0b11,
        }
    }
}

/// The number of bytes that a data watchpoint covers.
#[derive(Debug, Clone, Copy, PartialEq, Eq)]
pub enum WatchpointLength {
    OneByte,
    TwoBytes,
    FourBytes,
    EightBytes,
}

impl WatchpointLength {
    /// The number of bytes watched.
    pub open spec fn bytes(self) -> usize {
        match self {
            WatchpointLength::OneByte => 1,
            WatchpointLength::TwoBytes => 2,
            WatchpointLength::FourBytes => 4,
            WatchpointLength::EightBytes => 8,
        }
    }

    /// The length that covers `val` bytes: what `try_from` returns.
    pub open spec fn of_bytes(val: usize) -> Result<WatchpointLength, Error> {
        if val == 1 {
            Ok(WatchpointLength::OneByte)
        } else if val == 2 {
            Ok(WatchpointLength::TwoBytes)
        } else if val == 4 {
            Ok(WatchpointLength::FourBytes)
        } else if val == 8 {
            Ok(WatchpointLength::EightBytes)
        } else {
            Err(Error::WatchpointLengthValue(val))
        }
    }

    /// The two bits that stand for the length in the control register. The
    /// hardware does not number the lengths in order: eight bytes is `0b10`
    /// and four bytes is `0b11`.
    pub open spec fn spec_code(self) -> i64 {
        match self {
            WatchpointLength::OneByte => 0b00,
            WatchpointLength::TwoBytes => 0b01,
            WatchpointLength::FourBytes => 0b11,
            WatchpointLength::EightBytes => 0b10,
        }
    }

    /// The two bits that stand for the length in the control register.
    #[verifier::when_used_as_spec(spec_code)]
    pub fn code(self) -> (code: i64)
        ensures
            code == self.spec_code(),
    {
        match self {
            WatchpointLength::OneByte => 0b00,
            WatchpointLength::TwoBytes => 0b01,
            WatchpointLength::FourBytes => 0b11,
            WatchpointLength::EightBytes => 0b10,
        }
    }
}

impl TryFrom<usize> for WatchpointLength {
    type Error = Error;

    /// The length that covers `val` bytes. Only 1, 2, 4 and 8 are lengths:
    /// every other value is refused with `Error::WatchpointLengthValue`.
    fn try_from(val: usize) -> (result: Result<Self, Error>) {
        match val {
            1 => Ok(WatchpointLength::OneByte),
            2 => Ok(WatchpointLength::TwoBytes),
            4 => Ok(WatchpointLength::FourBytes),
            8 => Ok(WatchpointLength::EightBytes),
            _ => Err(Error::WatchpointLengthValue(val)),
        }
    }
}

impl vstd::std_specs::convert::TryFromSpecImpl<usize> for WatchpointLength {
    open spec fn obeys_try_from_spec() -> bool {
        true
    }

    open spec fn try_from_spec(val: usize) -> Result<Self, Error> {
        WatchpointLength::of_bytes(val)
    }
}

/// What a hardware slot watches for.
#[derive(Debug, Clone, Copy, PartialEq, Eq)]
pub enum Watchpoint {
    /// The instruction at the address is fetched for execution.
    Execution,
    /// The data at the address is accessed.
    Data { condition: WatchpointDataCondition, length: WatchpointLength },
}

impl Watchpoint {
    /// The four bits that describe a data watchpoint in the control register:
    /// the condition in the low two, the length in the two above.
    pub open spec fn spec_field(self) -> i64 {
        match self {
            Watchpoint::Execution => 0,
            Watchpoint::Data { condition, length } => (condition.code() + 4 * length.code()) as i64,
        }
    }
}

/// Whether the control register enables the slot: bit `2 * slot`.
pub open spec fn slot_enabled(control: i64, slot: usize) -> bool {
    control & (1i64 << (2 * slot) as u64) != 0
}

/// The four bits of the control register that hold the condition and the
/// length of the slot: they begin at bit `16 + 4 * slot`.
pub open spec fn slot_field(control: i64, slot: usize) -> i64 {
    (control >> (16 + 4 * slot) as u64) & 0b1111
}

/// The control register after `watchpoint` is armed in `slot`. The enable bit
/// of the slot is set. For a data watchpoint the field of the slot is cleared
/// and then filled with the condition and the length; for an execution
/// watchpoint the field stays as it is.
pub open spec fn armed_control(control: i64, slot: usize, watchpoint: Watchpoint) -> i64 {
    let enabled = control | (1i64 << (2 * slot) as u64);
    match watchpoint {
        Watchpoint::Execution => enabled,
        Watchpoint::Data { condition, length } => {
            (enabled & !(0b1111i64 << (16 + 4 * slot) as u64))
                | (condition.code() << (16 + 4 * slot) as u64)
                | (length.code() << (18 + 4 * slot) as u64)
        },
    }
}

/// Computes the control register that arms `watchpoint` in `slot`.
pub fn arm_control(control: i64, slot: usize, watchpoint: Watchpoint) -> (armed: i64)
    requires
        slot < MAX_WATCHPOINTS,
    ensures
        armed == armed_control(control, slot, watchpoint),
{
    let enable: u64 = (2 * slot) as u64;
    let enabled: i64 = control | (1i64 << enable);
    match watchpoint {
        Watchpoint::Execution => enabled,
        Watchpoint::Data { condition, length } => {
            let low: u64 = (16 + 4 * slot) as u64;
            let high: u64 = (18 + 4 * slot) as u64;
            let cleared: i64 = enabled & !(0b1111i64 << low);
            cleared | (condition.code() << low) | (length.code() << high)
        },
    }
}

/// The size of a debug register in the user area, in bytes.
pub const DEBUG_REGISTER_SIZE: usize = 8;

/// The place of the debug register with this index in a user area whose
/// debug registers begin at `base`: `base + 8 * index`. There is none where
/// that is more than an offset can hold.
pub fn debug_register_offset(base: usize, index: usize) -> (offset: Option<usize>)
    ensures
        base + DEBUG_REGISTER_SIZE * index <= usize::MAX ==> offset == Some(
            (base + DEBUG_REGISTER_SIZE * index) as usize,
        ),
        base + DEBUG_REGISTER_SIZE * index > usize::MAX ==> offset is None,
{
    match index.checked_mul(DEBUG_REGISTER_SIZE) {
        Some(distance) => base.checked_add(distance),
        None => None,
    }
}

/// Whether the status register reports that the slot fired: bit `slot`.
pub open spec fn status_bit(status: i64, slot: usize) -> bool {
    status & (1i64 << slot as u64) != 0
}

/// Whether `slot` holds a watchpoint that the status register reports as fired.
pub open spec fn triggered(
    status: i64,
    watchpoints: Map<usize, (u64, Watchpoint)>,
    slot: usize,
) -> bool {
    status_bit(status, slot) && watchpoints.dom().contains(slot)
}

/// The watchpoint that a trap is put down to: of the slots that hold a
/// watchpoint and whose status bit is set, the one with the lowest index.
pub open spec fn first_triggered(
    status: i64,
    watchpoints: Map<usize, (u64, Watchpoint)>,
) -> Option<usize> {
    if triggered(status, watchpoints, 0) {
        Some(0)
    } else if triggered(status, watchpoints, 1) {
        Some(1)
    } else if triggered(status, watchpoints, 2) {
        Some(2)
    } else if triggered(status, watchpoints, 3) {
        Some(3)
    } else {
        None
    }
}

/// The lengths are 1, 2, 4 and 8 bytes and no others, and each has the
/// code that the hardware gives it: `0b00`, `0b01`, `0b11` and `0b10`.
pub proof fn lemma_length_codes(val: usize)
    ensures
        WatchpointLength::of_bytes(val) is Ok <==> val == 1 || val == 2 || val == 4 || val
            == 8,
        WatchpointLength::of_bytes(val) matches Ok(length) ==> length.bytes() == val,
        WatchpointLength::of_bytes(val) matches Err(error) ==> error
            == Error::WatchpointLengthValue(val),
        WatchpointLength::of_bytes(1) == Ok::<_, Error>(WatchpointLength::OneByte),
        WatchpointLength::of_bytes(2) == Ok::<_, Error>(WatchpointLength::TwoBytes),
        WatchpointLength::of_bytes(4) == Ok::<_, Error>(WatchpointLength::FourBytes),
        WatchpointLength::of_bytes(8) == Ok::<_, Error>(WatchpointLength::EightBytes),
        WatchpointLength::OneByte.code() == 0b00,
        WatchpointLength::TwoBytes.code() == 0b01,
        WatchpointLength::FourBytes.code() == 0b11,
        WatchpointLength::EightBytes.code() == 0b10,
{
}

/// Arming a slot enables it and touches no other slot. The field of the
/// slot then holds the condition and the length of a data watchpoint; an
/// execution watchpoint leaves the field as it was.
pub proof fn lemma_armed_control(control: i64, slot: usize, watchpoint: Watchpoint, other: usize)
    requires
        slot < MAX_WATCHPOINTS,
        other < MAX_WATCHPOINTS,
    ensures
        slot_enabled(armed_control(control, slot, watchpoint), slot),
        slot_field(armed_control(control, slot, watchpoint), slot) == match watchpoint {
            Watchpoint::Execution => slot_field(control, slot),
            Watchpoint::Data { .. } => watchpoint.spec_field(),
        },
        other != slot ==> slot_enabled(armed_control(control, slot, watchpoint), other)
            == slot_enabled(control, other),
        other != slot ==> slot_field(armed_control(control, slot, watchpoint), other)
            == slot_field(control, other),
{
    let s: u64 = slot as u64;
    let o: u64 = other as u64;
    assert((2 * slot) as u64 == 2 * s && (16 + 4 * slot) as u64 == 16 + 4 * s && (18 + 4 * slot)
        as u64 == 18 + 4 * s);
    assert((2 * other) as u64 == 2 * o && (16 + 4 * other) as u64 == 16 + 4 * o);
    match watchpoint {
        Watchpoint::Execution => {
            assert((control | (1i64 << (2 * s) as u64)) & (1i64 << (2 * s) as u64) != 0
                && ((control | (1i64 << (2 * s) as u64)) >> (16 + 4 * s) as u64) & 0b1111 == (
            control >> (16 + 4 * s) as u64) & 0b1111) by (bit_vector)
                requires
                    0 <= s < 4,
            ;
            assert(o != s ==> (((control | (1i64 << (2 * s) as u64)) & (1i64 << (2 * o) as u64)
                != 0) == (control & (1i64 << (2 * o) as u64) != 0)) && ((control | (1i64 << (2 * s) as u64)) >> (16 + 4 * o) as u64) & 0b1111 == (control >> (16 + 4 * o) as u64)
                & 0b1111) by (bit_vector)
                requires
                    0 <= s < 4,
                    0 <= o < 4,
            ;
        },
        Watchpoint::Data { condition, length } => {
            let c: i64 = condition.code();
            let l: i64 = length.code();
            let armed: i64 = ((control | (1i64 << (2 * s) as u64)) & !(0b1111i64 << (16 + 4 * s) as u64)) | (c << (16 + 4 * s) as u64) | (l << (18 + 4 * s) as u64);
            assert(armed == armed_control(control, slot, watchpoint));
            assert(armed & (1i64 << (2 * s) as u64) != 0 && (armed >> (16 + 4 * s) as u64)
                & 0b1111 == c + 4 * l) by (bit_vector)
                requires
                    0 <= s < 4,
                    0 <= c < 4,
                    0 <= l < 4,
                    armed == ((control | (1i64 << (2 * s) as u64)) & !(0b1111i64 << (16 + 4 * s) as u64)) | (c << (16 + 4 * s) as u64) | (l << (18 + 4 * s) as u64),
            ;
            assert(o != s ==> ((armed & (1i64 << (2 * o) as u64) != 0) == (control & (1i64 << (2 * o) as u64) != 0)) && (armed >> (16 + 4 * o) as u64) & 0b1111 == (control >> (16 + 4 * o) as u64) & 0b1111) by (bit_vector)
                requires
                    0 <= s < 4,
                    0 <= o < 4,
                    0 <= c < 4,
                    0 <= l < 4,
                    armed == ((control | (1i64 << (2 * s) as u64)) & !(0b1111i64 << (16 + 4 * s) as u64)) | (c << (16 + 4 * s) as u64) | (l << (18 + 4 * s) as u64),
            ;
        },
    }
}

} // verus!
