//! The three waitpkg operations, each computed as the exact instruction
//! invocation it stands for.
use vstd::prelude::*;
use crate::counter::{CounterHalves, high_half, low_half, joined, split_counter, join_counter};

verus! {

/// One invocation of a waitpkg instruction, with the operands it receives.
///
/// `Monitor` arms the address monitor (`UMONITOR`); the address is carried as
/// an opaque value and never dereferenced. `Wait` (`UMWAIT`) and `Pause`
/// (`TPAUSE`) wait until the timestamp counter reaches the deadline whose
/// halves they carry; bit 0 of `ctrl` picks the faster-wakeup state.
#[derive(Clone, Copy, Debug, PartialEq, Eq, Structural)]
pub enum Instruction {
    Monitor { address: usize },
    Wait { ctrl: u32, counter_hi: u32, counter_lo: u32 },
    Pause { ctrl: u32, counter_hi: u32, counter_lo: u32 },
}

/// The `UMONITOR` invocation that arms the monitor on `address`.
pub open spec fn monitor_instruction(address: usize) -> Instruction {
    Instruction::Monitor { address }
}

/// The `UMWAIT` invocation for control word `ctrl` and deadline `counter`.
pub open spec fn wait_instruction(ctrl: u32, counter: u64) -> Instruction {
    Instruction::Wait { ctrl, counter_hi: high_half(counter), counter_lo: low_half(counter) }
}

/// The `TPAUSE` invocation for control word `ctrl` and deadline `counter`.
pub open spec fn pause_instruction(ctrl: u32, counter: u64) -> Instruction {
    Instruction::Pause { ctrl, counter_hi: high_half(counter), counter_lo: low_half(counter) }
}

/// The deadline an invocation waits for, rebuilt from its two halves; none
/// for `Monitor`.
pub open spec fn deadline_of(i: Instruction) -> Option<u64> {
    match i {
        Instruction::Monitor { .. } => None,
        Instruction::Wait { counter_hi, counter_lo, .. } => Some(joined(counter_hi, counter_lo)),
        Instruction::Pause { counter_hi, counter_lo, .. } => Some(joined(counter_hi, counter_lo)),
    }
}

/// The control word an invocation carries; none for `Monitor`.
pub open spec fn ctrl_of(i: Instruction) -> Option<u32> {
    match i {
        Instruction::Monitor { .. } => None,
        Instruction::Wait { ctrl, .. } => Some(ctrl),
        Instruction::Pause { ctrl, .. } => Some(ctrl),
    }
}

/// Arms the monitor on `address`: the address is handed on unchanged.
pub fn umonitor(address: usize) -> (r: Instruction)
    ensures
        r == monitor_instruction(address),
        r == (Instruction::Monitor { address }),
{
    Instruction::Monitor { address }
}

/// Waits on the armed monitor until the timestamp counter reaches `counter`.
/// `ctrl` is handed on unchanged; `counter` goes as its upper and lower
/// 32-bit halves.
pub fn umwait(ctrl: u32, counter: u64) -> (r: Instruction)
    ensures
        r == wait_instruction(ctrl, counter),
        ctrl_of(r) == Some(ctrl),
{
    let h: CounterHalves = split_counter(counter);
    Instruction::Wait { ctrl, counter_hi: h.high, counter_lo: h.low }
}

/// Pauses until the timestamp counter reaches `counter`, with no monitor.
/// `ctrl` is handed on unchanged; `counter` goes as its upper and lower
/// 32-bit halves.
pub fn tpause(ctrl: u32, counter: u64) -> (r: Instruction)
    ensures
        r == pause_instruction(ctrl, counter),
        ctrl_of(r) == Some(ctrl),
{
    let h: CounterHalves = split_counter(counter);
    Instruction::Pause { ctrl, counter_hi: h.high, counter_lo: h.low }
}

impl Instruction {
    /// The deadline this invocation waits for, rebuilt from its halves.
    pub fn deadline(&self) -> (r: Option<u64>)
        ensures
            r == deadline_of(*self),
    {
        match *self {
            Instruction::Monitor { .. } => None,
            Instruction::Wait { counter_hi, counter_lo, .. } => Some(
                join_counter(CounterHalves { high: counter_hi, low: counter_lo }),
            ),
            Instruction::Pause { counter_hi, counter_lo, .. } => Some(
                join_counter(CounterHalves { high: counter_hi, low: counter_lo }),
            ),
        }
    }

    /// The control word this invocation carries.
    pub fn ctrl(&self) -> (r: Option<u32>)
        ensures
            r == ctrl_of(*self),
    {
        match *self {
            Instruction::Monitor { .. } => None,
            Instruction::Wait { ctrl, .. } => Some(ctrl),
            Instruction::Pause { ctrl, .. } => Some(ctrl),
        }
    }
}

/// The wait and pause invocations lose nothing of their deadline: the halves
/// they carry join back to exactly the deadline that was asked for.
pub proof fn lemma_deadline_kept(ctrl: u32, counter: u64)
    ensures
        deadline_of(wait_instruction(ctrl, counter)) == Some(counter),
        deadline_of(pause_instruction(ctrl, counter)) == Some(counter),
{
    crate::counter::lemma_split_join_round_trip(counter);
}

} // verus!
