//! Event-code layout of the traced hypervisor.
//!
//! A trace event code is a 28-bit packed value.  This library uses one fixed
//! layout throughout: bits 16..27 hold the class (`main`), bits 12..15 the
//! subclass (`sub`), and bits 0..11 the minor number identifying the event
//! inside its class and subclass.

use vstd::prelude::*;

verus! {

/// General trace class.
pub const TRC_GEN: u32 = 0x0001;

/// Scheduler trace class.
pub const TRC_SCHED: u32 = 0x0002;

/// Domain-management operation trace class.
pub const TRC_DOM0OP: u32 = 0x0004;

/// Hardware-assisted virtualization trace class.
pub const TRC_HVM: u32 = 0x0008;

/// Memory trace class.
pub const TRC_MEM: u32 = 0x0010;

/// Paravirtualized-guest trap trace class.
pub const TRC_PV: u32 = 0x0020;

/// Shadow-paging trace class.
pub const TRC_SHADOW: u32 = 0x0040;

/// Hardware (power-management and interrupt) trace class.
pub const TRC_HW: u32 = 0x0080;

/// Guest-generated trace class.
pub const TRC_GUEST: u32 = 0x0800;

/// The "CPU change" event code that starts every XenTrace binary file.
pub const TRC_TRACE_CPU_CHANGE: u32 = 0x0001F003;

/// The class field of a packed event code: bits 16..27.
pub open spec fn spec_code_main(code: u32) -> u32 {
    (code & 0x0FFF0000) >> 16
}

/// The subclass field of a packed event code: bits 12..15.
pub open spec fn spec_code_sub(code: u32) -> u32 {
    (code & 0x0000F000) >> 12
}

/// The minor field of a packed event code: bits 0..11.
pub open spec fn spec_code_minor(code: u32) -> u32 {
    code & 0x00000FFF
}

/// Extracts the class field of a packed event code.
pub fn code_main(code: u32) -> (r: u32)
    ensures
        r == spec_code_main(code),
{
    (code & 0x0FFF0000) >> 16
}

/// Extracts the subclass field of a packed event code.
pub fn code_sub(code: u32) -> (r: u32)
    ensures
        r == spec_code_sub(code),
{
    (code & 0x0000F000) >> 12
}

/// Extracts the minor field of a packed event code.
pub fn code_minor(code: u32) -> (r: u32)
    ensures
        r == spec_code_minor(code),
{
    code & 0x00000FFF
}

/// The minor field never exceeds its 12-bit width.
pub proof fn lemma_code_minor_bound(code: u32)
    ensures
        spec_code_minor(code) <= 0xFFF,
{
    assert(code & 0x00000FFF <= 0xFFF) by (bit_vector);
}

/// Whether the first word of a candidate file marks it as a XenTrace
/// capture: its low 28 bits must be the "CPU change" event code.
pub open spec fn spec_is_trace_start_word(word: u32) -> bool {
    word & 0x0FFFFFFF == TRC_TRACE_CPU_CHANGE
}

/// Decides, from the first 4 bytes of a candidate file read as a
/// native-endian 32-bit word, whether the file is a XenTrace capture.
pub fn is_trace_start_word(word: u32) -> (r: bool)
    ensures
        r == spec_is_trace_start_word(word),
{
    word & 0x0FFFFFFF == TRC_TRACE_CPU_CHANGE
}

} // verus!
