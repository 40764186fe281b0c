//! Names of hardware events, by subclass and minor number.

use vstd::prelude::*;

use crate::name::spec_opt_str;

verus! {

/// The name of a power-management event, by minor number.
pub open spec fn spec_hw_pm_name(minor: u16) -> Option<Seq<char>> {
    if minor == 0x001 {
        Some("hw/pm:freq_change"@)
    } else if minor == 0x002 {
        Some("hw/pm:idle_entry"@)
    } else if minor == 0x003 {
        Some("hw/pm:idle_exit"@)
    } else {
        None
    }
}

/// Looks up the name of a power-management event, by minor number.
fn hw_pm_name(minor: u16) -> (r: Option<&'static str>)
    ensures
        spec_opt_str(r) == spec_hw_pm_name(minor),
{
    if minor == 0x001 {
        Some("hw/pm:freq_change")
    } else if minor == 0x002 {
        Some("hw/pm:idle_entry")
    } else if minor == 0x003 {
        Some("hw/pm:idle_exit")
    } else {
        None
    }
}

/// Every name in this table is a non-empty string.
pub proof fn lemma_hw_pm_name_nonempty(minor: u16)
    ensures
        spec_hw_pm_name(minor) matches Some(s) ==> s.len() > 0,
{
    reveal_strlit("hw/pm:freq_change");
    reveal_strlit("hw/pm:idle_entry");
    reveal_strlit("hw/pm:idle_exit");
}

/// The name of an interrupt-handling event, by minor number.
pub open spec fn spec_hw_irq_name(minor: u16) -> Option<Seq<char>> {
    if minor == 0x001 {
        Some("hw/irq:move_cleanup_delay"@)
    } else if minor == 0x002 {
        Some("hw/irq:move_cleanup"@)
    } else if minor == 0x003 {
        Some("hw/irq:bind_vector"@)
    } else if minor == 0x004 {
        Some("hw/irq:clear_vector"@)
    } else if minor == 0x005 {
        Some("hw/irq:move_finish"@)
    } else if minor == 0x006 {
        Some("hw/irq:assign_vector"@)
    } else if minor == 0x007 {
        Some("hw/irq:unmapped_vector"@)
    } else if minor == 0x008 {
        Some("hw/irq:handled"@)
    } else {
        None
    }
}

/// Looks up the name of an interrupt-handling event, by minor number.
fn hw_irq_name(minor: u16) -> (r: Option<&'static str>)
    ensures
        spec_opt_str(r) == spec_hw_irq_name(minor),
{
    if minor == 0x001 {
        Some("hw/irq:move_cleanup_delay")
    } else if minor == 0x002 {
        Some("hw/irq:move_cleanup")
    } else if minor == 0x003 {
        Some("hw/irq:bind_vector")
    } else if minor == 0x004 {
        Some("hw/irq:clear_vector")
    } else if minor == 0x005 {
        Some("hw/irq:move_finish")
    } else if minor == 0x006 {
        Some("hw/irq:assign_vector")
    } else if minor == 0x007 {
        Some("hw/irq:unmapped_vector")
    } else if minor == 0x008 {
        Some("hw/irq:handled")
    } else {
        None
    }
}

/// Every name in this table is a non-empty string.
pub proof fn lemma_hw_irq_name_nonempty(minor: u16)
    ensures
        spec_hw_irq_name(minor) matches Some(s) ==> s.len() > 0,
{
    reveal_strlit("hw/irq:move_cleanup_delay");
    reveal_strlit("hw/irq:move_cleanup");
    reveal_strlit("hw/irq:bind_vector");
    reveal_strlit("hw/irq:clear_vector");
    reveal_strlit("hw/irq:move_finish");
    reveal_strlit("hw/irq:assign_vector");
    reveal_strlit("hw/irq:unmapped_vector");
    reveal_strlit("hw/irq:handled");
}

/// The name of a hardware event: subclass 1 holds power management,
/// subclass 2 interrupt handling.
pub open spec fn spec_hw_name(sub: u32, minor: u16) -> Option<Seq<char>> {
    if sub == 0x1 {
        spec_hw_pm_name(minor)
    } else if sub == 0x2 {
        spec_hw_irq_name(minor)
    } else {
        None
    }
}

/// Looks up the name of a hardware event.
pub fn get_hw_name(sub: u32, minor: u16) -> (r: Option<&'static str>)
    ensures
        spec_opt_str(r) == spec_hw_name(sub, minor),
{
    if sub == 0x1 {
        hw_pm_name(minor)
    } else if sub == 0x2 {
        hw_irq_name(minor)
    } else {
        None
    }
}

/// Every hardware event name is non-empty.
pub proof fn lemma_hw_name_nonempty(sub: u32, minor: u16)
    ensures
        spec_hw_name(sub, minor) matches Some(s) ==> s.len() > 0,
{
    lemma_hw_pm_name_nonempty(minor);
    lemma_hw_irq_name_nonempty(minor);
}

} // verus!
