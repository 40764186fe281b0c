//! Names of hardware-assisted virtualization events, by subclass and minor number.

use vstd::prelude::*;

use crate::name::spec_opt_str;

verus! {

/// The name of a VM entry/exit event, by minor number.
pub open spec fn spec_hvm_entryexit_name(minor: u16) -> Option<Seq<char>> {
    if minor == 0x001 {
        Some("hwm:vmentry"@)
    } else if minor == 0x002 {
        Some("hwm:vmexit"@)
    } else if minor == 0x102 {
        Some("hwm:vmexit64"@)
    } else if minor == 0x401 {
        Some("hwm:nested_vmentry"@)
    } else if minor == 0x402 {
        Some("hwm:nested_vmexit"@)
    } else if minor == 0x502 {
        Some("hwm:nested_vmexit64"@)
    } else {
        None
    }
}

/// Looks up the name of a VM entry/exit event, by minor number.
fn hvm_entryexit_name(minor: u16) -> (r: Option<&'static str>)
    ensures
        spec_opt_str(r) == spec_hvm_entryexit_name(minor),
{
    if minor == 0x001 {
        Some("hwm:vmentry")
    } else if minor == 0x002 {
        Some("hwm:vmexit")
    } else if minor == 0x102 {
        Some("hwm:vmexit64")
    } else if minor == 0x401 {
        Some("hwm:nested_vmentry")
    } else if minor == 0x402 {
        Some("hwm:nested_vmexit")
    } else if minor == 0x502 {
        Some("hwm:nested_vmexit64")
    } else {
        None
    }
}

/// Every name in this table is a non-empty string.
pub proof fn lemma_hvm_entryexit_name_nonempty(minor: u16)
    ensures
        spec_hvm_entryexit_name(minor) matches Some(s) ==> s.len() > 0,
{
    reveal_strlit("hwm:vmentry");
    reveal_strlit("hwm:vmexit");
    reveal_strlit("hwm:vmexit64");
    reveal_strlit("hwm:nested_vmentry");
    reveal_strlit("hwm:nested_vmexit");
    reveal_strlit("hwm:nested_vmexit64");
}

/// The name of an exit-handler event, by minor number.
pub open spec fn spec_hvm_handler_name(minor: u16) -> Option<Seq<char>> {
    if minor == 0x001 {
        Some("hwm:pf_xen"@)
    } else if minor == 0x101 {
        Some("hwm:pf_xen64"@)
    } else if minor == 0x002 {
        Some("hwm:pf_inject"@)
    } else if minor == 0x102 {
        Some("hwm:pf_inject64"@)
    } else if minor == 0x003 {
        Some("hwm:inj_exc"@)
    } else if minor == 0x004 {
        Some("hwm:inj_virq"@)
    } else if minor == 0x005 {
        Some("hwm:reinj_virq"@)
    } else if minor == 0x006 {
        Some("hwm:io_read"@)
    } else if minor == 0x007 {
        Some("hwm:io_write"@)
    } else if minor == 0x008 {
        Some("hwm:cr_read"@)
    } else if minor == 0x108 {
        Some("hwm:cr_read64"@)
    } else if minor == 0x009 {
        Some("hwm:cr_write"@)
    } else if minor == 0x109 {
        Some("hwm:cr_write64"@)
    } else if minor == 0x00A {
        Some("hwm:dr_read"@)
    } else if minor == 0x00B {
        Some("hwm:dr_write"@)
    } else if minor == 0x00C {
        Some("hwm:msr_read"@)
    } else if minor == 0x00D {
        Some("hwm:msr_write"@)
    } else if minor == 0x00E {
        Some("hwm:cpuid"@)
    } else if minor == 0x00F {
        Some("hwm:intr"@)
    } else if minor == 0x010 {
        Some("hwm:nmi"@)
    } else if minor == 0x011 {
        Some("hwm:smi"@)
    } else if minor == 0x012 {
        Some("hwm:vmmcall"@)
    } else if minor == 0x013 {
        Some("hwm:hlt"@)
    } else if minor == 0x014 {
        Some("hwm:invlpg"@)
    } else if minor == 0x114 {
        Some("hwm:invlpg64"@)
    } else if minor == 0x015 {
        Some("hwm:mce"@)
    } else if minor == 0x016 {
        Some("hwm:ioport_read"@)
    } else if minor == 0x216 {
        Some("hwm:ioport_write"@)
    } else if minor == 0x017 {
        Some("hwm:iomem_read"@)
    } else if minor == 0x217 {
        Some("hwm:iomem_write"@)
    } else if minor == 0x018 {
        Some("hwm:clts"@)
    } else if minor == 0x019 {
        Some("hwm:lmsw"@)
    } else if minor == 0x119 {
        Some("hwm:lmsw64"@)
    } else if minor == 0x01A {
        Some("hwm:rdtsc"@)
    } else if minor == 0x020 {
        Some("hwm:intr_window"@)
    } else if minor == 0x021 {
        Some("hwm:npf"@)
    } else if minor == 0x022 {
        Some("hwm:realmode_emulate"@)
    } else if minor == 0x023 {
        Some("hwm:trap"@)
    } else if minor == 0x024 {
        Some("hwm:trap_debug"@)
    } else if minor == 0x025 {
        Some("hwm:vlapic"@)
    } else {
        None
    }
}

/// Looks up the name of an exit-handler event, by minor number.
fn hvm_handler_name(minor: u16) -> (r: Option<&'static str>)
    ensures
        spec_opt_str(r) == spec_hvm_handler_name(minor),
{
    if minor == 0x001 {
        Some("hwm:pf_xen")
    } else if minor == 0x101 {
        Some("hwm:pf_xen64")
    } else if minor == 0x002 {
        Some("hwm:pf_inject")
    } else if minor == 0x102 {
        Some("hwm:pf_inject64")
    } else if minor == 0x003 {
        Some("hwm:inj_exc")
    } else if minor == 0x004 {
        Some("hwm:inj_virq")
    } else if minor == 0x005 {
        Some("hwm:reinj_virq")
    } else if minor == 0x006 {
        Some("hwm:io_read")
    } else if minor == 0x007 {
        Some("hwm:io_write")
    } else if minor == 0x008 {
        Some("hwm:cr_read")
    } else if minor == 0x108 {
        Some("hwm:cr_read64")
    } else if minor == 0x009 {
        Some("hwm:cr_write")
    } else if minor == 0x109 {
        Some("hwm:cr_write64")
    } else if minor == 0x00A {
        Some("hwm:dr_read")
    } else if minor == 0x00B {
        Some("hwm:dr_write")
    } else if minor == 0x00C {
        Some("hwm:msr_read")
    } else if minor == 0x00D {
        Some("hwm:msr_write")
    } else if minor == 0x00E {
        Some("hwm:cpuid")
    } else if minor == 0x00F {
        Some("hwm:intr")
    } else if minor == 0x010 {
        Some("hwm:nmi")
    } else if minor == 0x011 {
        Some("hwm:smi")
    } else if minor == 0x012 {
        Some("hwm:vmmcall")
    } else if minor == 0x013 {
        Some("hwm:hlt")
    } else if minor == 0x014 {
        Some("hwm:invlpg")
    } else if minor == 0x114 {
        Some("hwm:invlpg64")
    } else if minor == 0x015 {
        Some("hwm:mce")
    } else if minor == 0x016 {
        Some("hwm:ioport_read")
    } else if minor == 0x216 {
        Some("hwm:ioport_write")
    } else if minor == 0x017 {
        Some("hwm:iomem_read")
    } else if minor == 0x217 {
        Some("hwm:iomem_write")
    } else if minor == 0x018 {
        Some("hwm:clts")
    } else if minor == 0x019 {
        Some("hwm:lmsw")
    } else if minor == 0x119 {
        Some("hwm:lmsw64")
    } else if minor == 0x01A {
        Some("hwm:rdtsc")
    } else if minor == 0x020 {
        Some("hwm:intr_window")
    } else if minor == 0x021 {
        Some("hwm:npf")
    } else if minor == 0x022 {
        Some("hwm:realmode_emulate")
    } else if minor == 0x023 {
        Some("hwm:trap")
    } else if minor == 0x024 {
        Some("hwm:trap_debug")
    } else if minor == 0x025 {
        Some("hwm:vlapic")
    } else {
        None
    }
}

/// Every name in this table is a non-empty string.
pub proof fn lemma_hvm_handler_name_nonempty(minor: u16)
    ensures
        spec_hvm_handler_name(minor) matches Some(s) ==> s.len() > 0,
{
    reveal_strlit("hwm:pf_xen");
    reveal_strlit("hwm:pf_xen64");
    reveal_strlit("hwm:pf_inject");
    reveal_strlit("hwm:pf_inject64");
    reveal_strlit("hwm:inj_exc");
    reveal_strlit("hwm:inj_virq");
    reveal_strlit("hwm:reinj_virq");
    reveal_strlit("hwm:io_read");
    reveal_strlit("hwm:io_write");
    reveal_strlit("hwm:cr_read");
    reveal_strlit("hwm:cr_read64");
    reveal_strlit("hwm:cr_write");
    reveal_strlit("hwm:cr_write64");
    reveal_strlit("hwm:dr_read");
    reveal_strlit("hwm:dr_write");
    reveal_strlit("hwm:msr_read");
    reveal_strlit("hwm:msr_write");
    reveal_strlit("hwm:cpuid");
    reveal_strlit("hwm:intr");
    reveal_strlit("hwm:nmi");
    reveal_strlit("hwm:smi");
    reveal_strlit("hwm:vmmcall");
    reveal_strlit("hwm:hlt");
    reveal_strlit("hwm:invlpg");
    reveal_strlit("hwm:invlpg64");
    reveal_strlit("hwm:mce");
    reveal_strlit("hwm:ioport_read");
    reveal_strlit("hwm:ioport_write");
    reveal_strlit("hwm:iomem_read");
    reveal_strlit("hwm:iomem_write");
    reveal_strlit("hwm:clts");
    reveal_strlit("hwm:lmsw");
    reveal_strlit("hwm:lmsw64");
    reveal_strlit("hwm:rdtsc");
    reveal_strlit("hwm:intr_window");
    reveal_strlit("hwm:npf");
    reveal_strlit("hwm:realmode_emulate");
    reveal_strlit("hwm:trap");
    reveal_strlit("hwm:trap_debug");
    reveal_strlit("hwm:vlapic");
}

/// The name of a device-emulation event, by minor number.
pub open spec fn spec_hvm_emul_name(minor: u16) -> Option<Seq<char>> {
    if minor == 0x001 {
        Some("hwm/emul:hpet_start_timer"@)
    } else if minor == 0x002 {
        Some("hwm/emul:pit_start_timer"@)
    } else if minor == 0x003 {
        Some("hwm/emul:rtc_start_timer"@)
    } else if minor == 0x004 {
        Some("hwm/emul:lapic_start_timer"@)
    } else if minor == 0x005 {
        Some("hwm/emul:hpet_stop_timer"@)
    } else if minor == 0x006 {
        Some("hwm/emul:pit_stop_timer"@)
    } else if minor == 0x007 {
        Some("hwm/emul:rtc_stop_timer"@)
    } else if minor == 0x008 {
        Some("hwm/emul:lapic_stop_timer"@)
    } else if minor == 0x009 {
        Some("hwm/emul:pit_timer_cb"@)
    } else if minor == 0x00A {
        Some("hwm/emul:lapic_timer_cb"@)
    } else if minor == 0x00B {
        Some("hwm/emul:pic_int_output"@)
    } else if minor == 0x00C {
        Some("hwm/emul:pic_kick"@)
    } else if minor == 0x00D {
        Some("hwm/emul:pic_intack"@)
    } else if minor == 0x00E {
        Some("hwm/emul:pic_posedge"@)
    } else if minor == 0x00F {
        Some("hwm/emul:pic_negedge"@)
    } else if minor == 0x010 {
        Some("hwm/emul:pic_pend_irq_call"@)
    } else if minor == 0x011 {
        Some("hwm/emul:lapic_pic_intr"@)
    } else {
        None
    }
}

/// Looks up the name of a device-emulation event, by minor number.
fn hvm_emul_name(minor: u16) -> (r: Option<&'static str>)
    ensures
        spec_opt_str(r) == spec_hvm_emul_name(minor),
{
    if minor == 0x001 {
        Some("hwm/emul:hpet_start_timer")
    } else if minor == 0x002 {
        Some("hwm/emul:pit_start_timer")
    } else if minor == 0x003 {
        Some("hwm/emul:rtc_start_timer")
    } else if minor == 0x004 {
        Some("hwm/emul:lapic_start_timer")
    } else if minor == 0x005 {
        Some("hwm/emul:hpet_stop_timer")
    } else if minor == 0x006 {
        Some("hwm/emul:pit_stop_timer")
    } else if minor == 0x007 {
        Some("hwm/emul:rtc_stop_timer")
    } else if minor == 0x008 {
        Some("hwm/emul:lapic_stop_timer")
    } else if minor == 0x009 {
        Some("hwm/emul:pit_timer_cb")
    } else if minor == 0x00A {
        Some("hwm/emul:lapic_timer_cb")
    } else if minor == 0x00B {
        Some("hwm/emul:pic_int_output")
    } else if minor == 0x00C {
        Some("hwm/emul:pic_kick")
    } else if minor == 0x00D {
        Some("hwm/emul:pic_intack")
    } else if minor == 0x00E {
        Some("hwm/emul:pic_posedge")
    } else if minor == 0x00F {
        Some("hwm/emul:pic_negedge")
    } else if minor == 0x010 {
        Some("hwm/emul:pic_pend_irq_call")
    } else if minor == 0x011 {
        Some("hwm/emul:lapic_pic_intr")
    } else {
        None
    }
}

/// Every name in this table is a non-empty string.
pub proof fn lemma_hvm_emul_name_nonempty(minor: u16)
    ensures
        spec_hvm_emul_name(minor) matches Some(s) ==> s.len() > 0,
{
    reveal_strlit("hwm/emul:hpet_start_timer");
    reveal_strlit("hwm/emul:pit_start_timer");
    reveal_strlit("hwm/emul:rtc_start_timer");
    reveal_strlit("hwm/emul:lapic_start_timer");
    reveal_strlit("hwm/emul:hpet_stop_timer");
    reveal_strlit("hwm/emul:pit_stop_timer");
    reveal_strlit("hwm/emul:rtc_stop_timer");
    reveal_strlit("hwm/emul:lapic_stop_timer");
    reveal_strlit("hwm/emul:pit_timer_cb");
    reveal_strlit("hwm/emul:lapic_timer_cb");
    reveal_strlit("hwm/emul:pic_int_output");
    reveal_strlit("hwm/emul:pic_kick");
    reveal_strlit("hwm/emul:pic_intack");
    reveal_strlit("hwm/emul:pic_posedge");
    reveal_strlit("hwm/emul:pic_negedge");
    reveal_strlit("hwm/emul:pic_pend_irq_call");
    reveal_strlit("hwm/emul:lapic_pic_intr");
}

/// The name of a hardware-assisted virtualization event: subclass 1 holds
/// VM entries and exits, subclass 2 the exit handlers, subclass 4 device
/// emulation.
pub open spec fn spec_hvm_name(sub: u32, minor: u16) -> Option<Seq<char>> {
    if sub == 0x1 {
        spec_hvm_entryexit_name(minor)
    } else if sub == 0x2 {
        spec_hvm_handler_name(minor)
    } else if sub == 0x4 {
        spec_hvm_emul_name(minor)
    } else {
        None
    }
}

/// Looks up the name of a hardware-assisted virtualization event.
pub fn get_hvm_name(sub: u32, minor: u16) -> (r: Option<&'static str>)
    ensures
        spec_opt_str(r) == spec_hvm_name(sub, minor),
{
    if sub == 0x1 {
        hvm_entryexit_name(minor)
    } else if sub == 0x2 {
        hvm_handler_name(minor)
    } else if sub == 0x4 {
        hvm_emul_name(minor)
    } else {
        None
    }
}

/// Every hardware-assisted virtualization event name is non-empty.
pub proof fn lemma_hvm_name_nonempty(sub: u32, minor: u16)
    ensures
        spec_hvm_name(sub, minor) matches Some(s) ==> s.len() > 0,
{
    lemma_hvm_entryexit_name_nonempty(minor);
    lemma_hvm_handler_name_nonempty(minor);
    lemma_hvm_emul_name_nonempty(minor);
}

} // verus!
