//! Classification of a packed event code and its resolution to a
//! human-readable event name.
//!
//! Each trace class owns a static, total mapping from (subclass, minor)
//! or minor alone to a descriptive name.  Lookup never fails: a code with
//! no table entry resolves to a formatted fallback naming the raw code.

pub mod hvm;
pub mod hw;
pub mod sched;

use vstd::prelude::*;

use crate::record::Event;
use crate::text::{hex8, spec_hex8};
use crate::xen::{
    code_main, code_minor, code_sub, lemma_code_minor_bound, spec_code_main, spec_code_minor,
    spec_code_sub, TRC_DOM0OP, TRC_GEN, TRC_GUEST, TRC_HVM, TRC_HW, TRC_MEM, TRC_PV, TRC_SCHED,
    TRC_SHADOW,
};

pub use self::hvm::{get_hvm_name, spec_hvm_name};
pub use self::hw::{get_hw_name, spec_hw_name};
pub use self::sched::{get_sched_name, spec_sched_name};

verus! {

/// The view of an optional borrowed name: the character sequence of the
/// name, if one was found.
pub open spec fn spec_opt_str(o: Option<&str>) -> Option<Seq<char>> {
    match o {
        Some(s) => Some(s@),
        None => None,
    }
}

/// The coarse class a packed event code belongs to.
#[derive(Clone, Copy, Debug, PartialEq, Eq, Structural)]
pub enum Category {
    /// General trace events.
    General,
    /// Scheduler events.
    Scheduler,
    /// Domain-management operations.
    DomManagement,
    /// Hardware-assisted virtualization events.
    Hvm,
    /// Memory events.
    Memory,
    /// Paravirtualized-guest traps.
    Pv,
    /// Shadow-paging events.
    Shadow,
    /// Hardware (power management, interrupts) events.
    Hardware,
    /// Guest-generated events.
    Guest,
    /// A class this taxonomy does not know.
    Unrecognized,
}

/// The category a packed event code falls in, decided by its class field.
pub open spec fn spec_category_of(code: u32) -> Category {
    let main = spec_code_main(code);
    if main == TRC_GEN {
        Category::General
    } else if main == TRC_SCHED {
        Category::Scheduler
    } else if main == TRC_DOM0OP {
        Category::DomManagement
    } else if main == TRC_HVM {
        Category::Hvm
    } else if main == TRC_MEM {
        Category::Memory
    } else if main == TRC_PV {
        Category::Pv
    } else if main == TRC_SHADOW {
        Category::Shadow
    } else if main == TRC_HW {
        Category::Hardware
    } else if main == TRC_GUEST {
        Category::Guest
    } else {
        Category::Unrecognized
    }
}

/// Decomposes a packed event code into its category, subclass and minor
/// number.
pub fn classify(code: u32) -> (r: (Category, u32, u32))
    ensures
        r.0 == spec_category_of(code),
        r.1 == spec_code_sub(code),
        r.2 == spec_code_minor(code),
{
    let main = code_main(code);
    let category = if main == TRC_GEN {
        Category::General
    } else if main == TRC_SCHED {
        Category::Scheduler
    } else if main == TRC_DOM0OP {
        Category::DomManagement
    } else if main == TRC_HVM {
        Category::Hvm
    } else if main == TRC_MEM {
        Category::Memory
    } else if main == TRC_PV {
        Category::Pv
    } else if main == TRC_SHADOW {
        Category::Shadow
    } else if main == TRC_HW {
        Category::Hardware
    } else if main == TRC_GUEST {
        Category::Guest
    } else {
        Category::Unrecognized
    };
    (category, code_sub(code), code_minor(code))
}

/// The name of a general trace event, by minor number.
pub open spec fn spec_gen_name(minor: u16) -> Option<Seq<char>> {
    if minor == 0x001 {
        Some("gen:lost_records"@)
    } else if minor == 0x002 {
        Some("gen:wrap_buffer"@)
    } else if minor == 0x003 {
        Some("gen:cpu_change"@)
    } else {
        None
    }
}

/// Looks up the name of a general trace event, by minor number.
fn gen_name(minor: u16) -> (r: Option<&'static str>)
    ensures
        spec_opt_str(r) == spec_gen_name(minor),
{
    if minor == 0x001 {
        Some("gen:lost_records")
    } else if minor == 0x002 {
        Some("gen:wrap_buffer")
    } else if minor == 0x003 {
        Some("gen:cpu_change")
    } else {
        None
    }
}

/// Every name in this table is a non-empty string.
pub proof fn lemma_gen_name_nonempty(minor: u16)
    ensures
        spec_gen_name(minor) matches Some(s) ==> s.len() > 0,
{
    reveal_strlit("gen:lost_records");
    reveal_strlit("gen:wrap_buffer");
    reveal_strlit("gen:cpu_change");
}

/// The name of a domain-management event, by minor number.
pub open spec fn spec_dom0op_name(minor: u16) -> Option<Seq<char>> {
    if minor == 0x001 {
        Some("dom0:create"@)
    } else if minor == 0x002 {
        Some("dom0:destroy"@)
    } else {
        None
    }
}

/// Looks up the name of a domain-management event, by minor number.
fn dom0op_name(minor: u16) -> (r: Option<&'static str>)
    ensures
        spec_opt_str(r) == spec_dom0op_name(minor),
{
    if minor == 0x001 {
        Some("dom0:create")
    } else if minor == 0x002 {
        Some("dom0:destroy")
    } else {
        None
    }
}

/// Every name in this table is a non-empty string.
pub proof fn lemma_dom0op_name_nonempty(minor: u16)
    ensures
        spec_dom0op_name(minor) matches Some(s) ==> s.len() > 0,
{
    reveal_strlit("dom0:create");
    reveal_strlit("dom0:destroy");
}

/// The name of a memory event, by minor number.
pub open spec fn spec_mem_name(minor: u16) -> Option<Seq<char>> {
    if minor == 0x001 {
        Some("mem:page_grant_map"@)
    } else if minor == 0x002 {
        Some("mem:page_grant_unmap"@)
    } else if minor == 0x003 {
        Some("mem:page_grant_transfer"@)
    } else if minor == 0x004 {
        Some("mem:set_p2m_entry"@)
    } else if minor == 0x005 {
        Some("mem:decrease_reservation"@)
    } else if minor == 0x010 {
        Some("mem:pod_populate"@)
    } else if minor == 0x011 {
        Some("mem:pod_zero_reclaim"@)
    } else if minor == 0x012 {
        Some("mem:pod_superpage_splinter"@)
    } else {
        None
    }
}

/// Looks up the name of a memory event, by minor number.
fn mem_name(minor: u16) -> (r: Option<&'static str>)
    ensures
        spec_opt_str(r) == spec_mem_name(minor),
{
    if minor == 0x001 {
        Some("mem:page_grant_map")
    } else if minor == 0x002 {
        Some("mem:page_grant_unmap")
    } else if minor == 0x003 {
        Some("mem:page_grant_transfer")
    } else if minor == 0x004 {
        Some("mem:set_p2m_entry")
    } else if minor == 0x005 {
        Some("mem:decrease_reservation")
    } else if minor == 0x010 {
        Some("mem:pod_populate")
    } else if minor == 0x011 {
        Some("mem:pod_zero_reclaim")
    } else if minor == 0x012 {
        Some("mem:pod_superpage_splinter")
    } else {
        None
    }
}

/// Every name in this table is a non-empty string.
pub proof fn lemma_mem_name_nonempty(minor: u16)
    ensures
        spec_mem_name(minor) matches Some(s) ==> s.len() > 0,
{
    reveal_strlit("mem:page_grant_map");
    reveal_strlit("mem:page_grant_unmap");
    reveal_strlit("mem:page_grant_transfer");
    reveal_strlit("mem:set_p2m_entry");
    reveal_strlit("mem:decrease_reservation");
    reveal_strlit("mem:pod_populate");
    reveal_strlit("mem:pod_zero_reclaim");
    reveal_strlit("mem:pod_superpage_splinter");
}

/// The name of a paravirtualized-guest trap event, by masked minor number.
pub open spec fn spec_pv_name(minor: u16) -> Option<Seq<char>> {
    if minor == 0x001 {
        Some("pv:hypercall"@)
    } else if minor == 0x003 {
        Some("pv:trap"@)
    } else if minor == 0x004 {
        Some("pv:page_fault"@)
    } else if minor == 0x005 {
        Some("pv:forced_invalid_op"@)
    } else if minor == 0x006 {
        Some("pv:emulate_privop"@)
    } else if minor == 0x007 {
        Some("pv:emulate_4gb"@)
    } else if minor == 0x008 {
        Some("pv:math_state_restore"@)
    } else if minor == 0x009 {
        Some("pv:paging_fixup"@)
    } else if minor == 0x00A {
        Some("pv:gdt_ldt_mapping_fault"@)
    } else if minor == 0x00B {
        Some("pv:ptwr_emulation"@)
    } else if minor == 0x00C {
        Some("pv:ptwr_emulation_pae"@)
    } else if minor == 0x00D {
        Some("pv:hypercall_v2"@)
    } else if minor == 0x00E {
        Some("pv:hypercall_subcall"@)
    } else {
        None
    }
}

/// Looks up the name of a paravirtualized-guest trap event, by masked minor number.
fn pv_name(minor: u16) -> (r: Option<&'static str>)
    ensures
        spec_opt_str(r) == spec_pv_name(minor),
{
    if minor == 0x001 {
        Some("pv:hypercall")
    } else if minor == 0x003 {
        Some("pv:trap")
    } else if minor == 0x004 {
        Some("pv:page_fault")
    } else if minor == 0x005 {
        Some("pv:forced_invalid_op")
    } else if minor == 0x006 {
        Some("pv:emulate_privop")
    } else if minor == 0x007 {
        Some("pv:emulate_4gb")
    } else if minor == 0x008 {
        Some("pv:math_state_restore")
    } else if minor == 0x009 {
        Some("pv:paging_fixup")
    } else if minor == 0x00A {
        Some("pv:gdt_ldt_mapping_fault")
    } else if minor == 0x00B {
        Some("pv:ptwr_emulation")
    } else if minor == 0x00C {
        Some("pv:ptwr_emulation_pae")
    } else if minor == 0x00D {
        Some("pv:hypercall_v2")
    } else if minor == 0x00E {
        Some("pv:hypercall_subcall")
    } else {
        None
    }
}

/// Every name in this table is a non-empty string.
pub proof fn lemma_pv_name_nonempty(minor: u16)
    ensures
        spec_pv_name(minor) matches Some(s) ==> s.len() > 0,
{
    reveal_strlit("pv:hypercall");
    reveal_strlit("pv:trap");
    reveal_strlit("pv:page_fault");
    reveal_strlit("pv:forced_invalid_op");
    reveal_strlit("pv:emulate_privop");
    reveal_strlit("pv:emulate_4gb");
    reveal_strlit("pv:math_state_restore");
    reveal_strlit("pv:paging_fixup");
    reveal_strlit("pv:gdt_ldt_mapping_fault");
    reveal_strlit("pv:ptwr_emulation");
    reveal_strlit("pv:ptwr_emulation_pae");
    reveal_strlit("pv:hypercall_v2");
    reveal_strlit("pv:hypercall_subcall");
}

/// The name of a shadow-paging event, by masked minor number.
pub open spec fn spec_shadow_name(minor: u16) -> Option<Seq<char>> {
    if minor == 0x001 {
        Some("shadow:not_shadow"@)
    } else if minor == 0x002 {
        Some("shadow:fast_propagate"@)
    } else if minor == 0x003 {
        Some("shadow:fast_mmio"@)
    } else if minor == 0x004 {
        Some("shadow:false_fast_path"@)
    } else if minor == 0x005 {
        Some("shadow:mmio"@)
    } else if minor == 0x006 {
        Some("shadow:fixup"@)
    } else if minor == 0x007 {
        Some("shadow:domf_dying"@)
    } else if minor == 0x008 {
        Some("shadow:emulate"@)
    } else if minor == 0x009 {
        Some("shadow:emulate_unshadow_user"@)
    } else if minor == 0x00A {
        Some("shadow:emulate_unshadow_evtinj"@)
    } else if minor == 0x00B {
        Some("shadow:emulate_unshadow_unhandled"@)
    } else if minor == 0x00C {
        Some("shadow:wrmap_bf"@)
    } else if minor == 0x00D {
        Some("shadow:prealloc_unpin"@)
    } else if minor == 0x00E {
        Some("shadow:resync_full"@)
    } else if minor == 0x00F {
        Some("shadow:resync_only"@)
    } else {
        None
    }
}

/// Looks up the name of a shadow-paging event, by masked minor number.
fn shadow_name(minor: u16) -> (r: Option<&'static str>)
    ensures
        spec_opt_str(r) == spec_shadow_name(minor),
{
    if minor == 0x001 {
        Some("shadow:not_shadow")
    } else if minor == 0x002 {
        Some("shadow:fast_propagate")
    } else if minor == 0x003 {
        Some("shadow:fast_mmio")
    } else if minor == 0x004 {
        Some("shadow:false_fast_path")
    } else if minor == 0x005 {
        Some("shadow:mmio")
    } else if minor == 0x006 {
        Some("shadow:fixup")
    } else if minor == 0x007 {
        Some("shadow:domf_dying")
    } else if minor == 0x008 {
        Some("shadow:emulate")
    } else if minor == 0x009 {
        Some("shadow:emulate_unshadow_user")
    } else if minor == 0x00A {
        Some("shadow:emulate_unshadow_evtinj")
    } else if minor == 0x00B {
        Some("shadow:emulate_unshadow_unhandled")
    } else if minor == 0x00C {
        Some("shadow:wrmap_bf")
    } else if minor == 0x00D {
        Some("shadow:prealloc_unpin")
    } else if minor == 0x00E {
        Some("shadow:resync_full")
    } else if minor == 0x00F {
        Some("shadow:resync_only")
    } else {
        None
    }
}

/// Every name in this table is a non-empty string.
pub proof fn lemma_shadow_name_nonempty(minor: u16)
    ensures
        spec_shadow_name(minor) matches Some(s) ==> s.len() > 0,
{
    reveal_strlit("shadow:not_shadow");
    reveal_strlit("shadow:fast_propagate");
    reveal_strlit("shadow:fast_mmio");
    reveal_strlit("shadow:false_fast_path");
    reveal_strlit("shadow:mmio");
    reveal_strlit("shadow:fixup");
    reveal_strlit("shadow:domf_dying");
    reveal_strlit("shadow:emulate");
    reveal_strlit("shadow:emulate_unshadow_user");
    reveal_strlit("shadow:emulate_unshadow_evtinj");
    reveal_strlit("shadow:emulate_unshadow_unhandled");
    reveal_strlit("shadow:wrmap_bf");
    reveal_strlit("shadow:prealloc_unpin");
    reveal_strlit("shadow:resync_full");
    reveal_strlit("shadow:resync_only");
}

/// The name a packed event code resolves to through the class tables, if
/// any table has an entry for it.
pub open spec fn spec_name_lookup(code: u32) -> Option<Seq<char>> {
    let main = spec_code_main(code);
    let sub = spec_code_sub(code);
    let minor = spec_code_minor(code) as u16;
    if main == TRC_HVM {
        spec_hvm_name(sub, minor)
    } else if main == TRC_HW {
        spec_hw_name(sub, minor)
    } else if main == TRC_SCHED {
        spec_sched_name(sub, minor)
    } else if main == TRC_DOM0OP {
        spec_dom0op_name(minor)
    } else if main == TRC_GEN {
        spec_gen_name(minor)
    } else if main == TRC_MEM {
        spec_mem_name(minor)
    } else if main == TRC_PV {
        spec_pv_name(minor & 0x00F)
    } else if main == TRC_SHADOW {
        spec_shadow_name(minor & 0x00F)
    } else if main == TRC_GUEST {
        Some("TRC_GUEST"@)
    } else {
        None
    }
}

/// The fallback name of a code no table knows: `unknown (0x` followed by
/// the code as 8 uppercase hexadecimal digits and a closing parenthesis.
pub open spec fn spec_unknown_name(code: u32) -> Seq<char> {
    "unknown (0x"@ + spec_hex8(code) + ")"@
}

/// The name every packed event code resolves to: the table entry where
/// one exists, the formatted fallback otherwise.
pub open spec fn spec_record_name(code: u32) -> Seq<char> {
    match spec_name_lookup(code) {
        Some(s) => s,
        None => spec_unknown_name(code),
    }
}

/// Resolves the name of an event from its packed code.  Total: every
/// code, recognized or not, produces a name.
pub fn get_record_name(event: &Event) -> (r: String)
    ensures
        r@ == spec_record_name(event.code),
{
    let code = event.code;
    let main = code_main(code);
    let sub = code_sub(code);
    proof {
        lemma_code_minor_bound(code);
    }
    let minor = code_minor(code) as u16;

    let looked: Option<&'static str> = if main == TRC_HVM {
        get_hvm_name(sub, minor)
    } else if main == TRC_HW {
        get_hw_name(sub, minor)
    } else if main == TRC_SCHED {
        get_sched_name(sub, minor)
    } else if main == TRC_DOM0OP {
        dom0op_name(minor)
    } else if main == TRC_GEN {
        gen_name(minor)
    } else if main == TRC_MEM {
        mem_name(minor)
    } else if main == TRC_PV {
        pv_name(minor & 0x00F)
    } else if main == TRC_SHADOW {
        shadow_name(minor & 0x00F)
    } else if main == TRC_GUEST {
        Some("TRC_GUEST")
    } else {
        None
    };

    match looked {
        Some(s) => {
            let mut out = String::new();
            out.append(s);
            out
        },
        None => {
            let mut out = String::new();
            out.append("unknown (0x");
            let digits = hex8(code);
            out.append(digits.as_str());
            out.append(")");
            proof {
                assert(out@ =~= spec_unknown_name(code));
            }
            out
        },
    }
}

/// Name resolution is total and never yields an empty string: a table hit
/// is a non-empty name, and the fallback always carries the formatted
/// code.
pub proof fn lemma_record_name_nonempty(code: u32)
    ensures
        spec_record_name(code).len() > 0,
{
    let sub = spec_code_sub(code);
    let minor = spec_code_minor(code) as u16;
    hvm::lemma_hvm_name_nonempty(sub, minor);
    hw::lemma_hw_name_nonempty(sub, minor);
    sched::lemma_sched_name_nonempty(sub, minor);
    lemma_dom0op_name_nonempty(minor);
    lemma_gen_name_nonempty(minor);
    lemma_mem_name_nonempty(minor);
    lemma_pv_name_nonempty(minor & 0x00F);
    lemma_shadow_name_nonempty(minor & 0x00F);
    reveal_strlit("TRC_GUEST");
    reveal_strlit("unknown (0x");
}

} // verus!
