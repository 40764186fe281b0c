//! Names of scheduler events, by subclass and minor number.

use vstd::prelude::*;

use crate::name::spec_opt_str;

verus! {

/// The name of a minimal-verbosity scheduler event, by minor number.
pub open spec fn spec_sched_min_name(minor: u16) -> Option<Seq<char>> {
    if minor == 0x002 {
        Some("sched:continue_running"@)
    } else if minor == 0x011 {
        Some("sched:running_to_runnable"@)
    } else if minor == 0x021 {
        Some("sched:running_to_blocked"@)
    } else if minor == 0x031 {
        Some("sched:running_to_offline"@)
    } else if minor == 0x101 {
        Some("sched:runnable_to_running"@)
    } else if minor == 0x121 {
        Some("sched:runnable_to_blocked"@)
    } else if minor == 0x131 {
        Some("sched:runnable_to_offline"@)
    } else if minor == 0x201 {
        Some("sched:blocked_to_running"@)
    } else if minor == 0x211 {
        Some("sched:blocked_to_runnable"@)
    } else if minor == 0x231 {
        Some("sched:blocked_to_offline"@)
    } else if minor == 0x301 {
        Some("sched:offline_to_running"@)
    } else if minor == 0x311 {
        Some("sched:offline_to_runnable"@)
    } else if minor == 0x321 {
        Some("sched:offline_to_blocked"@)
    } else {
        None
    }
}

/// Looks up the name of a minimal-verbosity scheduler event, by minor number.
fn sched_min_name(minor: u16) -> (r: Option<&'static str>)
    ensures
        spec_opt_str(r) == spec_sched_min_name(minor),
{
    if minor == 0x002 {
        Some("sched:continue_running")
    } else if minor == 0x011 {
        Some("sched:running_to_runnable")
    } else if minor == 0x021 {
        Some("sched:running_to_blocked")
    } else if minor == 0x031 {
        Some("sched:running_to_offline")
    } else if minor == 0x101 {
        Some("sched:runnable_to_running")
    } else if minor == 0x121 {
        Some("sched:runnable_to_blocked")
    } else if minor == 0x131 {
        Some("sched:runnable_to_offline")
    } else if minor == 0x201 {
        Some("sched:blocked_to_running")
    } else if minor == 0x211 {
        Some("sched:blocked_to_runnable")
    } else if minor == 0x231 {
        Some("sched:blocked_to_offline")
    } else if minor == 0x301 {
        Some("sched:offline_to_running")
    } else if minor == 0x311 {
        Some("sched:offline_to_runnable")
    } else if minor == 0x321 {
        Some("sched:offline_to_blocked")
    } else {
        None
    }
}

/// Every name in this table is a non-empty string.
pub proof fn lemma_sched_min_name_nonempty(minor: u16)
    ensures
        spec_sched_min_name(minor) matches Some(s) ==> s.len() > 0,
{
    reveal_strlit("sched:continue_running");
    reveal_strlit("sched:running_to_runnable");
    reveal_strlit("sched:running_to_blocked");
    reveal_strlit("sched:running_to_offline");
    reveal_strlit("sched:runnable_to_running");
    reveal_strlit("sched:runnable_to_blocked");
    reveal_strlit("sched:runnable_to_offline");
    reveal_strlit("sched:blocked_to_running");
    reveal_strlit("sched:blocked_to_runnable");
    reveal_strlit("sched:blocked_to_offline");
    reveal_strlit("sched:offline_to_running");
    reveal_strlit("sched:offline_to_runnable");
    reveal_strlit("sched:offline_to_blocked");
}

/// The name of a scheduler-class event, by minor number.
pub open spec fn spec_sched_class_name(minor: u16) -> Option<Seq<char>> {
    if minor == 0x001 {
        Some("csched:sched_tasklet"@)
    } else if minor == 0x002 {
        Some("csched:account_start"@)
    } else if minor == 0x003 {
        Some("csched:account_stop"@)
    } else if minor == 0x004 {
        Some("csched:stolen_vcpu"@)
    } else if minor == 0x005 {
        Some("csched:picked_cpu"@)
    } else if minor == 0x006 {
        Some("csched:tickle"@)
    } else if minor == 0x007 {
        Some("csched:boost"@)
    } else if minor == 0x008 {
        Some("csched:unboost"@)
    } else if minor == 0x009 {
        Some("csched:schedule"@)
    } else if minor == 0x00A {
        Some("csched:ratelimit"@)
    } else if minor == 0x00B {
        Some("csched:steal_check"@)
    } else if minor == 0x201 {
        Some("csched2:tick"@)
    } else if minor == 0x202 {
        Some("csched2:runq_pos"@)
    } else if minor == 0x203 {
        Some("csched2:credit"@)
    } else if minor == 0x204 {
        Some("csched2:credit_add"@)
    } else if minor == 0x205 {
        Some("csched2:tickle_check"@)
    } else if minor == 0x206 {
        Some("csched2:tickle"@)
    } else if minor == 0x207 {
        Some("csched2:credit_reset"@)
    } else if minor == 0x208 {
        Some("csched2:sched_tasklet"@)
    } else if minor == 0x209 {
        Some("csched2:update_load"@)
    } else if minor == 0x20A {
        Some("csched2:runq_assign"@)
    } else if minor == 0x20B {
        Some("csched2:updt_vcpu_load"@)
    } else if minor == 0x20C {
        Some("csched2:updt_runq_load"@)
    } else if minor == 0x20D {
        Some("csched2:tickle_new"@)
    } else if minor == 0x20E {
        Some("csched2:runq_max_weight"@)
    } else if minor == 0x20F {
        Some("csched2:migrrate"@)
    } else if minor == 0x210 {
        Some("csched2:load_check"@)
    } else if minor == 0x211 {
        Some("csched2:load_balance"@)
    } else if minor == 0x212 {
        Some("csched2:pick_cpu"@)
    } else if minor == 0x213 {
        Some("csched2:runq_candidate"@)
    } else if minor == 0x214 {
        Some("csched2:schedule"@)
    } else if minor == 0x215 {
        Some("csched2:ratelimit"@)
    } else if minor == 0x216 {
        Some("csched2:runq_cand_chk"@)
    } else if minor == 0x217 {
        Some("csched2:???"@)
    } else if minor == 0x801 {
        Some("sched/rtds:tickle"@)
    } else if minor == 0x802 {
        Some("sched/rtds:runq_pick"@)
    } else if minor == 0x803 {
        Some("sched/rtds:burn_budget"@)
    } else if minor == 0x804 {
        Some("sched/rtds:repl_budget"@)
    } else if minor == 0x805 {
        Some("sched/rtds:sched_tasklet"@)
    } else if minor == 0x806 {
        Some("sched/rtds:schedule"@)
    } else if minor == 0xA01 {
        Some("sched/null:pick_cpu"@)
    } else if minor == 0xA02 {
        Some("sched/null:assign"@)
    } else if minor == 0xA03 {
        Some("sched/null:deassign"@)
    } else if minor == 0xA04 {
        Some("sched/null:migrate"@)
    } else if minor == 0xA05 {
        Some("sched/null:schedule"@)
    } else if minor == 0xA06 {
        Some("sched/null:sched_tasklet"@)
    } else {
        None
    }
}

/// Looks up the name of a scheduler-class event, by minor number.
fn sched_class_name(minor: u16) -> (r: Option<&'static str>)
    ensures
        spec_opt_str(r) == spec_sched_class_name(minor),
{
    if minor == 0x001 {
        Some("csched:sched_tasklet")
    } else if minor == 0x002 {
        Some("csched:account_start")
    } else if minor == 0x003 {
        Some("csched:account_stop")
    } else if minor == 0x004 {
        Some("csched:stolen_vcpu")
    } else if minor == 0x005 {
        Some("csched:picked_cpu")
    } else if minor == 0x006 {
        Some("csched:tickle")
    } else if minor == 0x007 {
        Some("csched:boost")
    } else if minor == 0x008 {
        Some("csched:unboost")
    } else if minor == 0x009 {
        Some("csched:schedule")
    } else if minor == 0x00A {
        Some("csched:ratelimit")
    } else if minor == 0x00B {
        Some("csched:steal_check")
    } else if minor == 0x201 {
        Some("csched2:tick")
    } else if minor == 0x202 {
        Some("csched2:runq_pos")
    } else if minor == 0x203 {
        Some("csched2:credit")
    } else if minor == 0x204 {
        Some("csched2:credit_add")
    } else if minor == 0x205 {
        Some("csched2:tickle_check")
    } else if minor == 0x206 {
        Some("csched2:tickle")
    } else if minor == 0x207 {
        Some("csched2:credit_reset")
    } else if minor == 0x208 {
        Some("csched2:sched_tasklet")
    } else if minor == 0x209 {
        Some("csched2:update_load")
    } else if minor == 0x20A {
        Some("csched2:runq_assign")
    } else if minor == 0x20B {
        Some("csched2:updt_vcpu_load")
    } else if minor == 0x20C {
        Some("csched2:updt_runq_load")
    } else if minor == 0x20D {
        Some("csched2:tickle_new")
    } else if minor == 0x20E {
        Some("csched2:runq_max_weight")
    } else if minor == 0x20F {
        Some("csched2:migrrate")
    } else if minor == 0x210 {
        Some("csched2:load_check")
    } else if minor == 0x211 {
        Some("csched2:load_balance")
    } else if minor == 0x212 {
        Some("csched2:pick_cpu")
    } else if minor == 0x213 {
        Some("csched2:runq_candidate")
    } else if minor == 0x214 {
        Some("csched2:schedule")
    } else if minor == 0x215 {
        Some("csched2:ratelimit")
    } else if minor == 0x216 {
        Some("csched2:runq_cand_chk")
    } else if minor == 0x217 {
        Some("csched2:???")
    } else if minor == 0x801 {
        Some("sched/rtds:tickle")
    } else if minor == 0x802 {
        Some("sched/rtds:runq_pick")
    } else if minor == 0x803 {
        Some("sched/rtds:burn_budget")
    } else if minor == 0x804 {
        Some("sched/rtds:repl_budget")
    } else if minor == 0x805 {
        Some("sched/rtds:sched_tasklet")
    } else if minor == 0x806 {
        Some("sched/rtds:schedule")
    } else if minor == 0xA01 {
        Some("sched/null:pick_cpu")
    } else if minor == 0xA02 {
        Some("sched/null:assign")
    } else if minor == 0xA03 {
        Some("sched/null:deassign")
    } else if minor == 0xA04 {
        Some("sched/null:migrate")
    } else if minor == 0xA05 {
        Some("sched/null:schedule")
    } else if minor == 0xA06 {
        Some("sched/null:sched_tasklet")
    } else {
        None
    }
}

/// Every name in this table is a non-empty string.
pub proof fn lemma_sched_class_name_nonempty(minor: u16)
    ensures
        spec_sched_class_name(minor) matches Some(s) ==> s.len() > 0,
{
    reveal_strlit("csched:sched_tasklet");
    reveal_strlit("csched:account_start");
    reveal_strlit("csched:account_stop");
    reveal_strlit("csched:stolen_vcpu");
    reveal_strlit("csched:picked_cpu");
    reveal_strlit("csched:tickle");
    reveal_strlit("csched:boost");
    reveal_strlit("csched:unboost");
    reveal_strlit("csched:schedule");
    reveal_strlit("csched:ratelimit");
    reveal_strlit("csched:steal_check");
    reveal_strlit("csched2:tick");
    reveal_strlit("csched2:runq_pos");
    reveal_strlit("csched2:credit");
    reveal_strlit("csched2:credit_add");
    reveal_strlit("csched2:tickle_check");
    reveal_strlit("csched2:tickle");
    reveal_strlit("csched2:credit_reset");
    reveal_strlit("csched2:sched_tasklet");
    reveal_strlit("csched2:update_load");
    reveal_strlit("csched2:runq_assign");
    reveal_strlit("csched2:updt_vcpu_load");
    reveal_strlit("csched2:updt_runq_load");
    reveal_strlit("csched2:tickle_new");
    reveal_strlit("csched2:runq_max_weight");
    reveal_strlit("csched2:migrrate");
    reveal_strlit("csched2:load_check");
    reveal_strlit("csched2:load_balance");
    reveal_strlit("csched2:pick_cpu");
    reveal_strlit("csched2:runq_candidate");
    reveal_strlit("csched2:schedule");
    reveal_strlit("csched2:ratelimit");
    reveal_strlit("csched2:runq_cand_chk");
    reveal_strlit("csched2:???");
    reveal_strlit("sched/rtds:tickle");
    reveal_strlit("sched/rtds:runq_pick");
    reveal_strlit("sched/rtds:burn_budget");
    reveal_strlit("sched/rtds:repl_budget");
    reveal_strlit("sched/rtds:sched_tasklet");
    reveal_strlit("sched/rtds:schedule");
    reveal_strlit("sched/null:pick_cpu");
    reveal_strlit("sched/null:assign");
    reveal_strlit("sched/null:deassign");
    reveal_strlit("sched/null:migrate");
    reveal_strlit("sched/null:schedule");
    reveal_strlit("sched/null:sched_tasklet");
}

/// The name of a verbose scheduler event, by minor number.
pub open spec fn spec_sched_verbose_name(minor: u16) -> Option<Seq<char>> {
    if minor == 0x001 {
        Some("sched:sched_add_domain"@)
    } else if minor == 0x002 {
        Some("sched:sched_rem_domain"@)
    } else if minor == 0x003 {
        Some("sched:domain_sleep"@)
    } else if minor == 0x004 {
        Some("sched:domain_wake"@)
    } else if minor == 0x005 {
        Some("sched:do_yield"@)
    } else if minor == 0x006 {
        Some("sched:do_block"@)
    } else if minor == 0x007 {
        Some("sched:domain_shutdown"@)
    } else if minor == 0x008 {
        Some("sched:sched_ctl"@)
    } else if minor == 0x009 {
        Some("sched:sched_adjdom"@)
    } else if minor == 0x00A {
        Some("sched:__enter_scheduler"@)
    } else if minor == 0x00B {
        Some("sched:s_timer_fn"@)
    } else if minor == 0x00C {
        Some("sched:t_timer_fn"@)
    } else if minor == 0x00D {
        Some("sched:dom_timer_fn"@)
    } else if minor == 0x00E {
        Some("sched:switch_infprev"@)
    } else if minor == 0x00F {
        Some("sched:switch_infnext"@)
    } else if minor == 0x010 {
        Some("sched:domain_shutdown_code"@)
    } else if minor == 0x011 {
        Some("sched:switch_infcont"@)
    } else {
        None
    }
}

/// Looks up the name of a verbose scheduler event, by minor number.
fn sched_verbose_name(minor: u16) -> (r: Option<&'static str>)
    ensures
        spec_opt_str(r) == spec_sched_verbose_name(minor),
{
    if minor == 0x001 {
        Some("sched:sched_add_domain")
    } else if minor == 0x002 {
        Some("sched:sched_rem_domain")
    } else if minor == 0x003 {
        Some("sched:domain_sleep")
    } else if minor == 0x004 {
        Some("sched:domain_wake")
    } else if minor == 0x005 {
        Some("sched:do_yield")
    } else if minor == 0x006 {
        Some("sched:do_block")
    } else if minor == 0x007 {
        Some("sched:domain_shutdown")
    } else if minor == 0x008 {
        Some("sched:sched_ctl")
    } else if minor == 0x009 {
        Some("sched:sched_adjdom")
    } else if minor == 0x00A {
        Some("sched:__enter_scheduler")
    } else if minor == 0x00B {
        Some("sched:s_timer_fn")
    } else if minor == 0x00C {
        Some("sched:t_timer_fn")
    } else if minor == 0x00D {
        Some("sched:dom_timer_fn")
    } else if minor == 0x00E {
        Some("sched:switch_infprev")
    } else if minor == 0x00F {
        Some("sched:switch_infnext")
    } else if minor == 0x010 {
        Some("sched:domain_shutdown_code")
    } else if minor == 0x011 {
        Some("sched:switch_infcont")
    } else {
        None
    }
}

/// Every name in this table is a non-empty string.
pub proof fn lemma_sched_verbose_name_nonempty(minor: u16)
    ensures
        spec_sched_verbose_name(minor) matches Some(s) ==> s.len() > 0,
{
    reveal_strlit("sched:sched_add_domain");
    reveal_strlit("sched:sched_rem_domain");
    reveal_strlit("sched:domain_sleep");
    reveal_strlit("sched:domain_wake");
    reveal_strlit("sched:do_yield");
    reveal_strlit("sched:do_block");
    reveal_strlit("sched:domain_shutdown");
    reveal_strlit("sched:sched_ctl");
    reveal_strlit("sched:sched_adjdom");
    reveal_strlit("sched:__enter_scheduler");
    reveal_strlit("sched:s_timer_fn");
    reveal_strlit("sched:t_timer_fn");
    reveal_strlit("sched:dom_timer_fn");
    reveal_strlit("sched:switch_infprev");
    reveal_strlit("sched:switch_infnext");
    reveal_strlit("sched:domain_shutdown_code");
    reveal_strlit("sched:switch_infcont");
}

/// The name of a scheduler event: subclass 1 holds the minimal-verbosity
/// events, subclass 2 the scheduler-class events, subclass 8 the verbose
/// events.
pub open spec fn spec_sched_name(sub: u32, minor: u16) -> Option<Seq<char>> {
    if sub == 0x1 {
        spec_sched_min_name(minor)
    } else if sub == 0x2 {
        spec_sched_class_name(minor)
    } else if sub == 0x8 {
        spec_sched_verbose_name(minor)
    } else {
        None
    }
}

/// Looks up the name of a scheduler event.
pub fn get_sched_name(sub: u32, minor: u16) -> (r: Option<&'static str>)
    ensures
        spec_opt_str(r) == spec_sched_name(sub, minor),
{
    if sub == 0x1 {
        sched_min_name(minor)
    } else if sub == 0x2 {
        sched_class_name(minor)
    } else if sub == 0x8 {
        sched_verbose_name(minor)
    } else {
        None
    }
}

/// Every scheduler event name is non-empty.
pub proof fn lemma_sched_name_nonempty(sub: u32, minor: u16)
    ensures
        spec_sched_name(sub, minor) matches Some(s) ==> s.len() > 0,
{
    lemma_sched_min_name_nonempty(minor);
    lemma_sched_class_name_nonempty(minor);
    lemma_sched_verbose_name_nonempty(minor);
}

} // verus!
