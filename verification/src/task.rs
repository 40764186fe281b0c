//! Task identity: mapping a domain identity to the dense task identifier
//! the consumer indexes, and rendering its display label.

use vstd::prelude::*;

use crate::record::{spec_domain_packed, Domain, DomainKind};
use crate::text::{spec_dec, u16_to_dec};

verus! {

/// The fixed task identifier of the control/host domain and of domains
/// whose identity could not be determined.
pub const DEFAULT_TASK_ID: i32 = 32768;

/// The task identifier a domain identity maps to: the idle domain maps
/// to 0, the host domain and undetermined domains map to the fixed
/// default identifier, and a guest domain maps to its packed identity
/// plus one, saturated to the largest representable identifier.
pub open spec fn spec_task_id(d: Domain) -> i32 {
    match d.kind {
        DomainKind::Idle => 0,
        DomainKind::Zero => DEFAULT_TASK_ID,
        DomainKind::Default => DEFAULT_TASK_ID,
        DomainKind::Guest(_) => if spec_domain_packed(d) + 1 > i32::MAX {
            i32::MAX
        } else {
            (spec_domain_packed(d) + 1) as i32
        },
    }
}

/// Maps a domain identity to its task identifier.
pub fn task_id_for(domain: &Domain) -> (id: i32)
    ensures
        id == spec_task_id(*domain),
{
    match domain.kind {
        DomainKind::Idle => 0,
        DomainKind::Zero => DEFAULT_TASK_ID,
        DomainKind::Default => DEFAULT_TASK_ID,
        DomainKind::Guest(_) => {
            let next = domain.packed() as u64 + 1;
            if next > i32::MAX as u64 {
                i32::MAX
            } else {
                next as i32
            }
        },
    }
}

/// Only the idle domain maps to the task identifier 0.
pub proof fn lemma_task_id_zero_only_idle(d: Domain)
    ensures
        spec_task_id(d) == 0 <==> d.kind is Idle,
{
}

/// The display label of a domain identity.
pub open spec fn spec_task_label(d: Domain) -> Seq<char> {
    match d.kind {
        DomainKind::Zero => "host/v"@ + spec_dec(d.vcpu as nat),
        DomainKind::Idle => "idle/v"@ + spec_dec(d.vcpu as nat),
        DomainKind::Default => "default/v?"@,
        DomainKind::Guest(id) => "d"@ + spec_dec(id as nat) + "/v"@ + spec_dec(d.vcpu as nat),
    }
}

/// Renders the display label of a domain identity: the host domain as
/// `host/v<n>`, the idle domain as `idle/v<n>`, an undetermined domain as
/// `default/v?`, and a guest domain as `d<id>/v<n>`.
pub fn get_record_task(domain: &Domain) -> (r: String)
    ensures
        r@ == spec_task_label(*domain),
{
    match domain.kind {
        DomainKind::Zero => {
            let mut out = String::new();
            out.append("host/v");
            let n = u16_to_dec(domain.vcpu);
            out.append(n.as_str());
            proof {
                assert(out@ =~= spec_task_label(*domain));
            }
            out
        },
        DomainKind::Idle => {
            let mut out = String::new();
            out.append("idle/v");
            let n = u16_to_dec(domain.vcpu);
            out.append(n.as_str());
            proof {
                assert(out@ =~= spec_task_label(*domain));
            }
            out
        },
        DomainKind::Default => {
            let mut out = String::new();
            out.append("default/v?");
            out
        },
        DomainKind::Guest(id) => {
            let mut out = String::new();
            out.append("d");
            let dom = u16_to_dec(id);
            out.append(dom.as_str());
            out.append("/v");
            let n = u16_to_dec(domain.vcpu);
            out.append(n.as_str());
            proof {
                assert(out@ =~= spec_task_label(*domain));
            }
            out
        },
    }
}

} // verus!
