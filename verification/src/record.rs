//! Plain data model of one parsed trace record.
//!
//! The external parsing library owns the raw record collection; this module
//! holds the library's own value types carrying exactly the fields the
//! decode logic reads: the host CPU, the domain identity, and the event
//! (packed code, cycle counter, auxiliary words).

use vstd::prelude::*;

verus! {

/// Maximum number of auxiliary 32-bit words attached to one event.
pub const EVENT_EXTRA_CAPACITY: usize = 7;

/// Kind of the domain (virtual machine) a record belongs to.
#[derive(Clone, Copy, Debug, PartialEq, Eq, Structural)]
pub enum DomainKind {
    /// The privileged control/host domain.
    Zero,
    /// The idle domain: the CPU was not running any task.
    Idle,
    /// A domain whose identity could not be determined.
    Default,
    /// An unprivileged guest domain, with its numeric identifier.
    Guest(u16),
}

/// Numeric value of a domain kind, as the trace format encodes it in the
/// high half of a packed domain word.
pub open spec fn spec_kind_value(kind: DomainKind) -> u16 {
    match kind {
        DomainKind::Zero => 0,
        DomainKind::Idle => 32767,
        DomainKind::Default => 32768,
        DomainKind::Guest(id) => id,
    }
}

/// The domain identity a record was captured under.
#[derive(Clone, Copy, Debug, PartialEq, Eq, Structural)]
pub struct Domain {
    /// The kind of virtual machine.
    pub kind: DomainKind,
    /// The virtual processor number inside that domain.
    pub vcpu: u16,
}

/// The packed 32-bit form of a domain identity: kind value in the high
/// half, virtual CPU in the low half.
pub open spec fn spec_domain_packed(d: Domain) -> u32 {
    ((spec_kind_value(d.kind) as u32) << 16) | (d.vcpu as u32)
}

impl Domain {
    /// Numeric value of this domain's kind.
    pub fn kind_value(&self) -> (r: u16)
        ensures
            r == spec_kind_value(self.kind),
    {
        match self.kind {
            DomainKind::Zero => 0,
            DomainKind::Idle => 32767,
            DomainKind::Default => 32768,
            DomainKind::Guest(id) => id,
        }
    }

    /// The packed 32-bit form of this domain identity.
    pub fn packed(&self) -> (r: u32)
        ensures
            r == spec_domain_packed(*self),
    {
        let kind = self.kind_value() as u32;
        let vcpu = self.vcpu as u32;
        (kind << 16) | vcpu
    }
}

/// The event part of a record.
#[derive(Clone, Copy, Debug, PartialEq, Eq)]
pub struct Event {
    /// The packed 28-bit event code.
    pub code: u32,
    /// The value of the hardware cycle counter when the event was captured.
    pub tsc: u64,
    /// The auxiliary 32-bit words captured with the event; absent words
    /// are `None`.
    pub extra: [Option<u32>; 7],
}

/// One parsed trace record, as this library models it.
#[derive(Clone, Copy, Debug, PartialEq, Eq)]
pub struct TraceRecord {
    /// The host processor the event occurred on.
    pub cpu: u32,
    /// The domain the event occurred in.
    pub domain: Domain,
    /// The event itself.
    pub event: Event,
}

} // verus!
