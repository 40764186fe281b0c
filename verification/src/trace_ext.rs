//! Trusted boundary to the external trace-parsing library.
//!
//! The external library owns the parsed record collection of one trace
//! file; this module declares its collection type and gives the two calls
//! the decode logic makes a contract over the collection's mathematical
//! contents.  Everything else in the crate reasons about the trace only
//! through `trace_records`.

use vstd::prelude::*;
use xentrace_parser::record as xpr;
use xentrace_parser::Trace;

use crate::record::{Domain, DomainKind, Event, TraceRecord};

verus! {

#[verifier::external_type_specification]
#[verifier::external_body]
pub struct ExTrace(Trace);

#[verifier::external_type_specification]
#[verifier::external_body]
pub struct ExXprRecord(xentrace_parser::record::Record);

/// The records a parsed trace holds, in capture order, each as the
/// library's plain record value.
pub uninterp spec fn trace_records(t: Trace) -> Seq<TraceRecord>;

/// Relies on `Trace::record_count`, which returns the length of the
/// boxed record slice the trace owns.  The count fits in a signed 64-bit
/// value: an allocation holds at most `isize::MAX` bytes, and a record
/// is larger than one byte.
#[verifier::external_body]
pub fn trace_record_count(t: &Trace) -> (n: usize)
    ensures
        n == trace_records(*t).len(),
        n <= 0x7fff_ffff_ffff_ffff,
{
    t.record_count()
}

/// Relies on slice indexing into the trace's record collection (through
/// `Trace`'s deref to its record slice) and on the record accessors `cpu`,
/// `domain`, `kind`, `virtual_cpu`, `event`, `code`, `value`, `tsc` and
/// `extra`, each of which returns the corresponding stored field.  The
/// body only converts that record into the library's plain record value.
#[verifier::external_body]
pub fn trace_record_at(t: &Trace, idx: usize) -> (r: Option<TraceRecord>)
    ensures
        idx < trace_records(*t).len() ==> r == Some(trace_records(*t)[idx as int]),
        idx >= trace_records(*t).len() ==> r is None,
{
    let rec = match t.get(idx) { Some(r) => r, None => return None };
    let kind = match rec.domain().kind() {
        xpr::DomainKind::Zero => DomainKind::Zero,
        xpr::DomainKind::Idle => DomainKind::Idle,
        xpr::DomainKind::Default => DomainKind::Default,
        xpr::DomainKind::Guest(id) => DomainKind::Guest(id),
    };
    let domain = Domain { kind, vcpu: rec.domain().virtual_cpu() };
    let event = Event {
        code: rec.event().code().value(),
        tsc: rec.event().tsc(),
        extra: *rec.event().extra(),
    };
    Some(TraceRecord { cpu: rec.cpu(), domain, event })
}

} // verus!
