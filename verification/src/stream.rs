//! The per-stream decode engine: one projection pass over the parsed
//! record collection, the task-identity registry, and the lazy
//! entry-by-entry decode bridge.
//!
//! A stream owns the parsed trace for its whole open lifetime.  Opening
//! projects every record into one compact entry; afterwards the consumer
//! asks for full-detail strings entry by entry, and each such call
//! re-fetches the raw record through the entry's offset.  Tearing the
//! stream down releases the record collection; bridge calls made after
//! that return defined defaults instead of failing.

use vstd::prelude::*;
use xentrace_parser::Trace;

use crate::info::{get_record_info, spec_record_info};
use crate::kshark::{kshark_entry, KS_EMPTY_BIN, KS_PLUGIN_UNTOUCHED_MASK};
use crate::name::{get_record_name, lemma_record_name_nonempty, spec_record_name};
use crate::record::{DomainKind, TraceRecord};
use crate::task::{
    get_record_task, lemma_task_id_zero_only_idle, spec_task_id, spec_task_label, task_id_for,
    DEFAULT_TASK_ID,
};
use crate::timestamp::{lemma_origin_maps_to_zero, spec_tsc_to_ns, tsc_to_ns};
use crate::trace_ext::{trace_record_at, trace_record_count, trace_records};
use crate::xen::{code_minor, lemma_code_minor_bound, spec_code_minor};

verus! {

broadcast use vstd::set::group_set_axioms;

/// A host CPU number narrowed to the entry's field width, saturating.
pub open spec fn spec_saturated_cpu(cpu: u32) -> i16 {
    if cpu > 32767 {
        32767i16
    } else {
        cpu as i16
    }
}

/// The entry's event identifier: the classification minor number of the
/// packed code, narrowed to the field width, saturating.
pub open spec fn spec_saturated_event_id(code: u32) -> i16 {
    if spec_code_minor(code) > 32767 {
        32767i16
    } else {
        spec_code_minor(code) as i16
    }
}

/// The origin tick of a record collection: the cycle counter of its
/// first record, when it has one.
pub open spec fn spec_origin_of(recs: Seq<TraceRecord>) -> Option<u64> {
    if recs.len() > 0 {
        Some(recs[0].event.tsc)
    } else {
        None
    }
}

/// The entry that projects the record at one index: full visibility, the
/// owning stream's identifier, saturated CPU and event fields, the task
/// identifier of the record's domain, the index as the back-reference
/// offset, and the calibrated relative timestamp.
pub open spec fn spec_entry_of(
    rec: TraceRecord,
    i: int,
    stream_id: i16,
    cpu_qhz: u64,
    origin: Option<u64>,
) -> kshark_entry {
    kshark_entry {
        visible: 0xFF,
        stream_id: stream_id,
        event_id: spec_saturated_event_id(rec.event.code),
        cpu: spec_saturated_cpu(rec.cpu),
        pid: spec_task_id(rec.domain),
        offset: i as i64,
        ts: spec_tsc_to_ns(rec.event.tsc, cpu_qhz, origin),
    }
}

/// The task identifiers one record contributes to the registry: none for
/// the idle domain, its task identifier otherwise.
pub open spec fn spec_record_contribution(rec: TraceRecord) -> Set<i32> {
    if rec.domain.kind is Idle {
        Set::empty()
    } else {
        Set::empty().insert(spec_task_id(rec.domain))
    }
}

/// The task identifiers a record collection registers: one for each
/// record whose domain is not the idle domain.
pub open spec fn spec_registered_ids(recs: Seq<TraceRecord>) -> Set<i32> {
    Set::new(
        |id: i32|
            exists|i: int|
                0 <= i < recs.len() && !((#[trigger] recs[i]).domain.kind is Idle) && id
                    == spec_task_id(recs[i].domain),
    )
}

/// Extending the projected prefix by one record extends the registered
/// identifiers by exactly that record's contribution.
proof fn lemma_registered_ids_step(recs: Seq<TraceRecord>, i: int)
    requires
        0 <= i < recs.len(),
    ensures
        spec_registered_ids(recs.take(i + 1)) == spec_registered_ids(recs.take(i)).union(
            spec_record_contribution(recs[i]),
        ),
{
    let lhs = spec_registered_ids(recs.take(i + 1));
    let rhs = spec_registered_ids(recs.take(i)).union(spec_record_contribution(recs[i]));
    assert forall|id: i32| lhs.contains(id) implies rhs.contains(id) by {
        let j = choose|j: int|
            0 <= j < recs.take(i + 1).len() && !((#[trigger] recs.take(i + 1)[j]).domain.kind
                is Idle) && id == spec_task_id(recs.take(i + 1)[j].domain);
        assert(recs.take(i + 1)[j] == recs[j]);
        if j < i {
            assert(recs.take(i)[j] == recs[j]);
            assert(spec_registered_ids(recs.take(i)).contains(id));
        } else {
            assert(spec_record_contribution(recs[i]).contains(id));
        }
    }
    assert forall|id: i32| rhs.contains(id) implies lhs.contains(id) by {
        if spec_registered_ids(recs.take(i)).contains(id) {
            let j = choose|j: int|
                0 <= j < recs.take(i).len() && !((#[trigger] recs.take(i)[j]).domain.kind
                    is Idle) && id == spec_task_id(recs.take(i)[j].domain);
            assert(recs.take(i)[j] == recs[j]);
            assert(recs.take(i + 1)[j] == recs[j]);
        } else {
            assert(!(recs[i].domain.kind is Idle) && id == spec_task_id(recs[i].domain));
            assert(recs.take(i + 1)[i] == recs[i]);
        }
    }
    assert(lhs =~= rhs);
}

/// No record contributes the idle identifier 0 to the registry.
proof fn lemma_registered_ids_no_idle(recs: Seq<TraceRecord>)
    ensures
        !spec_registered_ids(recs).contains(0i32),
{
    if spec_registered_ids(recs).contains(0i32) {
        let j = choose|j: int|
            0 <= j < recs.len() && !((#[trigger] recs[j]).domain.kind is Idle) && 0i32
                == spec_task_id(recs[j].domain);
        lemma_task_id_zero_only_idle(recs[j].domain);
    }
}

/// One open trace-data stream: its identifier, the calibration constant
/// fixed at open time, the parsed record collection it owns until
/// teardown, and the registry of task identifiers observed while
/// projecting.
pub struct DataStream {
    /// Data stream identifier, copied into every projected entry.
    pub stream_id: i16,
    /// The fixed-point clock calibration constant.
    pub cpu_qhz: u64,
    /// The parsed record collection; `None` once the stream is torn
    /// down.
    pub trace: Option<Trace>,
    /// The task identifiers registered so far, each exactly once.
    pub task_ids: Vec<i32>,
}

impl DataStream {
    /// The registry holds each identifier at most once.
    pub open spec fn wf(self) -> bool {
        self.task_ids@.no_duplicates()
    }

    /// The set of registered task identifiers.
    pub open spec fn task_id_set(self) -> Set<i32> {
        self.task_ids@.to_set()
    }

    /// The record a bridge call on an entry reaches: the record at the
    /// entry's offset, where the stream still holds its trace and the
    /// offset is in range.
    pub open spec fn spec_bridge_record(self, entry: kshark_entry) -> Option<TraceRecord> {
        match self.trace {
            Some(t) => {
                let recs = trace_records(t);
                if 0 <= entry.offset < recs.len() {
                    Some(recs[entry.offset as int])
                } else {
                    None
                }
            },
            None => None,
        }
    }

    /// Opens a stream over a parsed trace with an empty registry.
    pub fn new(trace: Trace, stream_id: i16, cpu_qhz: u64) -> (s: Self)
        ensures
            s.wf(),
            s.stream_id == stream_id,
            s.cpu_qhz == cpu_qhz,
            s.trace == Some(trace),
            s.task_ids@.len() == 0,
            s.task_id_set() == Set::<i32>::empty(),
    {
        let s = DataStream { stream_id, cpu_qhz, trace: Some(trace), task_ids: Vec::new() };
        proof {
            assert(s.task_id_set() =~= Set::<i32>::empty());
        }
        s
    }

    /// Registers a task identifier.  Idempotent: registering an
    /// identifier the registry already holds changes nothing, and the
    /// result says whether the identifier was new.
    #[verifier::loop_isolation(false)]
    pub fn add_task_id(&mut self, id: i32) -> (added: bool)
        requires
            old(self).wf(),
        ensures
            final(self).wf(),
            final(self).task_id_set() == old(self).task_id_set().insert(id),
            added == !old(self).task_id_set().contains(id),
            final(self).task_ids@.len() == old(self).task_ids@.len() + (if added {
                1int
            } else {
                0int
            }),
            final(self).stream_id == old(self).stream_id,
            final(self).cpu_qhz == old(self).cpu_qhz,
            final(self).trace == old(self).trace,
    {
        let n = self.task_ids.len();
        let mut i: usize = 0;
        while i < n
            invariant
                i <= n,
                *self == *old(self),
                n == self.task_ids@.len(),
                forall|j: int| 0 <= j < i ==> self.task_ids@[j] != id,
            decreases n - i,
        {
            if self.task_ids[i] == id {
                proof {
                    assert(self.task_ids@.contains(id));
                    assert(self.task_id_set().insert(id) =~= self.task_id_set());
                }
                return false;
            }
            i = i + 1;
        }
        proof {
            assert(!self.task_ids@.contains(id));
        }
        self.task_ids.push(id);
        proof {
            let new_seq = self.task_ids@;
            let old_seq = old(self).task_ids@;
            assert(new_seq == old_seq.push(id));
            assert forall|a: int, b: int|
                0 <= a < new_seq.len() && 0 <= b < new_seq.len() && a != b implies new_seq[a]
                != new_seq[b] by {
                if a < old_seq.len() && b < old_seq.len() {
                } else if a == old_seq.len() {
                    assert(!old_seq.contains(id));
                    assert(old_seq[b] != id);
                } else {
                    assert(!old_seq.contains(id));
                    assert(old_seq[a] != id);
                }
            }
            assert(self.wf());
            assert forall|x: i32| new_seq.to_set().contains(x) implies old_seq.to_set().insert(
                id,
            ).contains(x) by {
                let k = choose|k: int| 0 <= k < new_seq.len() && #[trigger] new_seq[k] == x;
                if k < old_seq.len() {
                    assert(old_seq.contains(x));
                }
            }
            assert forall|x: i32| old_seq.to_set().insert(id).contains(x) implies new_seq.to_set()
                .contains(x) by {
                if x == id {
                    assert(new_seq[old_seq.len() as int] == id);
                    assert(new_seq.contains(x));
                } else {
                    let k = choose|k: int| 0 <= k < old_seq.len() && #[trigger] old_seq[k] == x;
                    assert(new_seq[k] == x);
                    assert(new_seq.contains(x));
                }
            }
            assert(new_seq.to_set() =~= old_seq.to_set().insert(id));
        }
        true
    }

    /// Whether a task identifier has been registered.
    #[verifier::loop_isolation(false)]
    pub fn has_task_id(&self, id: i32) -> (r: bool)
        ensures
            r == self.task_id_set().contains(id),
    {
        let n = self.task_ids.len();
        let mut i: usize = 0;
        while i < n
            invariant
                i <= n,
                n == self.task_ids@.len(),
                forall|j: int| 0 <= j < i ==> self.task_ids@[j] != id,
            decreases n - i,
        {
            if self.task_ids[i] == id {
                proof {
                    assert(self.task_ids@.contains(id));
                }
                return true;
            }
            i = i + 1;
        }
        proof {
            assert(!self.task_ids@.contains(id));
        }
        false
    }

    /// The number of registered task identifiers.
    pub fn task_id_count(&self) -> (n: usize)
        ensures
            n == self.task_ids@.len(),
    {
        self.task_ids.len()
    }

    /// The number of records the stream's trace holds; 0 after
    /// teardown.
    pub fn record_count(&self) -> (n: usize)
        ensures
            self.trace matches Some(t) ==> n == trace_records(t).len(),
            self.trace is None ==> n == 0,
    {
        match &self.trace {
            Some(t) => trace_record_count(t),
            None => 0,
        }
    }

    /// Projects every record of the trace into one entry, in record
    /// order: one synchronous pass, after which every per-entry decode
    /// is reached through the entry's offset.  Registers the default
    /// task identifier once and the identifier of every guest record;
    /// the idle identifier 0 is never registered.  On a stream already
    /// torn down, projects nothing.
    #[verifier::loop_isolation(false)]
    #[verifier::rlimit(60)]
    pub fn load_entries(&mut self) -> (rows: Vec<kshark_entry>)
        requires
            old(self).wf(),
        ensures
            final(self).wf(),
            final(self).stream_id == old(self).stream_id,
            final(self).cpu_qhz == old(self).cpu_qhz,
            final(self).trace == old(self).trace,
            old(self).trace is None ==> rows@.len() == 0 && final(self).task_id_set() == old(
                self,
            ).task_id_set(),
            old(self).trace matches Some(t) ==> {
                let recs = trace_records(t);
                let origin = spec_origin_of(recs);
                &&& rows@.len() == recs.len()
                &&& forall|i: int|
                    0 <= i < recs.len() ==> rows@[i] == spec_entry_of(
                        recs[i],
                        i,
                        old(self).stream_id,
                        old(self).cpu_qhz,
                        origin,
                    )
                &&& final(self).task_id_set() == old(self).task_id_set().insert(
                    DEFAULT_TASK_ID,
                ).union(spec_registered_ids(recs))
            },
            forall|i: int| 0 <= i < rows@.len() ==> (#[trigger] rows@[i]).offset == i,
            rows@.len() > 0 ==> rows@[0].ts == 0,
            !old(self).task_id_set().contains(0i32) ==> !final(self).task_id_set().contains(0i32),
    {
        let trace_opt = self.trace.take();
        match trace_opt {
            None => Vec::new(),
            Some(t) => {
                let ghost recs = trace_records(t);
                let n = trace_record_count(&t);
                let first = trace_record_at(&t, 0);
                let origin: Option<u64> = match first {
                    Some(r0) => Some(r0.event.tsc),
                    None => None,
                };
                proof {
                    assert(origin == spec_origin_of(recs));
                }
                let _ = self.add_task_id(DEFAULT_TASK_ID);
                let ghost base = old(self).task_id_set().insert(DEFAULT_TASK_ID);
                let mut rows: Vec<kshark_entry> = Vec::new();
                let mut i: usize = 0;
                proof {
                    assert(recs.take(0) =~= Seq::<TraceRecord>::empty());
                    assert(spec_registered_ids(recs.take(0)) =~= Set::<i32>::empty());
                    assert(self.task_id_set() =~= base.union(spec_registered_ids(recs.take(0))));
                }
                while i < n
                    invariant
                        i <= n,
                        rows@.len() == i,
                        forall|k: int|
                            0 <= k < i ==> rows@[k] == spec_entry_of(
                                recs[k],
                                k,
                                old(self).stream_id,
                                old(self).cpu_qhz,
                                origin,
                            ),
                        self.wf(),
                        self.task_id_set() == base.union(spec_registered_ids(recs.take(i as int))),
                        self.stream_id == old(self).stream_id,
                        self.cpu_qhz == old(self).cpu_qhz,
                        self.trace is None,
                    decreases n - i,
                {
                    let ghost prev_set = self.task_id_set();
                    let rec_opt = trace_record_at(&t, i);
                    proof {
                        assert(rec_opt is Some);
                    }
                    let rec = rec_opt.unwrap();
                    let cpu: i16 = if rec.cpu > 32767 {
                        32767
                    } else {
                        rec.cpu as i16
                    };
                    let minor = code_minor(rec.event.code);
                    proof {
                        lemma_code_minor_bound(rec.event.code);
                    }
                    let event_id: i16 = if minor > 32767 {
                        32767
                    } else {
                        minor as i16
                    };
                    let ts = tsc_to_ns(rec.event.tsc, self.cpu_qhz, origin);
                    let pid = task_id_for(&rec.domain);
                    match rec.domain.kind {
                        DomainKind::Guest(_) => {
                            let _ = self.add_task_id(pid);
                        },
                        _ => {},
                    }
                    rows.push(
                        kshark_entry {
                            visible: 0xFF,
                            stream_id: self.stream_id,
                            event_id,
                            cpu,
                            pid,
                            offset: i as i64,
                            ts,
                        },
                    );
                    proof {
                        lemma_registered_ids_step(recs, i as int);
                        let contribution = spec_record_contribution(recs[i as int]);
                        match recs[i as int].domain.kind {
                            DomainKind::Idle => {
                                assert(contribution =~= Set::<i32>::empty());
                                assert(self.task_id_set() =~= base.union(
                                    spec_registered_ids(recs.take(i + 1)),
                                ));
                            },
                            DomainKind::Guest(_) => {
                                assert(self.task_id_set() == prev_set.insert(pid));
                                assert(self.task_id_set() =~= base.union(
                                    spec_registered_ids(recs.take(i + 1)),
                                ));
                            },
                            _ => {
                                assert(pid == DEFAULT_TASK_ID);
                                assert(base.contains(pid));
                                assert(self.task_id_set() =~= base.union(
                                    spec_registered_ids(recs.take(i + 1)),
                                ));
                            },
                        }
                        assert(rows@[i as int] == spec_entry_of(
                            recs[i as int],
                            i as int,
                            old(self).stream_id,
                            old(self).cpu_qhz,
                            origin,
                        ));
                    }
                    i = i + 1;
                }
                self.trace = Some(t);
                proof {
                    assert(recs.take(n as int) =~= recs);
                    if n > 0 {
                        lemma_origin_maps_to_zero(recs[0].event.tsc, old(self).cpu_qhz);
                        assert(rows@[0].ts == 0);
                    }
                    lemma_registered_ids_no_idle(recs);
                    if !old(self).task_id_set().contains(0i32) {
                        assert(DEFAULT_TASK_ID != 0i32);
                        assert(!self.task_id_set().contains(0i32));
                    }
                }
                rows
            },
        }
    }

    /// Fetches the record an entry's offset leads back to, if the
    /// stream still holds its trace and the offset is in range.
    fn get_record(&self, entry: &kshark_entry) -> (r: Option<TraceRecord>)
        ensures
            r == self.spec_bridge_record(*entry),
    {
        match &self.trace {
            None => None,
            Some(t) => {
                if entry.offset < 0 {
                    None
                } else {
                    let count = trace_record_count(t);
                    if (entry.offset as u64) < (count as u64) {
                        trace_record_at(t, entry.offset as usize)
                    } else {
                        None
                    }
                }
            },
        }
    }

    /// The task identifier a bridge call reports for an entry: the
    /// entry's own identifier, gated by the visibility bit, and the
    /// empty sentinel where that bit is unset.
    pub open spec fn spec_pid_result(self, entry: kshark_entry) -> i32 {
        if entry.visible & KS_PLUGIN_UNTOUCHED_MASK > 0 {
            entry.pid
        } else {
            KS_EMPTY_BIN
        }
    }

    /// Reports the task identifier of an entry, honoring the entry's
    /// visibility bit.
    pub fn get_pid(&self, entry: &kshark_entry) -> (pid: i32)
        ensures
            pid == self.spec_pid_result(*entry),
    {
        if entry.visible & KS_PLUGIN_UNTOUCHED_MASK > 0 {
            entry.pid
        } else {
            KS_EMPTY_BIN
        }
    }

    /// The event identifier a bridge call reports for an entry: the
    /// full packed code of the record the entry leads back to, or 0
    /// where no record can be reached or the code does not fit.
    pub open spec fn spec_event_id_result(self, entry: kshark_entry) -> i32 {
        match self.spec_bridge_record(entry) {
            Some(rec) => if rec.event.code <= i32::MAX {
                rec.event.code as i32
            } else {
                0i32
            },
            None => 0i32,
        }
    }

    /// Reports the full packed event code of the record an entry leads
    /// back to.
    pub fn get_event_id(&self, entry: &kshark_entry) -> (id: i32)
        ensures
            id == self.spec_event_id_result(*entry),
    {
        match self.get_record(entry) {
            Some(rec) => if rec.event.code <= 0x7FFF_FFFF {
                rec.event.code as i32
            } else {
                0
            },
            None => 0,
        }
    }

    /// The name string a bridge call yields for an entry; `unknown`
    /// where no record can be reached.
    pub open spec fn spec_event_name_result(self, entry: kshark_entry) -> Seq<char> {
        match self.spec_bridge_record(entry) {
            Some(rec) => spec_record_name(rec.event.code),
            None => "unknown"@,
        }
    }

    /// Decodes the event name of the record an entry leads back to.
    /// Nothing is cached on the entry: the record is re-fetched and
    /// re-decoded on every call.
    pub fn get_event_name(&self, entry: &kshark_entry) -> (r: String)
        ensures
            r@ == self.spec_event_name_result(*entry),
            self.trace is None ==> r@ == "unknown"@,
    {
        match self.get_record(entry) {
            Some(rec) => get_record_name(&rec.event),
            None => {
                let mut out = String::new();
                out.append("unknown");
                out
            },
        }
    }

    /// The task label a bridge call yields for an entry; empty where no
    /// record can be reached.
    pub open spec fn spec_task_result(self, entry: kshark_entry) -> Seq<char> {
        match self.spec_bridge_record(entry) {
            Some(rec) => spec_task_label(rec.domain),
            None => Seq::empty(),
        }
    }

    /// Decodes the task label of the record an entry leads back to.
    pub fn get_task(&self, entry: &kshark_entry) -> (r: String)
        ensures
            r@ == self.spec_task_result(*entry),
            self.trace is None ==> r@ == Seq::<char>::empty(),
    {
        match self.get_record(entry) {
            Some(rec) => get_record_task(&rec.domain),
            None => String::new(),
        }
    }

    /// The info string a bridge call yields for an entry; empty where
    /// no record can be reached.
    pub open spec fn spec_info_result(self, entry: kshark_entry) -> Seq<char> {
        match self.spec_bridge_record(entry) {
            Some(rec) => spec_record_info(rec.event.extra@),
            None => Seq::empty(),
        }
    }

    /// Decodes the info string of the record an entry leads back to.
    pub fn get_info(&self, entry: &kshark_entry) -> (r: String)
        ensures
            r@ == self.spec_info_result(*entry),
            self.trace is None ==> r@ == Seq::<char>::empty(),
    {
        match self.get_record(entry) {
            Some(rec) => get_record_info(&rec.event),
            None => String::new(),
        }
    }

    /// The full dump a bridge call yields for an entry; empty where no
    /// record can be reached.
    pub open spec fn spec_dump_result(self, entry: kshark_entry) -> Seq<char> {
        match self.spec_bridge_record(entry) {
            Some(rec) => "Record { Name: \""@ + spec_record_name(rec.event.code)
                + "\", Task: \""@ + spec_task_label(rec.domain) + "\", Info: \""@
                + spec_record_info(rec.event.extra@) + "\" }"@,
            None => Seq::empty(),
        }
    }

    /// Renders name, task label and info of the record an entry leads
    /// back to as one line.
    pub fn dump_entry(&self, entry: &kshark_entry) -> (r: String)
        ensures
            r@ == self.spec_dump_result(*entry),
    {
        match self.get_record(entry) {
            Some(rec) => {
                let mut out = String::new();
                out.append("Record { Name: \"");
                let name = get_record_name(&rec.event);
                out.append(name.as_str());
                out.append("\", Task: \"");
                let task = get_record_task(&rec.domain);
                out.append(task.as_str());
                out.append("\", Info: \"");
                let info = get_record_info(&rec.event);
                out.append(info.as_str());
                out.append("\" }");
                proof {
                    assert(out@ =~= self.spec_dump_result(*entry));
                }
                out
            },
            None => String::new(),
        }
    }

    /// Releases the stream's record collection.  Bridge calls made
    /// afterwards return their defined defaults; the registry and the
    /// stream's identity stay as they are.
    pub fn teardown(&mut self)
        ensures
            final(self).trace is None,
            final(self).stream_id == old(self).stream_id,
            final(self).cpu_qhz == old(self).cpu_qhz,
            final(self).task_ids == old(self).task_ids,
    {
        self.trace = None;
    }
}

/// Decoding the same entry twice against the same stream yields
/// byte-identical name strings: nothing mutable feeds the decode.
pub proof fn lemma_name_deterministic(s: DataStream, entry: kshark_entry, r1: Seq<char>, r2: Seq<char>)
    requires
        r1 == s.spec_event_name_result(entry),
        r2 == s.spec_event_name_result(entry),
    ensures
        r1 == r2,
{
}

/// Decoding the same entry twice against the same stream yields
/// byte-identical task labels.
pub proof fn lemma_task_deterministic(s: DataStream, entry: kshark_entry, r1: Seq<char>, r2: Seq<char>)
    requires
        r1 == s.spec_task_result(entry),
        r2 == s.spec_task_result(entry),
    ensures
        r1 == r2,
{
}

/// Decoding the same entry twice against the same stream yields
/// byte-identical info strings.
pub proof fn lemma_info_deterministic(s: DataStream, entry: kshark_entry, r1: Seq<char>, r2: Seq<char>)
    requires
        r1 == s.spec_info_result(entry),
        r2 == s.spec_info_result(entry),
    ensures
        r1 == r2,
{
}

/// An entry projected from a record leads back, through its offset,
/// to exactly that record: the offset is a faithful back-reference
/// into the stream's record collection.
pub proof fn lemma_projected_entry_leads_back(
    s: DataStream,
    recs: Seq<TraceRecord>,
    i: int,
    origin: Option<u64>,
)
    requires
        s.trace matches Some(t) && trace_records(t) == recs,
        0 <= i < recs.len(),
        recs.len() <= 0x7fff_ffff_ffff_ffff,
    ensures
        s.spec_bridge_record(spec_entry_of(recs[i], i, s.stream_id, s.cpu_qhz, origin)) == Some(
            recs[i],
        ),
{
}

/// The bridge's name decode is total and never yields an empty string,
/// whatever the entry and the stream's state.
pub proof fn lemma_event_name_result_nonempty(s: DataStream, entry: kshark_entry)
    ensures
        s.spec_event_name_result(entry).len() > 0,
{
    match s.spec_bridge_record(entry) {
        Some(rec) => {
            lemma_record_name_nonempty(rec.event.code);
        },
        None => {
            reveal_strlit("unknown");
        },
    }
}

} // verus!
