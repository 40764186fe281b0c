use xentrace_decode::kshark::{kshark_entry, DataInterfaceId, KS_EMPTY_BIN};
use xentrace_decode::stream::DataStream;
use xentrace_decode::task::DEFAULT_TASK_ID;
use xentrace_decode::timestamp::make_calibration_constant;
use xentrace_parser::Trace;

/// One binary trace record: 28-bit code, extra-word count in bits
/// 28..30, a cycle-counter flag in bit 31.
fn record_bytes(code: u32, tsc: Option<u64>, extra: &[u32]) -> Vec<u8> {
    assert!(extra.len() <= 7);
    let mut header = code & 0x0FFF_FFFF;
    header |= (extra.len() as u32) << 28;
    if tsc.is_some() {
        header |= 1 << 31;
    }
    let mut out = header.to_ne_bytes().to_vec();
    if let Some(t) = tsc {
        out.extend_from_slice(&t.to_ne_bytes());
    }
    for w in extra {
        out.extend_from_slice(&w.to_ne_bytes());
    }
    out
}

/// A code whose bits lie inside the "running" scheduler transition,
/// which makes the parser adopt the domain in the first extra word.
const SCHED_TO_RUN: u32 = 0x00021001;

fn packed_domain(kind: u16, vcpu: u16) -> u32 {
    ((kind as u32) << 16) | vcpu as u32
}

/// A small capture: a guest domain becomes runnable, runs twice, then
/// the idle domain takes over.
fn sample_trace(origin: u64) -> Trace {
    let mut bytes = Vec::new();
    bytes.extend(record_bytes(SCHED_TO_RUN, Some(origin), &[packed_domain(5, 1)]));
    bytes.extend(record_bytes(0x00022214, Some(origin + 2400), &[]));
    bytes.extend(record_bytes(0x00081002, Some(origin + 4800), &[0x2A, 0x01]));
    bytes.extend(record_bytes(SCHED_TO_RUN, Some(origin + 7200), &[packed_domain(32767, 0)]));
    Trace::from_bytes(&bytes).expect("trace must parse")
}

fn open_default_stream(origin: u64) -> DataStream {
    let qhz = make_calibration_constant(2_400_000_000);
    DataStream::new(sample_trace(origin), 3, qhz)
}

#[test]
fn projection_is_an_identity_indexing() {
    let mut stream = open_default_stream(10_000);
    let n = stream.record_count();
    let rows = stream.load_entries();
    assert_eq!(rows.len(), n);
    assert_eq!(rows.len(), 4);
    for (i, row) in rows.iter().enumerate() {
        assert_eq!(row.offset, i as i64);
        assert_eq!(row.stream_id, 3);
        assert_eq!(row.visible, 0xFF);
    }
}

#[test]
fn first_timestamp_is_zero() {
    let mut stream = open_default_stream(987_654_321);
    let rows = stream.load_entries();
    assert_eq!(rows[0].ts, 0);
    // 2400 ticks at the default 2.4 GHz are one microsecond.
    assert_eq!(rows[1].ts, 1000);
    assert_eq!(rows[2].ts, 2000);
}

#[test]
fn projected_fields_come_from_the_records() {
    let mut stream = open_default_stream(10_000);
    let rows = stream.load_entries();
    // Guest domain 5, virtual CPU 1: packed identity plus one.
    let guest_id = (5 << 16) + 1 + 1;
    assert_eq!(rows[0].pid, guest_id);
    assert_eq!(rows[1].pid, guest_id);
    assert_eq!(rows[2].pid, guest_id);
    // The idle domain projects to task 0.
    assert_eq!(rows[3].pid, 0);
    // The event field holds the minor number of the code.
    assert_eq!(rows[0].event_id, 0x001);
    assert_eq!(rows[1].event_id, 0x214);
    assert_eq!(rows[2].event_id, 0x002);
}

#[test]
fn registry_registers_each_id_once() {
    let mut stream = open_default_stream(10_000);
    let rows = stream.load_entries();
    let guest_id = (5 << 16) + 1 + 1;
    // Three guest records, one registration; the idle id never enters.
    assert_eq!(stream.task_id_count(), 2);
    assert!(stream.has_task_id(DEFAULT_TASK_ID));
    assert!(stream.has_task_id(guest_id));
    assert!(!stream.has_task_id(0));
    assert_eq!(rows.len(), 4);
}

#[test]
fn add_task_id_is_idempotent() {
    let qhz = make_calibration_constant(2_400_000_000);
    let mut stream = DataStream::new(sample_trace(0), 0, qhz);
    assert!(stream.add_task_id(7));
    assert!(!stream.add_task_id(7));
    assert!(stream.add_task_id(8));
    assert_eq!(stream.task_id_count(), 2);
}

#[test]
fn cpu_numbers_saturate() {
    let mut bytes = Vec::new();
    // A CPU-change record moves the parser to core 40000, beyond the
    // entry field's width.
    bytes.extend(record_bytes(0x0001F003, Some(5), &[40_000]));
    bytes.extend(record_bytes(0x00022214, Some(10), &[]));
    let trace = Trace::from_bytes(&bytes).expect("trace must parse");
    let mut stream = DataStream::new(trace, 0, 2457);
    let rows = stream.load_entries();
    assert_eq!(rows.len(), 1);
    assert_eq!(rows[0].cpu, i16::MAX);
}

#[test]
fn bridge_decodes_by_offset() {
    let mut stream = open_default_stream(10_000);
    let rows = stream.load_entries();
    assert_eq!(stream.get_event_name(&rows[1]), "csched2:schedule");
    assert_eq!(stream.get_event_name(&rows[2]), "hwm:vmexit");
    assert_eq!(stream.get_task(&rows[1]), "d5/v1");
    assert_eq!(stream.get_task(&rows[3]), "idle/v0");
    assert_eq!(stream.get_info(&rows[2]), "0x0000002A, 0x00000001");
    assert_eq!(stream.get_info(&rows[1]), "");
    assert_eq!(stream.get_event_id(&rows[2]), 0x00081002);
    assert_eq!(
        stream.dump_entry(&rows[1]),
        "Record { Name: \"csched2:schedule\", Task: \"d5/v1\", Info: \"\" }",
    );
}

#[test]
fn bridge_decoding_is_deterministic() {
    let mut stream = open_default_stream(10_000);
    let rows = stream.load_entries();
    for row in rows.iter() {
        assert_eq!(stream.get_event_name(row), stream.get_event_name(row));
        assert_eq!(stream.get_task(row), stream.get_task(row));
        assert_eq!(stream.get_info(row), stream.get_info(row));
    }
}

#[test]
fn pid_honors_the_visibility_bit() {
    let stream = open_default_stream(10_000);
    let mut entry = kshark_entry::default();
    entry.pid = 42;
    assert_eq!(stream.get_pid(&entry), 42);
    entry.visible = 0;
    assert_eq!(stream.get_pid(&entry), KS_EMPTY_BIN);
    entry.visible = 1 << 7;
    assert_eq!(stream.get_pid(&entry), 42);
}

#[test]
fn out_of_range_offsets_return_defaults() {
    let stream = open_default_stream(10_000);
    let mut entry = kshark_entry::default();
    entry.offset = 999;
    assert_eq!(stream.get_event_name(&entry), "unknown");
    assert_eq!(stream.get_task(&entry), "");
    assert_eq!(stream.get_info(&entry), "");
    assert_eq!(stream.get_event_id(&entry), 0);
    entry.offset = -1;
    assert_eq!(stream.get_event_name(&entry), "unknown");
}

#[test]
fn teardown_leaves_bridge_calls_defined() {
    let mut stream = open_default_stream(10_000);
    let rows = stream.load_entries();
    stream.teardown();
    for row in rows.iter() {
        assert_eq!(stream.get_event_name(row), "unknown");
        assert_eq!(stream.get_task(row), "");
        assert_eq!(stream.get_info(row), "");
        assert_eq!(stream.get_event_id(row), 0);
        assert_eq!(stream.dump_entry(row), "");
    }
    assert_eq!(stream.record_count(), 0);
    assert_eq!(stream.load_entries().len(), 0);
    // The registry survives teardown.
    assert_eq!(stream.task_id_count(), 2);
}

#[test]
fn empty_trace_projects_nothing() {
    let trace = Trace::from_bytes(&[]).expect("empty trace must parse");
    let mut stream = DataStream::new(trace, 0, 2457);
    assert_eq!(stream.record_count(), 0);
    let rows = stream.load_entries();
    assert!(rows.is_empty());
    // Only the default identifier is registered.
    assert_eq!(stream.task_id_count(), 1);
    assert!(stream.has_task_id(DEFAULT_TASK_ID));
}

#[test]
fn default_entry_is_fully_visible() {
    let entry = kshark_entry::default();
    assert_eq!(entry.visible, 0xFF);
    assert_eq!(entry.stream_id, 0);
    assert_eq!(entry.event_id, 0);
    assert_eq!(entry.cpu, 0);
    assert_eq!(entry.pid, 0);
    assert_eq!(entry.offset, 0);
    assert_eq!(entry.ts, 0);
}

#[test]
fn interface_ids_have_their_wire_values() {
    assert_eq!(DataInterfaceId::InvalidInterface.value(), 0);
    assert_eq!(DataInterfaceId::GenericDataInterface.value(), 1);
}
