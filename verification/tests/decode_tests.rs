use xentrace_decode::info::get_record_info;
use xentrace_decode::name::{classify, get_hvm_name, get_hw_name, get_record_name, get_sched_name, Category};
use xentrace_decode::record::{Domain, DomainKind, Event};
use xentrace_decode::task::{get_record_task, task_id_for, DEFAULT_TASK_ID};
use xentrace_decode::xen::is_trace_start_word;

fn event(code: u32) -> Event {
    Event { code, tsc: 0, extra: [None; 7] }
}

#[test]
fn classify_splits_the_packed_code() {
    let (cat, sub, minor) = classify(0x00021002);
    assert_eq!(cat, Category::Scheduler);
    assert_eq!(sub, 0x1);
    assert_eq!(minor, 0x002);
    let (cat, _, _) = classify(0x0F00123);
    assert_eq!(cat, Category::Unrecognized);
}

#[test]
fn sched_names_resolve() {
    assert_eq!(get_record_name(&event(0x00021002)), "sched:continue_running");
    assert_eq!(get_record_name(&event(0x00022214)), "csched2:schedule");
    assert_eq!(get_record_name(&event(0x0002800A)), "sched:__enter_scheduler");
    assert_eq!(get_sched_name(0x1, 0x101), Some("sched:runnable_to_running"));
    assert_eq!(get_sched_name(0x3, 0x101), None);
}

#[test]
fn hvm_names_resolve() {
    assert_eq!(get_record_name(&event(0x00081002)), "hwm:vmexit");
    assert_eq!(get_record_name(&event(0x00082025)), "hwm:vlapic");
    assert_eq!(get_hvm_name(0x4, 0x011), Some("hwm/emul:lapic_pic_intr"));
    assert_eq!(get_hvm_name(0x3, 0x001), None);
}

#[test]
fn hw_names_resolve() {
    assert_eq!(get_record_name(&event(0x00801001)), "hw/pm:freq_change");
    assert_eq!(get_hw_name(0x2, 0x008), Some("hw/irq:handled"));
    assert_eq!(get_hw_name(0x9, 0x001), None);
}

#[test]
fn flat_class_names_resolve() {
    assert_eq!(get_record_name(&event(0x00010001)), "gen:lost_records");
    assert_eq!(get_record_name(&event(0x00040002)), "dom0:destroy");
    assert_eq!(get_record_name(&event(0x00100011)), "mem:pod_zero_reclaim");
    // The PV and shadow classes mask the minor down to its low nibble.
    assert_eq!(get_record_name(&event(0x0020001D)), "pv:hypercall_v2");
    assert_eq!(get_record_name(&event(0x0200F2D)), "pv:hypercall_v2");
    assert_eq!(get_record_name(&event(0x00400006)), "shadow:fixup");
    assert_eq!(get_record_name(&event(0x08000123)), "TRC_GUEST");
}

#[test]
fn unknown_codes_format_as_hex() {
    assert_eq!(get_record_name(&event(0x0F00123)), "unknown (0x00F00123)");
    assert_eq!(get_record_name(&event(0x00021F0F)), "unknown (0x00021F0F)");
    assert_eq!(get_record_name(&event(0)), "unknown (0x00000000)");
}

#[test]
fn name_decoding_is_total_and_nonempty() {
    // Sampled sweep over the 28-bit code space, including every class
    // value in the high bits.
    let mut code: u32 = 0;
    while code < 0x1000_0000 {
        let name = get_record_name(&event(code));
        assert!(!name.is_empty());
        code = code.wrapping_add(0x0000_F77D);
    }
}

#[test]
fn info_joins_present_words() {
    let mut extra = [None; 7];
    extra[0] = Some(0x2A);
    extra[2] = Some(1);
    let e = Event { code: 0, tsc: 0, extra };
    assert_eq!(get_record_info(&e), "0x0000002A, 0x00000001");
}

#[test]
fn info_of_absent_words_is_empty() {
    assert_eq!(get_record_info(&event(0x00021002)), "");
}

#[test]
fn task_labels_render() {
    assert_eq!(get_record_task(&Domain { kind: DomainKind::Zero, vcpu: 0 }), "host/v0");
    assert_eq!(get_record_task(&Domain { kind: DomainKind::Idle, vcpu: 3 }), "idle/v3");
    assert_eq!(get_record_task(&Domain { kind: DomainKind::Default, vcpu: 9 }), "default/v?");
    assert_eq!(get_record_task(&Domain { kind: DomainKind::Guest(5), vcpu: 12 }), "d5/v12");
    assert_eq!(get_record_task(&Domain { kind: DomainKind::Guest(312), vcpu: 0 }), "d312/v0");
}

#[test]
fn task_ids_map_domains() {
    assert_eq!(task_id_for(&Domain { kind: DomainKind::Idle, vcpu: 4 }), 0);
    assert_eq!(task_id_for(&Domain { kind: DomainKind::Zero, vcpu: 1 }), DEFAULT_TASK_ID);
    assert_eq!(task_id_for(&Domain { kind: DomainKind::Default, vcpu: 0 }), DEFAULT_TASK_ID);
    // A guest maps to its packed identity plus one.
    assert_eq!(task_id_for(&Domain { kind: DomainKind::Guest(5), vcpu: 1 }), 0x0005_0002);
    // The largest packed identity saturates instead of wrapping.
    assert_eq!(
        task_id_for(&Domain { kind: DomainKind::Guest(0xFFFF), vcpu: 0xFFFF }),
        i32::MAX,
    );
}

#[test]
fn file_sniff_matches_the_cpu_change_code() {
    assert!(is_trace_start_word(0x0001F003));
    // High nibble noise is masked away before the comparison.
    assert!(is_trace_start_word(0xF001F003));
    assert!(!is_trace_start_word(0x0001F004));
    assert!(!is_trace_start_word(0));
}
