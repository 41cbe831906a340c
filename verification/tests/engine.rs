use sysinfo::{System, SystemExt};
use sysmetrics::engine::{current_time, Metrics};
use sysmetrics::models::{MemoryTrait, ProcessesTrait, SwapTrait};

#[test]
fn memory_record_is_internally_consistent() {
    let mut m = Metrics::new(System::new());
    let mem = m.memory();
    if mem.free <= mem.total {
        assert_eq!(mem.used + mem.free, mem.total);
        if mem.used <= mem.total {
            assert!(mem.used_percentage <= 10000);
        }
    }
}

#[test]
fn swap_record_is_internally_consistent() {
    let mut m = Metrics::new(System::new());
    let swap = m.swap();
    if swap.free <= swap.total {
        assert_eq!(swap.used + swap.free, swap.total);
    }
    if swap.total == 0 {
        assert_eq!(swap.used_percentage, 0);
    }
}

#[test]
fn disks_carry_valid_labels_and_arithmetic() {
    let mut m = Metrics::new(System::new());
    for d in m.disks() {
        assert!(d.disk_type == "HDD" || d.disk_type == "SSD" || d.disk_type == "Unknown");
        if d.free <= d.total {
            assert_eq!(d.used + d.free, d.total);
        }
    }
}

#[test]
fn processes_carry_valid_status_labels() {
    let mut m = Metrics::new(System::new());
    let labels = ["Running", "Sleeping", "Stopped", "Idle", "Zombie", "Unknown"];
    for p in m.processes() {
        assert!(labels.contains(&p.status.as_str()));
        assert!(p.pid.chars().all(|c| c.is_ascii_digit()));
    }
}

#[test]
fn sysinfo_core_count_is_decimal_text() {
    let mut m = Metrics::new(System::new());
    let info = m.sysinfo();
    assert!(!info.core_count.is_empty());
    assert!(info.core_count.chars().all(|c| c.is_ascii_digit()));
    // Canonical decimal text: no leading zero unless the count itself
    // is unknown and reads "0".
    assert!(info.core_count.len() == 1 || !info.core_count.starts_with('0'));
    assert!(!info.kernel_version.is_empty());
    assert!(!info.hostname.is_empty());
}

#[test]
fn cpus_carry_fresh_timestamps() {
    let before = current_time();
    let mut m = Metrics::new(System::new());
    for c in m.cpus() {
        assert!(c.timestamp.0 >= before.0);
    }
}

#[test]
fn global_cpu_timestamps_are_ordered_and_nonnegative() {
    let mut m = Metrics::new(System::new());
    let g1 = m.global_cpu();
    let g2 = m.global_cpu();
    assert!(g1.timestamp.0 >= 0);
    assert!(g2.timestamp.0 >= g1.timestamp.0);
}

#[test]
fn networks_query_succeeds() {
    let mut m = Metrics::new(System::new());
    let _ = m.networks();
}

#[test]
fn terminate_rejects_non_numeric_pid() {
    let mut m = Metrics::new(System::new());
    assert!(!m.kill_process("not-a-number".to_string()));
    assert!(!m.kill_process("".to_string()));
    assert!(!m.kill_process("12x".to_string()));
    assert!(!m.kill_process("-1".to_string()));
    // Wider than any native pid type: rejected outright, never wrapped
    // into a signal aimed at some other process.
    assert!(!m.kill_process("2147483648".to_string()));
    assert!(!m.kill_process("4294967301".to_string()));
}

#[test]
fn terminate_accepts_plus_signed_pid_text() {
    // "+1" parses natively; with a never-refreshed table the lookup
    // still fails, so no signal goes anywhere.
    let mut m = Metrics::new(System::new());
    assert!(!m.kill_process("+1".to_string()));
}

#[test]
fn terminate_unknown_pid_in_stale_table_is_false() {
    // The handle has never refreshed its process table, so every pid is
    // absent from it: termination must fail without an implicit refresh,
    // even for a pid (1) that certainly exists on the host.
    let mut m = Metrics::new(System::new());
    assert!(!m.kill_process("1".to_string()));
    assert!(!m.kill_process("999999999".to_string()));
}

#[test]
fn terminate_via_trait_matches_inherent_behaviour() {
    let mut m = Metrics::new(System::new());
    assert!(!ProcessesTrait::kill_process(&mut m, "not-a-number"));
}

#[test]
fn trait_surface_reaches_the_engine() {
    let mut m = Metrics::new(System::new());
    let a = MemoryTrait::get_memory(&mut m);
    let b = SwapTrait::get_swap(&mut m);
    if a.free <= a.total {
        assert_eq!(a.used + a.free, a.total);
    }
    if b.free <= b.total {
        assert_eq!(b.used + b.free, b.total);
    }
}

#[test]
fn timestamps_never_run_backwards_across_calls() {
    let t1 = current_time();
    // Burn a little wall-clock time between the two captures.
    let mut acc: u64 = 0;
    for i in 0..2_000_000u64 {
        acc = acc.wrapping_add(i);
    }
    let t2 = current_time();
    assert!(acc > 0);
    assert!(t2.0 >= t1.0);
}

#[test]
fn records_carry_fresh_timestamps() {
    let before = current_time();
    let mut m = Metrics::new(System::new());
    let mem = m.memory();
    let after = current_time();
    assert!(before.0 <= mem.timestamp.0);
    assert!(mem.timestamp.0 <= after.0);
}
