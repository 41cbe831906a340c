use vstd::prelude::*;

use sysinfo::{CpuExt, DiskExt, NetworkExt, NetworksExt, ProcessExt, SystemExt};

verus! {

use crate::Timestamp;
use crate::models::{
    Cpu, CpuTrait, Disk, DiskClass, DisksTrait, GlobalCpu, GlobalCpuTrait, Memory, MemoryTrait,
    Network, NetworkTrait, Process, ProcessesTrait, StatusKind, Swap, SwapTrait, SysInfo,
    SystemInformationTrait,
};
use crate::percent::pct_clamped;
use crate::percent::used_of;
use crate::snapshot::{
    cpu_records, cpu_row_matches, disk_records, disk_row_matches, global_cpu_record,
    lemma_disk_label_exhaustive, lemma_status_label_exhaustive, memory_record, network_records,
    network_row_matches, process_records, process_row_matches, swap_record, sysinfo_record,
    valid_disk_type_label, valid_status_label, CpuRow, DiskRow, GlobalCpuRow, NetRow, ProcRow,
};
use crate::text::{all_digits, digits_val, parse_pid, pid_digits, valid_pid_text};

/// The operating system's process and hardware enumeration facility; the
/// engine owns exactly one and refreshes it selectively per query.
#[verifier::external_type_specification]
#[verifier::external_body]
pub struct ExSystem(sysinfo::System);

/// Relies on std::time::SystemTime::now and duration_since of the Unix
/// epoch: wall-clock milliseconds, 0 for a clock set before the epoch,
/// saturating far past any realistic date. The count is never negative;
/// beyond that nothing is promised, the clock may move freely.
#[verifier::external_body]
fn clock_millis() -> (r: i64)
    ensures
        r >= 0,
{
    match std::time::SystemTime::now().duration_since(std::time::UNIX_EPOCH) {
        Ok(d) => i64::try_from(d.as_millis()).unwrap_or(i64::MAX),
        Err(_) => 0,
    }
}

/// The moment a record is produced, as a nonnegative count of epoch
/// milliseconds.
pub fn current_time() -> (t: Timestamp)
    ensures
        t.0 >= 0,
{
    Timestamp(clock_millis())
}

/// Relies on sysinfo::SystemExt::refresh_all: re-reads every subsystem.
#[verifier::external_body]
fn refresh_all(sys: &mut sysinfo::System) {
    sys.refresh_all();
}

/// Relies on sysinfo::SystemExt::refresh_cpu: re-reads the CPU counters.
#[verifier::external_body]
fn refresh_cpu(sys: &mut sysinfo::System) {
    sys.refresh_cpu();
}

/// Relies on sysinfo::SystemExt::refresh_memory: re-reads memory and swap
/// counters in one call, keeping the two consistent.
#[verifier::external_body]
fn refresh_memory(sys: &mut sysinfo::System) {
    sys.refresh_memory();
}

/// Relies on sysinfo::SystemExt::refresh_disks_list: re-enumerates the
/// mounted volumes, picking up mounts and unmounts.
#[verifier::external_body]
fn refresh_disks_list(sys: &mut sysinfo::System) {
    sys.refresh_disks_list();
}

/// Relies on sysinfo::SystemExt::refresh_disks: re-reads per-disk counters.
#[verifier::external_body]
fn refresh_disks(sys: &mut sysinfo::System) {
    sys.refresh_disks();
}

/// Relies on sysinfo::SystemExt::refresh_processes: re-reads the process
/// table.
#[verifier::external_body]
fn refresh_processes(sys: &mut sysinfo::System) {
    sys.refresh_processes();
}

/// Relies on sysinfo::SystemExt::refresh_networks: re-reads the interface
/// counters.
#[verifier::external_body]
fn refresh_networks(sys: &mut sysinfo::System) {
    sys.refresh_networks();
}

/// Relies on sysinfo::SystemExt::kernel_version: `None` when the OS does
/// not report one.
#[verifier::external_body]
fn read_kernel_version(sys: &sysinfo::System) -> Option<String> {
    sys.kernel_version()
}

/// Relies on sysinfo::SystemExt::long_os_version: `None` when the OS does
/// not report one.
#[verifier::external_body]
fn read_os_version(sys: &sysinfo::System) -> Option<String> {
    sys.long_os_version()
}

/// Relies on sysinfo::SystemExt::host_name: `None` when the OS does not
/// report one.
#[verifier::external_body]
fn read_host_name(sys: &sysinfo::System) -> Option<String> {
    sys.host_name()
}

/// Relies on sysinfo::SystemExt::physical_core_count: `None` when it
/// cannot be determined.
#[verifier::external_body]
fn read_core_count(sys: &sysinfo::System) -> Option<usize> {
    sys.physical_core_count()
}

/// Relies on sysinfo::SystemExt::total_memory (bytes).
#[verifier::external_body]
fn read_total_memory(sys: &sysinfo::System) -> u64 {
    sys.total_memory()
}

/// Relies on sysinfo::SystemExt::free_memory (bytes).
#[verifier::external_body]
fn read_free_memory(sys: &sysinfo::System) -> u64 {
    sys.free_memory()
}

/// Relies on sysinfo::SystemExt::total_swap (bytes).
#[verifier::external_body]
fn read_total_swap(sys: &sysinfo::System) -> u64 {
    sys.total_swap()
}

/// Relies on sysinfo::SystemExt::free_swap (bytes).
#[verifier::external_body]
fn read_free_swap(sys: &sysinfo::System) -> u64 {
    sys.free_swap()
}

/// Relies on sysinfo::SystemExt::cpus and sysinfo::CpuExt::{name,
/// cpu_usage}: one row per logical core, in the OS enumeration order; the
/// raw usage counter is carried as its decimal text, so no precision is
/// lost before the verified rounding.
#[verifier::external_body]
fn read_cpu_rows(sys: &sysinfo::System) -> Vec<CpuRow> {
    sys.cpus().iter().map(
        |c| CpuRow { name: c.name().to_owned(), usage_text: format!("{}", c.cpu_usage()) },
    ).collect()
}

/// Relies on sysinfo::SystemExt::global_cpu_info and sysinfo::CpuExt::
/// {cpu_usage, brand, frequency, name, vendor_id}; the raw usage counter
/// is carried as its decimal text.
#[verifier::external_body]
fn read_global_cpu_row(sys: &sysinfo::System) -> GlobalCpuRow {
    let c = sys.global_cpu_info();
    GlobalCpuRow {
        usage_text: format!("{}", c.cpu_usage()),
        brand: c.brand().to_owned(),
        frequency: c.frequency(),
        name: c.name().to_owned(),
        vendor: c.vendor_id().to_owned(),
    }
}

/// Relies on sysinfo::SystemExt::disks and sysinfo::DiskExt::{name,
/// mount_point, file_system, type_, total_space, available_space,
/// is_removable}: one row per volume, in the OS enumeration order; paths
/// and label bytes that are not valid text become `None`.
#[verifier::external_body]
fn read_disk_rows(sys: &sysinfo::System) -> Vec<DiskRow> {
    sys.disks().iter().map(|d| DiskRow {
        name_text: d.name().to_str().map(|s| s.to_owned()),
        mount_text: d.mount_point().to_str().map(|s| s.to_owned()),
        file_system: std::str::from_utf8(d.file_system()).ok().map(|s| s.to_owned()),
        class: match d.type_() {
            sysinfo::DiskType::HDD => DiskClass::Rotational,
            sysinfo::DiskType::SSD => DiskClass::SolidState,
            _ => DiskClass::Other,
        },
        total: d.total_space(),
        free: d.available_space(),
        removable: d.is_removable(),
    }).collect()
}

/// Relies on sysinfo::SystemExt::processes and sysinfo::ProcessExt::
/// {name, cpu_usage, memory, status}: one row per entry of the last
/// process-table refresh, in the table's iteration order (not a
/// contractual order); the summed per-core usage is carried as its
/// decimal text. The pid text comes from the pid's own rendering, which
/// writes the numeric id in decimal on every platform, so each row's
/// `pid_text` is one or more digits.
#[verifier::external_body]
fn read_proc_rows(sys: &sysinfo::System) -> (r: Vec<ProcRow>)
    ensures
        forall|j: int|
            0 <= j < r@.len() ==> all_digits(#[trigger] r@[j].pid_text@) && r@[j].pid_text@.len()
                >= 1,
{
    sys.processes().iter().map(|(pid, p)| ProcRow {
        name: p.name().to_owned(),
        pid_text: pid.to_string(),
        cpu_text: format!("{}", p.cpu_usage()),
        memory: p.memory(),
        status: match p.status() {
            sysinfo::ProcessStatus::Run => StatusKind::Running,
            sysinfo::ProcessStatus::Sleep => StatusKind::Sleeping,
            sysinfo::ProcessStatus::Stop => StatusKind::Stopped,
            sysinfo::ProcessStatus::Idle => StatusKind::Idle,
            sysinfo::ProcessStatus::Zombie => StatusKind::Zombie,
            _ => StatusKind::Other,
        },
    }).collect()
}

/// Relies on sysinfo::SystemExt::networks and sysinfo::NetworkExt::
/// {total_received, total_transmitted}: one row per interface, keyed by
/// name, with the cumulative byte counters (not the since-last-refresh
/// deltas).
#[verifier::external_body]
fn read_net_rows(sys: &sysinfo::System) -> Vec<NetRow> {
    sys.networks().iter().map(
        |(name, n)| NetRow {
            name: name.to_owned(),
            received: n.total_received(),
            transmitted: n.total_transmitted(),
        },
    ).collect()
}

/// The set of process ids held in the handle's cached process table, as
/// filled by the last process refresh. It is a function of the handle's
/// own state: no lookup consults the live system.
pub uninterp spec fn proc_table(sys: sysinfo::System) -> Set<int>;

/// Relies on sysinfo::SystemExt::process and on sysinfo::ProcessExt::
/// kill_with with the forceful kill signal. The lookup is a plain search
/// of the last-refreshed process table, so it finds the pid exactly when
/// `proc_table` holds it - stale-table semantics, no implicit refresh; a
/// process gone since that refresh is simply not found. The outer `None`
/// is "not in the table"; `Some(None)` is "the platform cannot deliver
/// that signal"; `Some(Some(b))` is the OS's success result. The pid
/// stays within every platform's native pid type (the narrowest is
/// unix's 32-bit signed id), so the conversion into it is one-for-one
/// and the signal can only go to the process the pid names.
#[verifier::external_body]
fn kill_in_table(sys: &sysinfo::System, pid: usize) -> (r: Option<Option<bool>>)
    requires
        pid <= i32::MAX as usize,
    ensures
        r is Some <==> proc_table(*sys).contains(pid as int),
{
    match sys.process(sysinfo::Pid::from(pid)) {
        None => None,
        Some(p) => Some(p.kill_with(sysinfo::Signal::Kill)),
    }
}

/// Internal consistency of a disk record: the byte arithmetic holds
/// between its own fields, the classification label is one of the three
/// the table produces, and its timestamp is a nonnegative epoch count.
pub open spec fn disk_consistent(d: Disk) -> bool {
    &&& d.used == used_of(d.total as int, d.free as int)
    &&& d.used_percentage == pct_clamped(d.used as int, d.total as int)
    &&& valid_disk_type_label(d.disk_type@)
    &&& d.timestamp.0 >= 0
}

/// Internal consistency of a process record: its status label is one the
/// classification table produces, and its pid is a decimal string.
pub open spec fn process_consistent(p: Process) -> bool {
    &&& valid_status_label(p.status@)
    &&& all_digits(p.pid@)
    &&& p.pid@.len() >= 1
}

/// The snapshot engine. It owns the one long-lived operating-system
/// handle; every query refreshes the subsystem it needs and returns a
/// freshly built record, so results are never cached. Callers that share
/// an engine serialize access around it (the surrounding application puts
/// it behind a mutual-exclusion lock).
pub struct Metrics {
    sys: sysinfo::System,
}

impl Metrics {
    /// The pids of the engine's last-refreshed process table; what the
    /// termination path consults, never the live system.
    pub closed spec fn table(&self) -> Set<int> {
        proc_table(self.sys)
    }

    /// Takes ownership of the handle; created once at process start.
    pub fn new(sys: sysinfo::System) -> Metrics {
        Metrics { sys }
    }

    /// Full refresh, then host identity; missing data degrades to
    /// "Unknown" or 0, the call never fails. The core count is canonical
    /// decimal text.
    pub fn sysinfo(&mut self) -> (r: SysInfo)
        ensures
            all_digits(r.core_count@),
            r.core_count@.len() >= 1,
            r.core_count@.len() > 1 ==> r.core_count@[0] != '0',
            r.timestamp.0 >= 0,
    {
        refresh_all(&mut self.sys);
        let kernel = read_kernel_version(&self.sys);
        let os = read_os_version(&self.sys);
        let host = read_host_name(&self.sys);
        let cores = read_core_count(&self.sys);
        let ts = current_time();
        sysinfo_record(kernel, os, host, cores, ts)
    }

    /// CPU refresh, then the aggregate descriptor.
    pub fn global_cpu(&mut self) -> (g: GlobalCpu)
        ensures
            g.timestamp.0 >= 0,
    {
        refresh_cpu(&mut self.sys);
        let row = read_global_cpu_row(&self.sys);
        let ts = current_time();
        global_cpu_record(row, ts)
    }

    /// CPU refresh, then one record per logical core read, in the OS
    /// enumeration order; `cpu_records` carries the exact per-index
    /// contract over the rows.
    pub fn cpus(&mut self) -> (v: Vec<Cpu>)
        ensures
            forall|j: int| 0 <= j < v@.len() ==> (#[trigger] v@[j]).timestamp.0 >= 0,
    {
        refresh_cpu(&mut self.sys);
        let rows = read_cpu_rows(&self.sys);
        let ghost rows_v = rows@;
        let ts = current_time();
        let v = cpu_records(rows, ts);
        proof {
            assert forall|j: int| 0 <= j < v@.len() implies (#[trigger] v@[j]).timestamp.0
                >= 0 by {
                assert(cpu_row_matches(v@[j], rows_v[j], ts));
            }
        }
        v
    }

    /// Disk list refresh (picking up mounts and unmounts), then per-disk
    /// counters, then one record per volume read, in the OS enumeration
    /// order; `disk_records` carries the exact per-index contract over
    /// the rows.
    pub fn disks(&mut self) -> (v: Vec<Disk>)
        ensures
            forall|j: int| 0 <= j < v@.len() ==> disk_consistent(#[trigger] v@[j]),
    {
        refresh_disks_list(&mut self.sys);
        refresh_disks(&mut self.sys);
        let rows = read_disk_rows(&self.sys);
        let ghost rows_v = rows@;
        let ts = current_time();
        let v = disk_records(rows, ts);
        proof {
            assert forall|j: int| 0 <= j < v@.len() implies disk_consistent(
                #[trigger] v@[j],
            ) by {
                assert(disk_row_matches(v@[j], rows_v[j], ts));
                lemma_disk_label_exhaustive(rows_v[j].class);
            }
        }
        v
    }

    /// Memory refresh (which also refreshes swap), then the memory side.
    pub fn memory(&mut self) -> (m: Memory)
        ensures
            m.used == used_of(m.total as int, m.free as int),
            m.used_percentage == pct_clamped(m.used as int, m.total as int),
            m.timestamp.0 >= 0,
    {
        refresh_memory(&mut self.sys);
        let total = read_total_memory(&self.sys);
        let free = read_free_memory(&self.sys);
        let ts = current_time();
        memory_record(total, free, ts)
    }

    /// Memory refresh (which also refreshes swap), then the swap side.
    pub fn swap(&mut self) -> (m: Swap)
        ensures
            m.used == used_of(m.total as int, m.free as int),
            m.used_percentage == pct_clamped(m.used as int, m.total as int),
            m.timestamp.0 >= 0,
    {
        refresh_memory(&mut self.sys);
        let total = read_total_swap(&self.sys);
        let free = read_free_swap(&self.sys);
        let ts = current_time();
        swap_record(total, free, ts)
    }

    /// Process-table refresh, then one record per table entry read, with
    /// no grouping; each summed per-core usage is divided by the physical
    /// core count, defaulting to 1 when that count is unknown or zero;
    /// `process_records` carries the exact per-index contract over the
    /// rows.
    pub fn processes(&mut self) -> (v: Vec<Process>)
        ensures
            forall|j: int| 0 <= j < v@.len() ==> process_consistent(#[trigger] v@[j]),
    {
        refresh_processes(&mut self.sys);
        let cores: u64 = match read_core_count(&self.sys) {
            Option::Some(c) => if c >= 1 {
                c as u64
            } else {
                1
            },
            Option::None => 1,
        };
        let rows = read_proc_rows(&self.sys);
        let ghost rows_v = rows@;
        let v = process_records(rows, cores);
        proof {
            assert forall|j: int| 0 <= j < v@.len() implies process_consistent(
                #[trigger] v@[j],
            ) by {
                assert(process_row_matches(v@[j], rows_v[j], cores as int));
                assert(all_digits(rows_v[j].pid_text@) && rows_v[j].pid_text@.len() >= 1);
                lemma_status_label_exhaustive(rows_v[j].status);
            }
        }
        v
    }

    /// Network refresh, then one record per interface read, with the
    /// cumulative byte counters; `network_records` carries the exact
    /// per-index contract over the rows.
    pub fn networks(&mut self) -> (v: Vec<Network>)
        ensures
            forall|j: int| 0 <= j < v@.len() ==> (#[trigger] v@[j]).timestamp.0 >= 0,
    {
        refresh_networks(&mut self.sys);
        let rows = read_net_rows(&self.sys);
        let ghost rows_v = rows@;
        let ts = current_time();
        let v = network_records(rows, ts);
        proof {
            assert forall|j: int| 0 <= j < v@.len() implies (#[trigger] v@[j]).timestamp.0
                >= 0 by {
                assert(network_row_matches(v@[j], rows_v[j], ts));
            }
        }
        v
    }

    /// Terminates a process by its stringified pid. A pid that does not
    /// parse into the native pid range, a pid absent from the
    /// last-refreshed process table (no implicit refresh happens), and a
    /// signal the OS refuses all collapse to `false`; success is only
    /// ever reported for a pid the table holds; the engine's own state
    /// is untouched.
    pub fn kill_process(&mut self, pid: String) -> (r: bool)
        ensures
            !valid_pid_text(pid@) ==> r == false,
            valid_pid_text(pid@) && !old(self).table().contains(digits_val(pid_digits(pid@)))
                ==> r == false,
            r ==> valid_pid_text(pid@) && old(self).table().contains(
                digits_val(pid_digits(pid@)),
            ),
            *final(self) == *old(self),
    {
        let p: usize = match parse_pid(pid.as_str()) {
            Option::Some(p) => p,
            Option::None => {
                return false;
            },
        };
        match kill_in_table(&self.sys, p) {
            Option::Some(Option::Some(result)) => result,
            Option::Some(Option::None) => false,
            Option::None => false,
        }
    }
}

impl SystemInformationTrait for Metrics {
    fn get_system_information(&mut self) -> SysInfo {
        self.sysinfo()
    }
}

impl GlobalCpuTrait for Metrics {
    fn get_global_cpu(&mut self) -> GlobalCpu {
        self.global_cpu()
    }
}

impl CpuTrait for Metrics {
    fn get_cpus(&mut self) -> Vec<Cpu> {
        self.cpus()
    }
}

impl MemoryTrait for Metrics {
    fn get_memory(&mut self) -> Memory {
        self.memory()
    }
}

impl SwapTrait for Metrics {
    fn get_swap(&mut self) -> Swap {
        self.swap()
    }
}

impl DisksTrait for Metrics {
    fn get_disks(&mut self) -> Vec<Disk> {
        self.disks()
    }
}

impl NetworkTrait for Metrics {
    fn get_networks(&mut self) -> Vec<Network> {
        self.networks()
    }
}

impl ProcessesTrait for Metrics {
    fn get_processes(&mut self) -> Vec<Process> {
        self.processes()
    }

    fn kill_process(&mut self, pid: &str) -> bool {
        self.kill_process(String::from_str(pid))
    }
}

} // verus!
