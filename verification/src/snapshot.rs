use vstd::prelude::*;

verus! {

use crate::Timestamp;
use crate::models::{
    Cpu, Disk, DiskClass, GlobalCpu, Memory, Network, Process, StatusKind, Swap, SysInfo,
};
use crate::percent::{
    div_round_half_up, div_rounded_scaled, pct_clamped, percentage, used_bytes, used_of,
};
use crate::text::{
    all_digits, decimal_text, digits_val, parse_percent_tenk, parse_percent_text,
    pct_text_clamped, pct_text_tenk_clamped,
};

/// Raw reading of one logical core: its name, and its usage counter
/// (already a 0-100 figure) as decimal text.
pub struct CpuRow {
    pub name: String,
    pub usage_text: String,
}

/// Raw reading of the aggregate CPU descriptor; the usage arrives as
/// decimal text of the underlying counter.
pub struct GlobalCpuRow {
    pub usage_text: String,
    pub brand: String,
    pub frequency: u64,
    pub name: String,
    pub vendor: String,
}

/// Raw reading of one mounted volume. `name_text` and `mount_text` are
/// `None` when the underlying path is not valid text; `file_system` is
/// `None` when the raw label bytes are not valid text.
pub struct DiskRow {
    pub name_text: Option<String>,
    pub mount_text: Option<String>,
    pub file_system: Option<String>,
    pub class: DiskClass,
    pub total: u64,
    pub free: u64,
    pub removable: bool,
}

/// Raw reading of one process table entry; the summed per-core usage
/// arrives as decimal text of the underlying counter.
pub struct ProcRow {
    pub name: String,
    pub pid_text: String,
    pub cpu_text: String,
    pub memory: u64,
    pub status: StatusKind,
}

/// Raw reading of one network interface.
pub struct NetRow {
    pub name: String,
    pub received: u64,
    pub transmitted: u64,
}

/// The fixed disk classification table: rotational is "HDD", solid-state
/// is "SSD", anything else is "Unknown".
pub open spec fn disk_type_label(k: DiskClass) -> Seq<char> {
    match k {
        DiskClass::Rotational => "HDD"@,
        DiskClass::SolidState => "SSD"@,
        DiskClass::Other => "Unknown"@,
    }
}

/// The three labels a disk record can carry.
pub open spec fn valid_disk_type_label(s: Seq<char>) -> bool {
    s == "HDD"@ || s == "SSD"@ || s == "Unknown"@
}

/// The fixed process status table, with "Unknown" as the default bucket.
pub open spec fn status_label(k: StatusKind) -> Seq<char> {
    match k {
        StatusKind::Running => "Running"@,
        StatusKind::Sleeping => "Sleeping"@,
        StatusKind::Stopped => "Stopped"@,
        StatusKind::Idle => "Idle"@,
        StatusKind::Zombie => "Zombie"@,
        StatusKind::Other => "Unknown"@,
    }
}

/// The six labels a process record can carry.
pub open spec fn valid_status_label(s: Seq<char>) -> bool {
    s == "Running"@ || s == "Sleeping"@ || s == "Stopped"@ || s == "Idle"@ || s == "Zombie"@
        || s == "Unknown"@
}

/// The disk classification is exhaustive: every classification value maps
/// to exactly one of the three labels, and every class outside the two
/// recognized ones lands in the "Unknown" bucket.
pub proof fn lemma_disk_label_exhaustive(k: DiskClass)
    ensures
        valid_disk_type_label(disk_type_label(k)),
        disk_type_label(k) == "HDD"@ <==> k == DiskClass::Rotational,
        disk_type_label(k) == "SSD"@ <==> k == DiskClass::SolidState,
        disk_type_label(k) == "Unknown"@ <==> k == DiskClass::Other,
{
    reveal_strlit("HDD");
    reveal_strlit("SSD");
    reveal_strlit("Unknown");
    assert("HDD"@[0] == 'H' && "SSD"@[0] == 'S' && "Unknown"@[0] == 'U');
}

/// The process status classification is exhaustive: every status value
/// maps to exactly one of the six labels, and every status outside the
/// five recognized ones lands in the "Unknown" bucket.
pub proof fn lemma_status_label_exhaustive(k: StatusKind)
    ensures
        valid_status_label(status_label(k)),
        status_label(k) == "Running"@ <==> k == StatusKind::Running,
        status_label(k) == "Sleeping"@ <==> k == StatusKind::Sleeping,
        status_label(k) == "Stopped"@ <==> k == StatusKind::Stopped,
        status_label(k) == "Idle"@ <==> k == StatusKind::Idle,
        status_label(k) == "Zombie"@ <==> k == StatusKind::Zombie,
        status_label(k) == "Unknown"@ <==> k == StatusKind::Other,
{
    reveal_strlit("Running");
    reveal_strlit("Sleeping");
    reveal_strlit("Stopped");
    reveal_strlit("Idle");
    reveal_strlit("Zombie");
    reveal_strlit("Unknown");
    assert("Running"@[0] == 'R' && "Sleeping"@[0] == 'S' && "Stopped"@[0] == 'S' && "Idle"@[0]
        == 'I' && "Zombie"@[0] == 'Z' && "Unknown"@[0] == 'U');
    assert("Sleeping"@[1] == 'l' && "Stopped"@[1] == 't');
}

/// Degraded-data convention: a missing text field reads "Unknown".
pub open spec fn text_or_unknown(o: Option<String>) -> Seq<char> {
    match o {
        Option::Some(t) => t@,
        Option::None => "Unknown"@,
    }
}

/// Disk name resolution order: the raw disk name if it is non-empty text,
/// else the mount-point text, else "Unknown". A name that is not valid
/// text falls straight to "Unknown".
pub open spec fn disk_name_of(name_text: Option<String>, mount_text: Option<String>) -> Seq<
    char,
> {
    match name_text {
        Option::Some(t) => if t@.len() > 0 {
            t@
        } else {
            text_or_unknown(mount_text)
        },
        Option::None => "Unknown"@,
    }
}

/// What one core record owes its raw row: name and timestamp copied, the
/// raw 0-100 counter read from its text and rounded half-up to exactly
/// two decimal places (the normalization identity: the value is already a
/// percentage of 100).
pub open spec fn cpu_row_matches(c: Cpu, row: CpuRow, ts: Timestamp) -> bool {
    &&& c.name@ == row.name@
    &&& c.usage == pct_text_clamped(row.usage_text@)
    &&& c.timestamp == ts
}

/// What one disk record owes its raw row: the name resolution order, the
/// text fallbacks, the classification table, the guarded byte arithmetic,
/// and plain copies of the rest.
pub open spec fn disk_row_matches(d: Disk, row: DiskRow, ts: Timestamp) -> bool {
    &&& d.name@ == disk_name_of(row.name_text, row.mount_text)
    &&& d.mount_point@ == text_or_unknown(row.mount_text)
    &&& d.file_system@ == text_or_unknown(row.file_system)
    &&& d.disk_type@ == disk_type_label(row.class)
    &&& d.total == row.total
    &&& d.free == row.free
    &&& d.used == used_of(row.total as int, row.free as int)
    &&& d.used_percentage == pct_clamped(d.used as int, row.total as int)
    &&& d.is_removable == row.removable
    &&& d.timestamp == ts
}

/// What one process record owes its raw row: the summed per-core usage is
/// read at ten-thousandths precision and divided by the core count with a
/// single half-up rounding into hundredths; the status runs through the
/// classification table; everything else is a plain copy.
pub open spec fn process_row_matches(p: Process, row: ProcRow, cores: int) -> bool {
    &&& p.name@ == row.name@
    &&& p.pid@ == row.pid_text@
    &&& p.cpu_usage == div_round_half_up(pct_text_tenk_clamped(row.cpu_text@), 100 * cores)
    &&& p.memory_usage == row.memory
    &&& p.status@ == status_label(row.status)
}

/// What one network record owes its raw row: plain copies, plus the
/// shared timestamp.
pub open spec fn network_row_matches(nw: Network, row: NetRow, ts: Timestamp) -> bool {
    &&& nw.name@ == row.name@
    &&& nw.received == row.received
    &&& nw.transmitted == row.transmitted
    &&& nw.timestamp == ts
}

/// The literal every degraded field falls back to.
pub fn unknown_text() -> (s: String)
    ensures
        s@ == "Unknown"@,
{
    String::from_str("Unknown")
}

/// Executable form of `text_or_unknown`.
pub fn take_text_or_unknown(o: Option<String>) -> (s: String)
    ensures
        s@ == text_or_unknown(o),
{
    match o {
        Option::Some(t) => t,
        Option::None => unknown_text(),
    }
}

/// `text_or_unknown` of a borrowed option, copying the text out.
fn read_text_or_unknown(o: &Option<String>) -> (s: String)
    ensures
        s@ == text_or_unknown(*o),
{
    match o {
        Option::Some(t) => String::from_str(t.as_str()),
        Option::None => unknown_text(),
    }
}

/// Executable form of `disk_name_of`.
pub fn resolve_disk_name(name_text: Option<String>, mount_text: &Option<String>) -> (s: String)
    ensures
        s@ == disk_name_of(name_text, *mount_text),
{
    match name_text {
        Option::Some(t) => {
            if !t.as_str().is_empty() {
                t
            } else {
                read_text_or_unknown(mount_text)
            }
        },
        Option::None => unknown_text(),
    }
}

/// Executable form of `disk_type_label`.
pub fn disk_type_text(k: DiskClass) -> (s: String)
    ensures
        s@ == disk_type_label(k),
{
    match k {
        DiskClass::Rotational => String::from_str("HDD"),
        DiskClass::SolidState => String::from_str("SSD"),
        DiskClass::Other => unknown_text(),
    }
}

/// Executable form of `status_label`.
pub fn status_text(k: StatusKind) -> (s: String)
    ensures
        s@ == status_label(k),
{
    match k {
        StatusKind::Running => String::from_str("Running"),
        StatusKind::Sleeping => String::from_str("Sleeping"),
        StatusKind::Stopped => String::from_str("Stopped"),
        StatusKind::Idle => String::from_str("Idle"),
        StatusKind::Zombie => String::from_str("Zombie"),
        StatusKind::Other => unknown_text(),
    }
}

/// Normalizes one memory refresh: `used` is the guarded `total - free`,
/// and the percentage is used against total, in hundredths.
pub fn memory_record(total: u64, free: u64, ts: Timestamp) -> (m: Memory)
    ensures
        m.total == total,
        m.free == free,
        m.used == used_of(total as int, free as int),
        m.used_percentage == pct_clamped(m.used as int, total as int),
        m.timestamp == ts,
{
    let used: u64 = used_bytes(total, free);
    Memory {
        free,
        total,
        used,
        used_percentage: percentage(used, total),
        timestamp: ts,
    }
}

/// Normalizes the swap side of the same memory refresh.
pub fn swap_record(total: u64, free: u64, ts: Timestamp) -> (m: Swap)
    ensures
        m.total == total,
        m.free == free,
        m.used == used_of(total as int, free as int),
        m.used_percentage == pct_clamped(m.used as int, total as int),
        m.timestamp == ts,
{
    let used: u64 = used_bytes(total, free);
    Swap {
        free,
        total,
        used,
        used_percentage: percentage(used, total),
        timestamp: ts,
    }
}

/// Normalizes one disk reading: name resolution, text fallbacks, the
/// classification table, and the guarded byte arithmetic.
pub fn disk_record(row: DiskRow, ts: Timestamp) -> (d: Disk)
    ensures
        disk_row_matches(d, row, ts),
{
    let DiskRow { name_text, mount_text, file_system, class, total, free, removable } = row;
    let name: String = resolve_disk_name(name_text, &mount_text);
    let used: u64 = used_bytes(total, free);
    Disk {
        name,
        free,
        total,
        used,
        used_percentage: percentage(used, total),
        mount_point: take_text_or_unknown(mount_text),
        file_system: take_text_or_unknown(file_system),
        disk_type: disk_type_text(class),
        is_removable: removable,
        timestamp: ts,
    }
}

/// Normalizes one logical core: the raw counter text read into hundredths
/// of a percent, rounded half-up to two decimal places.
pub fn cpu_record(row: CpuRow, ts: Timestamp) -> (c: Cpu)
    ensures
        cpu_row_matches(c, row, ts),
{
    let CpuRow { name, usage_text } = row;
    let usage: u64 = parse_percent_text(usage_text.as_str());
    Cpu { name, usage, timestamp: ts }
}

/// Normalizes the aggregate CPU descriptor; the usage text is read into
/// hundredths of a percent, degrading to 0 when unreadable.
pub fn global_cpu_record(row: GlobalCpuRow, ts: Timestamp) -> (g: GlobalCpu)
    ensures
        g.usage == pct_text_clamped(row.usage_text@),
        g.brand@ == row.brand@,
        g.frequency == row.frequency,
        g.name@ == row.name@,
        g.vendor@ == row.vendor@,
        g.timestamp == ts,
{
    let GlobalCpuRow { usage_text, brand, frequency, name, vendor } = row;
    let usage: u64 = parse_percent_text(usage_text.as_str());
    GlobalCpu { usage, brand, frequency, name, vendor, timestamp: ts }
}

/// Normalizes one process entry: the summed per-core usage is divided by
/// the physical core count (at least 1) and rounded half-up to two
/// decimals in one step, and the status runs through the fixed
/// classification table.
pub fn process_record(row: ProcRow, cores: u64) -> (p: Process)
    requires
        cores >= 1,
    ensures
        process_row_matches(p, row, cores as int),
{
    let ProcRow { name, pid_text, cpu_text, memory, status } = row;
    let raw: u64 = parse_percent_tenk(cpu_text.as_str());
    Process {
        name,
        pid: pid_text,
        cpu_usage: div_rounded_scaled(raw, cores),
        memory_usage: memory,
        status: status_text(status),
    }
}

/// Normalizes one network interface reading.
pub fn network_record(row: NetRow, ts: Timestamp) -> (nw: Network)
    ensures
        network_row_matches(nw, row, ts),
{
    let NetRow { name, received, transmitted } = row;
    Network { name, received, transmitted, timestamp: ts }
}

/// Normalizes the host identity reading: missing strings degrade to
/// "Unknown", a missing core count degrades to 0, rendered in decimal.
pub fn sysinfo_record(
    kernel: Option<String>,
    os: Option<String>,
    host: Option<String>,
    cores: Option<usize>,
    ts: Timestamp,
) -> (r: SysInfo)
    ensures
        r.kernel_version@ == text_or_unknown(kernel),
        r.os_version@ == text_or_unknown(os),
        r.hostname@ == text_or_unknown(host),
        all_digits(r.core_count@),
        r.core_count@.len() >= 1,
        r.core_count@.len() > 1 ==> r.core_count@[0] != '0',
        digits_val(r.core_count@) == (match cores {
            Option::Some(c) => c as int,
            Option::None => 0,
        }),
        r.timestamp == ts,
{
    let n: u64 = match cores {
        Option::Some(c) => c as u64,
        Option::None => 0,
    };
    SysInfo {
        kernel_version: take_text_or_unknown(kernel),
        os_version: take_text_or_unknown(os),
        hostname: take_text_or_unknown(host),
        core_count: decimal_text(n),
        timestamp: ts,
    }
}

/// Normalizes a whole batch of core readings: one record per row read,
/// in the order the rows arrived, each stamped with the same moment.
pub fn cpu_records(rows: Vec<CpuRow>, ts: Timestamp) -> (v: Vec<Cpu>)
    ensures
        v@.len() == rows@.len(),
        forall|j: int| 0 <= j < rows@.len() ==> cpu_row_matches(#[trigger] v@[j], rows@[j], ts),
{
    let ghost rows0 = rows@;
    let mut rows = rows;
    let mut out: Vec<Cpu> = Vec::new();
    proof {
        assert(rows@ =~= rows0.subrange(0, rows0.len() as int));
    }
    while rows.len() > 0
        invariant
            out@.len() + rows@.len() == rows0.len(),
            rows@ == rows0.subrange(out@.len() as int, rows0.len() as int),
            forall|j: int|
                0 <= j < out@.len() ==> cpu_row_matches(#[trigger] out@[j], rows0[j], ts),
        decreases rows.len(),
    {
        let ghost k = out@.len() as int;
        let row = rows.remove(0);
        assert(row == rows0[k]);
        let c = cpu_record(row, ts);
        out.push(c);
        proof {
            assert(rows@ =~= rows0.subrange(out@.len() as int, rows0.len() as int));
        }
    }
    out
}

/// Normalizes a whole batch of disk readings: one record per row read,
/// in the order the rows arrived, each stamped with the same moment.
pub fn disk_records(rows: Vec<DiskRow>, ts: Timestamp) -> (v: Vec<Disk>)
    ensures
        v@.len() == rows@.len(),
        forall|j: int| 0 <= j < rows@.len() ==> disk_row_matches(#[trigger] v@[j], rows@[j], ts),
{
    let ghost rows0 = rows@;
    let mut rows = rows;
    let mut out: Vec<Disk> = Vec::new();
    proof {
        assert(rows@ =~= rows0.subrange(0, rows0.len() as int));
    }
    while rows.len() > 0
        invariant
            out@.len() + rows@.len() == rows0.len(),
            rows@ == rows0.subrange(out@.len() as int, rows0.len() as int),
            forall|j: int|
                0 <= j < out@.len() ==> disk_row_matches(#[trigger] out@[j], rows0[j], ts),
        decreases rows.len(),
    {
        let ghost k = out@.len() as int;
        let row = rows.remove(0);
        assert(row == rows0[k]);
        let d = disk_record(row, ts);
        out.push(d);
        proof {
            assert(rows@ =~= rows0.subrange(out@.len() as int, rows0.len() as int));
        }
    }
    out
}

/// Normalizes a whole batch of process readings: one record per table
/// entry read, in the order the rows arrived, each divided by the same
/// core count. No grouping or aggregation by name happens here.
pub fn process_records(rows: Vec<ProcRow>, cores: u64) -> (v: Vec<Process>)
    requires
        cores >= 1,
    ensures
        v@.len() == rows@.len(),
        forall|j: int|
            0 <= j < rows@.len() ==> process_row_matches(
                #[trigger] v@[j],
                rows@[j],
                cores as int,
            ),
{
    let ghost rows0 = rows@;
    let mut rows = rows;
    let mut out: Vec<Process> = Vec::new();
    proof {
        assert(rows@ =~= rows0.subrange(0, rows0.len() as int));
    }
    while rows.len() > 0
        invariant
            cores >= 1,
            out@.len() + rows@.len() == rows0.len(),
            rows@ == rows0.subrange(out@.len() as int, rows0.len() as int),
            forall|j: int|
                0 <= j < out@.len() ==> process_row_matches(
                    #[trigger] out@[j],
                    rows0[j],
                    cores as int,
                ),
        decreases rows.len(),
    {
        let ghost k = out@.len() as int;
        let row = rows.remove(0);
        assert(row == rows0[k]);
        let p = process_record(row, cores);
        out.push(p);
        proof {
            assert(rows@ =~= rows0.subrange(out@.len() as int, rows0.len() as int));
        }
    }
    out
}

/// Normalizes a whole batch of interface readings: one record per row
/// read, in the order the rows arrived, each stamped with the same
/// moment.
pub fn network_records(rows: Vec<NetRow>, ts: Timestamp) -> (v: Vec<Network>)
    ensures
        v@.len() == rows@.len(),
        forall|j: int|
            0 <= j < rows@.len() ==> network_row_matches(#[trigger] v@[j], rows@[j], ts),
{
    let ghost rows0 = rows@;
    let mut rows = rows;
    let mut out: Vec<Network> = Vec::new();
    proof {
        assert(rows@ =~= rows0.subrange(0, rows0.len() as int));
    }
    while rows.len() > 0
        invariant
            out@.len() + rows@.len() == rows0.len(),
            rows@ == rows0.subrange(out@.len() as int, rows0.len() as int),
            forall|j: int|
                0 <= j < out@.len() ==> network_row_matches(#[trigger] out@[j], rows0[j], ts),
        decreases rows.len(),
    {
        let ghost k = out@.len() as int;
        let row = rows.remove(0);
        assert(row == rows0[k]);
        let nw = network_record(row, ts);
        out.push(nw);
        proof {
            assert(rows@ =~= rows0.subrange(out@.len() as int, rows0.len() as int));
        }
    }
    out
}

} // verus!
