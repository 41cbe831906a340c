use vstd::prelude::*;

verus! {

use crate::Timestamp;

/// A memory snapshot in bytes. `used_percentage` is in hundredths of a
/// percent (two fixed decimal places), as everywhere in this crate.
#[derive(Clone, Debug, PartialEq)]
pub struct Memory {
    pub free: u64,
    pub total: u64,
    pub used: u64,
    pub used_percentage: u64,
    pub timestamp: Timestamp,
}

pub trait MemoryTrait {
    fn get_memory(&mut self) -> Memory;
}

/// The aggregate CPU descriptor. `usage` is in hundredths of a percent.
#[derive(Clone, Debug, PartialEq)]
pub struct GlobalCpu {
    pub usage: u64,
    pub brand: String,
    pub frequency: u64,
    pub name: String,
    pub vendor: String,
    pub timestamp: Timestamp,
}

pub trait GlobalCpuTrait {
    fn get_global_cpu(&mut self) -> GlobalCpu;
}

/// One logical core. `usage` is in hundredths of a percent.
#[derive(Clone, Debug, PartialEq)]
pub struct Cpu {
    pub name: String,
    pub usage: u64,
    pub timestamp: Timestamp,
}

pub trait CpuTrait {
    fn get_cpus(&mut self) -> Vec<Cpu>;
}

/// A swap snapshot in bytes; same shape and conventions as `Memory`.
#[derive(Clone, Debug, PartialEq)]
pub struct Swap {
    pub free: u64,
    pub total: u64,
    pub used: u64,
    pub used_percentage: u64,
    pub timestamp: Timestamp,
}

pub trait SwapTrait {
    fn get_swap(&mut self) -> Swap;
}

/// Host identity; every string degrades to "Unknown" when the operating
/// system does not report it, and `core_count` is a decimal string ("0"
/// when the physical core count is unknown).
#[derive(Clone, Debug, PartialEq)]
pub struct SysInfo {
    pub kernel_version: String,
    pub os_version: String,
    pub hostname: String,
    pub core_count: String,
    pub timestamp: Timestamp,
}

pub trait SystemInformationTrait {
    fn get_system_information(&mut self) -> SysInfo;
}

/// Cumulative traffic counters of one network interface.
#[derive(Clone, Debug, PartialEq)]
pub struct Network {
    pub name: String,
    pub received: u64,
    pub transmitted: u64,
    pub timestamp: Timestamp,
}

pub trait NetworkTrait {
    fn get_networks(&mut self) -> Vec<Network>;
}

/// One mounted volume. `used` is always `total - free` (guarded against
/// underflow); `used_percentage` is in hundredths of a percent;
/// `disk_type` is one of "HDD", "SSD" or "Unknown".
#[derive(Clone, Debug, PartialEq)]
pub struct Disk {
    pub name: String,
    pub free: u64,
    pub total: u64,
    pub used: u64,
    pub used_percentage: u64,
    pub mount_point: String,
    pub file_system: String,
    pub disk_type: String,
    pub is_removable: bool,
    pub timestamp: Timestamp,
}

pub trait DisksTrait {
    fn get_disks(&mut self) -> Vec<Disk>;
}

/// One process from the last process-table refresh. `cpu_usage` is in
/// hundredths of a percent, already divided by the physical core count;
/// `status` is one of the labels of `StatusKind`.
#[derive(Clone, Debug, PartialEq)]
pub struct Process {
    pub name: String,
    pub pid: String,
    pub cpu_usage: u64,
    pub memory_usage: u64,
    pub status: String,
}

pub trait ProcessesTrait {
    fn get_processes(&mut self) -> Vec<Process>;
    fn kill_process(&mut self, pid: &str) -> bool;
}

/// What the operating system reports a disk's hardware to be, reduced to
/// the three classes the records distinguish.
#[derive(Clone, Copy, Debug, PartialEq, Eq, Structural)]
pub enum DiskClass {
    Rotational,
    SolidState,
    Other,
}

/// What the operating system reports a process to be doing, reduced to the
/// classes the records distinguish.
#[derive(Clone, Copy, Debug, PartialEq, Eq, Structural)]
pub enum StatusKind {
    Running,
    Sleeping,
    Stopped,
    Idle,
    Zombie,
    Other,
}

} // verus!
