//! Object-manager ABI records (`repr(C)` layouts shared with user space).

use vstd::prelude::*;

verus! {

/// Reader and writer fds of a new pipe.
pub struct ObPipeFds {
    pub reader_fd: u64,
    pub writer_fd: u64,
}

/// Basic information about any object.
pub struct ObBasicInfo {
    pub obj_type: u32,
    pub refcount: u32,
    pub name: [u8; 32],
}

/// Information about a file object.
pub struct ObFileInfo {
    pub size: u64,
    pub drive: u8,
    pub inode: u32,
    pub padding: [u8; 3],
}

/// Information about a process object. `state`: 0 Ready, 1 Running,
/// 2 Blocked, 3 Terminated.
pub struct ObProcessInfo {
    pub pid: u32,
    pub parent_pid: u32,
    pub priority: u8,
    pub thread_count: u32,
    pub state: u8,
    pub padding: [u8; 2],
}

/// Information about a pipe object.
pub struct ObPipeInfo {
    pub capacity: u32,
    pub read_refs: u32,
    pub write_refs: u32,
}

/// Information about a thread object.
pub struct ObThreadInfo {
    pub tid: u32,
    pub pid: u32,
    pub state: u8,
    pub priority: u8,
    pub padding: [u8; 2],
}

/// Version of the statistics snapshot layout.
pub const STATS_VERSION: u32 = 1;

/// Size of `StatsHeader`.
pub const STATS_HEADER_SIZE: usize = 16;

/// Size of `CpuStatsEntry`.
pub const CPU_STATS_ENTRY_SIZE: usize = 40;

/// Size of `ThreadStatsEntry`.
pub const THREAD_STATS_ENTRY_SIZE: usize = 24;

/// Header of a statistics snapshot: objects available (`total`), objects
/// copied (`returned`, less than `total` when the buffer was too small),
/// and the size of one entry.
#[derive(Debug, Clone, Copy, PartialEq, Eq, Structural)]
pub struct StatsHeader {
    pub version: u32,
    pub total: u32,
    pub returned: u32,
    pub entry_size: u32,
}

/// Per-CPU counters. `online` is 0 or 1.
#[derive(Debug, Clone, Copy)]
pub struct CpuStatsEntry {
    pub interrupt_count: u64,
    pub context_switch_count: u64,
    pub timer_tick_count: u64,
    pub cpu_id: u32,
    pub apic_id: u32,
    pub online: u8,
    pub _pad: [u8; 7],
}

/// Per-thread counters; `cpu_id` is the CPU the thread is queued or
/// running on.
#[derive(Debug, Clone, Copy)]
pub struct ThreadStatsEntry {
    pub tid: u32,
    pub pid: u32,
    pub cpu_id: u32,
    pub priority: u8,
    pub state: u8,
    pub _pad: [u8; 2],
    pub cpu_ticks: u64,
}

/// Information about a device object.
pub struct ObDeviceInfo {
    pub device_id: u32,
    pub reserved: u32,
}

/// Wall-clock date and time.
pub struct SysDateTime {
    pub second: u8,
    pub minute: u8,
    pub hour: u8,
    pub day: u8,
    pub month: u8,
    pub year: u8,
    pub valid: u8,
}

/// Information about a drive.
pub struct DriveInfoRaw {
    pub letter: u8,
    pub present: u8,
    pub fs_type: [u8; 16],
    pub label: [u8; 32],
    pub total_sectors: u64,
}

/// Information about a driver.
pub struct DriverInfoRaw {
    pub id: u32,
    pub state: u8,
    pub category: u8,
    pub driver_type: u8,
    pub api_version: u16,
    pub abi_min: u16,
    pub abi_target: u16,
    pub abi_max: u16,
    pub last_error: u32,
    pub caps: u64,
    pub isolation_mode: u8,
    pub events_received: u64,
    pub tick_count: u64,
    pub registered_at_tick: u64,
    pub name: [u8; 8],
}

} // verus!
