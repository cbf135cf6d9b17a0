//! SMP statistics snapshots: `[StatsHeader][Entry; returned]`, truncated
//! (never silently) to what the caller's buffer holds.

use vstd::prelude::*;
use crate::syscall::{err_to_u64, spec_err_to_u64, SyscallError};
use crate::syscall::ob::types::{
    CpuStatsEntry, StatsHeader, CPU_STATS_ENTRY_SIZE, STATS_HEADER_SIZE, STATS_VERSION,
    THREAD_STATS_ENTRY_SIZE,
};

verus! {

/// Most threads captured in one thread snapshot.
pub const THREAD_STATS_MAX: usize = 128;

/// The state a process reports from its threads: 1 Running if one runs,
/// else 0 Ready if one is ready, else 2 Blocked if any is live, else 3
/// Terminated.
pub open spec fn spec_process_state(any_live: bool, any_running: bool, any_ready: bool) -> u8 {
    if !any_live {
        3
    } else if any_running {
        1
    } else if any_ready {
        0
    } else {
        2
    }
}

/// Aggregate a process's thread states into the process state code.
pub fn process_state_aggregate(any_live: bool, any_running: bool, any_ready: bool) -> (s: u8)
    ensures
        s == spec_process_state(any_live, any_running, any_ready),
{
    if !any_live {
        3
    } else if any_running {
        1
    } else if any_ready {
        0
    } else {
        2
    }
}

/// A snapshot plan: the header and the number of bytes written.
#[derive(Debug, Clone, Copy, PartialEq, Eq, Structural)]
pub struct SnapshotPlan {
    pub header: StatsHeader,
    pub bytes: u64,
}

/// Plan a CPU snapshot into a buffer of `buf_size` bytes with `cpu_count`
/// CPUs online (clamped to 1..=`max_cpus`): as many entries as fit, never
/// more than the CPUs online. A buffer smaller than the header is refused.
pub fn snapshot_cpu_stats(buf_size: usize, cpu_count: u32, max_cpus: u32) -> (r: Result<SnapshotPlan, u64>)
    requires
        max_cpus >= 1,
    ensures
        buf_size < STATS_HEADER_SIZE ==> r == Err::<SnapshotPlan, u64>(spec_err_to_u64(SyscallError::Inval)),
        buf_size >= STATS_HEADER_SIZE ==> (r matches Ok(p) && {
            let total = if cpu_count < 1 { 1 } else if cpu_count > max_cpus { max_cpus } else { cpu_count };
            let cap = (buf_size - STATS_HEADER_SIZE) / CPU_STATS_ENTRY_SIZE as int;
            let returned = if cap < total { cap } else { total as int };
            &&& p.header == (StatsHeader {
                version: STATS_VERSION,
                total,
                returned: returned as u32,
                entry_size: CPU_STATS_ENTRY_SIZE as u32,
            })
            &&& p.bytes == STATS_HEADER_SIZE + returned * CPU_STATS_ENTRY_SIZE
        }),
{
    if buf_size < STATS_HEADER_SIZE {
        return Err(err_to_u64(SyscallError::Inval));
    }
    let total = if cpu_count < 1 {
        1
    } else if cpu_count > max_cpus {
        max_cpus
    } else {
        cpu_count
    };
    let cap = (buf_size - STATS_HEADER_SIZE) / CPU_STATS_ENTRY_SIZE;
    let returned = if cap < total as usize {
        cap
    } else {
        total as usize
    };
    let header = StatsHeader {
        version: STATS_VERSION,
        total,
        returned: returned as u32,
        entry_size: CPU_STATS_ENTRY_SIZE as u32,
    };
    Ok(SnapshotPlan {
        header,
        bytes: (STATS_HEADER_SIZE + returned * CPU_STATS_ENTRY_SIZE) as u64,
    })
}

/// Plan a thread snapshot into a buffer of `buf_size` bytes when `total`
/// threads exist and `staged` (at most `THREAD_STATS_MAX`) were captured:
/// as many captured entries as fit. `total` is always reported, so a caller
/// sees when the snapshot was truncated.
pub fn snapshot_thread_stats(buf_size: usize, total: u32, staged: usize) -> (r: Result<SnapshotPlan, u64>)
    requires
        staged <= THREAD_STATS_MAX,
        staged <= total,
    ensures
        buf_size < STATS_HEADER_SIZE ==> r == Err::<SnapshotPlan, u64>(spec_err_to_u64(SyscallError::Inval)),
        buf_size >= STATS_HEADER_SIZE ==> (r matches Ok(p) && {
            let cap = (buf_size - STATS_HEADER_SIZE) / THREAD_STATS_ENTRY_SIZE as int;
            let copied = if staged < cap { staged as int } else { cap };
            &&& p.header == (StatsHeader {
                version: STATS_VERSION,
                total,
                returned: copied as u32,
                entry_size: THREAD_STATS_ENTRY_SIZE as u32,
            })
            &&& p.bytes == STATS_HEADER_SIZE + copied * THREAD_STATS_ENTRY_SIZE
            &&& p.header.returned <= p.header.total
        }),
{
    if buf_size < STATS_HEADER_SIZE {
        return Err(err_to_u64(SyscallError::Inval));
    }
    let cap = (buf_size - STATS_HEADER_SIZE) / THREAD_STATS_ENTRY_SIZE;
    let copied = if staged < cap {
        staged
    } else {
        cap
    };
    let header = StatsHeader {
        version: STATS_VERSION,
        total,
        returned: copied as u32,
        entry_size: THREAD_STATS_ENTRY_SIZE as u32,
    };
    Ok(SnapshotPlan {
        header,
        bytes: (STATS_HEADER_SIZE + copied * THREAD_STATS_ENTRY_SIZE) as u64,
    })
}

/// The raw counters of one CPU's control block.
#[derive(Debug, Clone, Copy, PartialEq, Eq, Structural)]
pub struct KprcbCounters {
    pub interrupt_count: u64,
    pub context_switch_count: u64,
    pub timer_tick_count: u64,
    pub cpu_id: u32,
    pub apic_id: u32,
}

/// The statistics entry of CPU `cpu`: identity and counters come from its
/// control block; without one (never allocated) the entry has the index as
/// its id and zero counters. It is online when the caller says so and the
/// index is below `total`.
pub fn read_cpu_stats(cpu: u32, online: bool, total: u32, kprcb: Option<KprcbCounters>) -> (e: CpuStatsEntry)
    ensures
        e.online == (if online && cpu < total { 1u8 } else { 0u8 }),
        kprcb is None ==> e.interrupt_count == 0 && e.context_switch_count == 0
            && e.timer_tick_count == 0 && e.cpu_id == cpu && e.apic_id == 0,
        kprcb matches Some(k) ==> e.interrupt_count == k.interrupt_count && e.context_switch_count
            == k.context_switch_count && e.timer_tick_count == k.timer_tick_count && e.cpu_id
            == k.cpu_id && e.apic_id == k.apic_id,
{
    let on: u8 = if online && cpu < total {
        1
    } else {
        0
    };
    match kprcb {
        None => CpuStatsEntry {
            interrupt_count: 0,
            context_switch_count: 0,
            timer_tick_count: 0,
            cpu_id: cpu,
            apic_id: 0,
            online: on,
            _pad: [0; 7],
        },
        Some(k) => CpuStatsEntry {
            interrupt_count: k.interrupt_count,
            context_switch_count: k.context_switch_count,
            timer_tick_count: k.timer_tick_count,
            cpu_id: k.cpu_id,
            apic_id: k.apic_id,
            online: on,
            _pad: [0; 7],
        },
    }
}

} // verus!
