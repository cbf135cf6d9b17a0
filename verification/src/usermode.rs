//! Ring-3 process launch bookkeeping: the pid the boot thread waits for,
//! the heap-slot index of a process heap, the initial user stack, and the
//! zombie back-pressure rule of spawning.

use vstd::prelude::*;

verus! {

/// Size of one user slot.
pub const USER_SLOT_SIZE: u64 = 0x20000;

/// Largest binary image in a user slot.
pub const MAX_BINARY_SIZE: u64 = 0x10000;

/// User stack size in a slot.
pub const USER_STACK_SIZE: u64 = 0x10000;

/// Zombie-queue length from which spawning first tries to reap.
pub const ZOMBIE_QUEUE_LIMIT: usize = 64;

/// The pid whose exit returns control to the boot thread (0: none).
#[derive(Debug, Clone, Copy, PartialEq, Eq, Structural)]
pub struct WaitPid {
    pub pid: u32,
}

impl WaitPid {
    /// No pid waited for.
    pub fn new() -> (w: Self)
        ensures
            w.pid == 0,
    {
        WaitPid { pid: 0 }
    }
}

/// The pid waited for.
pub fn current_wait_pid(w: &WaitPid) -> (pid: u32)
    ensures
        pid == w.pid,
{
    w.pid
}

/// Wait for `pid`.
pub fn set_wait_pid(w: &mut WaitPid, pid: u32)
    ensures
        final(w).pid == pid,
{
    w.pid = pid;
}

/// Stop waiting.
pub fn clear_wait_pid(w: &mut WaitPid)
    ensures
        final(w).pid == 0,
{
    w.pid = 0;
}

/// The initial user stack pointer of a process in user slot `slot`: the
/// top of the stack that follows the binary in the slot.
pub fn user_stack_top(user_base: u64, slot: u8) -> (sp: u64)
    requires
        user_base + 256 * USER_SLOT_SIZE <= u64::MAX,
    ensures
        sp == user_base + slot * USER_SLOT_SIZE + MAX_BINARY_SIZE + USER_STACK_SIZE,
{
    user_base + slot as u64 * USER_SLOT_SIZE + MAX_BINARY_SIZE + USER_STACK_SIZE
}

/// The heap-slot index of a process heap at `heap_base` in the heap region
/// starting at `region_base` with slots of `heap_size` bytes; `None` when
/// the process has no heap (`heap_base == 0`).
pub fn heap_slot_index(heap_base: u64, region_base: u64, heap_size: u64) -> (idx: Option<u8>)
    requires
        heap_size > 0,
        heap_base != 0 ==> heap_base >= region_base,
    ensures
        heap_base == 0 ==> idx is None,
        heap_base != 0 ==> idx == Some((((heap_base - region_base) / heap_size as int) % 256) as u8),
{
    if heap_base == 0 {
        return None;
    }
    let slot = (heap_base - region_base) / heap_size;
    Some((slot % 256) as u8)
}

/// Whether spawning must fail for zombie back-pressure: with the zombie
/// queue at its limit, a synchronous reap is tried first; the spawn is
/// refused only if that reaped nothing and the queue is still
/// back-pressured.
pub fn spawn_blocked_by_zombies(zombie_queue_len: usize, reclaimed: bool, backpressured: bool) -> (b: bool)
    ensures
        b == (zombie_queue_len >= ZOMBIE_QUEUE_LIMIT && !reclaimed && backpressured),
{
    zombie_queue_len >= ZOMBIE_QUEUE_LIMIT && !reclaimed && backpressured
}

/// A thread as `wait_for_process` sees it when it looks for the entry frame
/// of the process it launches.
#[derive(Debug, Clone, Copy, PartialEq, Eq, Structural)]
pub struct LaunchThread {
    pub pid: u32,
    pub tid: u32,
    /// Saved instruction pointer: the process entry point.
    pub rip: u64,
    pub rsp: u64,
    pub kernel_stack_top: u64,
}

/// Where the boot thread enters ring 3 for a process.
#[derive(Debug, Clone, Copy, PartialEq, Eq, Structural)]
pub struct LaunchFrame {
    /// The thread (position in the list) that becomes current.
    pub index: usize,
    pub entry: u64,
    pub user_stack_top: u64,
    pub kernel_stack_top: u64,
}

/// A thread of process `pid` other than the idle/boot thread.
pub open spec fn launchable(t: LaunchThread, pid: u32) -> bool {
    t.pid == pid && t.tid > 0
}

/// `i` is the first launchable thread of `pid` in `ts`.
pub open spec fn first_launchable(ts: Seq<LaunchThread>, pid: u32, i: int) -> bool {
    &&& 0 <= i < ts.len()
    &&& launchable(ts[i], pid)
    &&& forall|j: int| 0 <= j < i ==> !launchable(#[trigger] ts[j], pid)
}

/// The entry frame for launching process `pid`: its first thread other than
/// thread 0, entered at its saved instruction pointer, on the stack of the
/// process's user slot (`user_slot`, when the process has one) or else the
/// thread's saved stack pointer. `None` when no such thread exists or its
/// entry point is 0: then nothing is launched.
pub fn launch_frame(threads: &[LaunchThread], pid: u32, user_slot: Option<u8>, user_base: u64) -> (r:
    Option<LaunchFrame>)
    requires
        user_base + 256 * USER_SLOT_SIZE <= u64::MAX,
    ensures
        r matches Some(f) ==> {
            &&& first_launchable(threads@, pid, f.index as int)
            &&& f.entry == threads@[f.index as int].rip
            &&& f.entry != 0
            &&& f.kernel_stack_top == threads@[f.index as int].kernel_stack_top
            &&& f.user_stack_top == match user_slot {
                Some(slot) => user_base + slot * USER_SLOT_SIZE + MAX_BINARY_SIZE
                    + USER_STACK_SIZE,
                None => threads@[f.index as int].rsp as int,
            }
        },
        r is None <==> (forall|j: int| 0 <= j < threads@.len() ==> !launchable(#[trigger] threads@[j], pid))
            || (exists|i: int| first_launchable(threads@, pid, i) && threads@[i].rip == 0),
{
    let mut i: usize = 0;
    while i < threads.len()
        invariant
            user_base + 256 * USER_SLOT_SIZE <= u64::MAX,
            i <= threads@.len(),
            forall|j: int| 0 <= j < i ==> !launchable(#[trigger] threads@[j], pid),
        decreases threads@.len() - i,
    {
        let t = threads[i];
        if t.pid == pid && t.tid > 0 {
            assert(first_launchable(threads@, pid, i as int));
            if t.rip == 0 {
                return None;
            }
            let sp = match user_slot {
                Some(slot) => user_stack_top(user_base, slot),
                None => t.rsp,
            };
            proof {
                assert forall|k: int| first_launchable(threads@, pid, k) implies k == i by {
                    if k < i {
                        assert(!launchable(threads@[k], pid));
                    } else if k > i {
                        assert(!launchable(threads@[i as int], pid));
                    }
                }
            }
            return Some(
                LaunchFrame {
                    index: i,
                    entry: t.rip,
                    user_stack_top: sp,
                    kernel_stack_top: t.kernel_stack_top,
                },
            );
        }
        i = i + 1;
    }
    None
}

} // verus!
