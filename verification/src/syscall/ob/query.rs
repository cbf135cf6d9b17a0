//! The records of the object query-info syscall that are computed rather
//! than copied: a process's aggregated state, its first thread, an
//! object's fixed-size name field, and how much of a name fits the buffer.

use vstd::prelude::*;
use crate::syscall::ob::stats::spec_process_state;
use crate::syscall::ob::types::{DriveInfoRaw, ObProcessInfo, ObThreadInfo};
use crate::syscall::handlers::HandleKind;
use crate::vfs::kdrive::ThreadRunState;

verus! {

/// What the scheduler holds of one thread.
#[derive(Clone, Copy, Debug, PartialEq, Eq, Structural)]
pub struct ThreadSample {
    pub tid: u32,
    pub pid: u32,
    pub priority: u8,
    pub state: ThreadRunState,
}

/// The state code of a thread: 0 Ready, 1 Running, 2 Blocked, 3 Terminated.
pub open spec fn spec_state_code(s: ThreadRunState) -> u8 {
    match s {
        ThreadRunState::Ready => 0,
        ThreadRunState::Running => 1,
        ThreadRunState::Blocked => 2,
        ThreadRunState::Terminated => 3,
    }
}

/// The state code of a thread (see `spec_state_code`).
pub fn state_code(s: ThreadRunState) -> (c: u8)
    ensures
        c == spec_state_code(s),
{
    match s {
        ThreadRunState::Ready => 0,
        ThreadRunState::Running => 1,
        ThreadRunState::Blocked => 2,
        ThreadRunState::Terminated => 3,
    }
}

/// Index of the first thread of process `pid` (`ts.len()` if none).
pub open spec fn first_thread_of(ts: Seq<ThreadSample>, pid: u32) -> int
    decreases ts.len(),
{
    if ts.len() == 0 {
        0
    } else if ts[0].pid == pid {
        0
    } else {
        1 + first_thread_of(ts.drop_first(), pid)
    }
}

proof fn lemma_first_thread_of(ts: Seq<ThreadSample>, pid: u32)
    ensures
        0 <= first_thread_of(ts, pid) <= ts.len(),
        first_thread_of(ts, pid) < ts.len() ==> ts[first_thread_of(ts, pid)].pid == pid,
        forall|j: int| 0 <= j < first_thread_of(ts, pid) ==> #[trigger] ts[j].pid != pid,
    decreases ts.len(),
{
    if ts.len() > 0 && ts[0].pid != pid {
        lemma_first_thread_of(ts.drop_first(), pid);
        assert forall|j: int| 0 <= j < first_thread_of(ts, pid) implies #[trigger] ts[j].pid != pid by {
            if j > 0 {
                assert(ts[j] == ts.drop_first()[j - 1]);
            }
        }
    }
}

/// Whether some thread of process `pid` among the first `n` is in `state`.
pub open spec fn some_thread_in(ts: Seq<ThreadSample>, n: int, pid: u32, state: ThreadRunState) -> bool {
    exists|j: int| 0 <= j < n && #[trigger] ts[j].pid == pid && ts[j].state == state
}

/// The process record of process `pid`: its parent and thread count when
/// the process table has it (`record`), the priority of its first thread
/// (2 without threads), and its threads' aggregated state; all zero but the
/// pid when the table has no such process.
pub open spec fn spec_process_info(pid: u32, record: Option<(u32, u32)>, ts: Seq<ThreadSample>) -> (u32, u32, u8, u32, u8) {
    match record {
        None => (pid, 0, 0, 0, 0),
        Some((parent, count)) => {
            let f = first_thread_of(ts, pid);
            let found = f < ts.len();
            (
                pid,
                parent,
                if found {
                    ts[f].priority
                } else {
                    2u8
                },
                count,
                spec_process_state(
                    found,
                    some_thread_in(ts, ts.len() as int, pid, ThreadRunState::Running),
                    some_thread_in(ts, ts.len() as int, pid, ThreadRunState::Ready),
                ),
            )
        },
    }
}

/// The fields of a process record, in ABI order.
pub open spec fn process_fields(p: ObProcessInfo) -> (u32, u32, u8, u32, u8) {
    (p.pid, p.parent_pid, p.priority, p.thread_count, p.state)
}

/// Builds the process record of process `pid` (see `spec_process_info`).
pub fn process_info(pid: u32, record: Option<(u32, u32)>, threads: &[ThreadSample]) -> (r: ObProcessInfo)
    ensures
        process_fields(r) == spec_process_info(pid, record, threads@),
        r.padding@ == seq![0u8, 0u8],
{
    let (parent, count) = match record {
        None => {
            return ObProcessInfo {
                pid,
                parent_pid: 0,
                priority: 0,
                thread_count: 0,
                state: 0,
                padding: [0u8, 0u8],
            };
        },
        Some(r) => r,
    };
    proof {
        lemma_first_thread_of(threads@, pid);
    }
    let mut prio: u8 = 2;
    let mut found = false;
    let mut any_running = false;
    let mut any_ready = false;
    let mut i: usize = 0;
    while i < threads.len()
        invariant
            i <= threads@.len(),
            0 <= first_thread_of(threads@, pid) <= threads@.len(),
            first_thread_of(threads@, pid) < threads@.len() ==> threads@[first_thread_of(
                threads@,
                pid,
            )].pid == pid,
            forall|j: int|
                0 <= j < first_thread_of(threads@, pid) ==> #[trigger] threads@[j].pid != pid,
            found == (first_thread_of(threads@, pid) < i),
            found ==> prio == threads@[first_thread_of(threads@, pid)].priority,
            !found ==> prio == 2,
            any_running == some_thread_in(threads@, i as int, pid, ThreadRunState::Running),
            any_ready == some_thread_in(threads@, i as int, pid, ThreadRunState::Ready),
        decreases threads@.len() - i,
    {
        let t = threads[i];
        if t.pid == pid {
            if !found {
                proof {
                    let f = first_thread_of(threads@, pid);
                    assert(threads@[i as int].pid == pid);
                    if f > i {
                        assert(threads@[i as int].pid != pid);
                    }
                }
                prio = t.priority;
                found = true;
            }
            match t.state {
                ThreadRunState::Running => {
                    any_running = true;
                },
                ThreadRunState::Ready => {
                    any_ready = true;
                },
                _ => {},
            }
        }
        proof {
            assert(threads@[i as int] == t);
        }
        i = i + 1;
    }
    ObProcessInfo {
        pid,
        parent_pid: parent,
        priority: prio,
        thread_count: count,
        state: crate::syscall::ob::stats::process_state_aggregate(found, any_running, any_ready),
        padding: [0u8, 0u8],
    }
}

/// The thread record of process `pid`: its first thread's id, state code
/// and priority, all zero but the pid when it has no thread.
pub open spec fn spec_thread_info(pid: u32, ts: Seq<ThreadSample>) -> (u32, u32, u8, u8) {
    let f = first_thread_of(ts, pid);
    if f < ts.len() {
        (ts[f].tid, pid, spec_state_code(ts[f].state), ts[f].priority)
    } else {
        (0, pid, 0, 0)
    }
}

/// The fields of a thread record, in ABI order.
pub open spec fn thread_fields(t: ObThreadInfo) -> (u32, u32, u8, u8) {
    (t.tid, t.pid, t.state, t.priority)
}

/// Builds the thread record of process `pid` (see `spec_thread_info`).
pub fn thread_info(pid: u32, threads: &[ThreadSample]) -> (r: ObThreadInfo)
    ensures
        thread_fields(r) == spec_thread_info(pid, threads@),
        r.padding@ == seq![0u8, 0u8],
{
    proof {
        lemma_first_thread_of(threads@, pid);
    }
    let mut i: usize = 0;
    while i < threads.len()
        invariant
            i <= threads@.len(),
            forall|j: int| 0 <= j < i ==> #[trigger] threads@[j].pid != pid,
            0 <= first_thread_of(threads@, pid) <= threads@.len(),
            first_thread_of(threads@, pid) < threads@.len() ==> threads@[first_thread_of(
                threads@,
                pid,
            )].pid == pid,
            forall|j: int|
                0 <= j < first_thread_of(threads@, pid) ==> #[trigger] threads@[j].pid != pid,
        decreases threads@.len() - i,
    {
        let t = threads[i];
        if t.pid == pid {
            proof {
                let f = first_thread_of(threads@, pid);
                assert(threads@[i as int].pid == pid);
                if f < i {
                    assert(threads@[f].pid == pid);
                }
            }
            return ObThreadInfo {
                tid: t.tid,
                pid,
                state: state_code(t.state),
                priority: t.priority,
                padding: [0u8, 0u8],
            };
        }
        i = i + 1;
    }
    proof {
        let f = first_thread_of(threads@, pid);
        if f < i {
            assert(threads@[f].pid == pid);
        }
    }
    ObThreadInfo { tid: 0, pid, state: 0, priority: 0, padding: [0u8, 0u8] }
}

/// The name reported for a handle that has no object: the standard
/// streams by name, anything else `HANDLE`.
pub open spec fn spec_std_handle_name(kind: HandleKind) -> Seq<u8> {
    match kind {
        HandleKind::Stdin => seq![83u8, 84, 68, 73, 78],
        HandleKind::Stdout => seq![83u8, 84, 68, 79, 85, 84],
        HandleKind::Stderr => seq![83u8, 84, 68, 69, 82, 82],
        _ => seq![72u8, 65, 78, 68, 76, 69],
    }
}

/// The name reported for a handle that has no object (see
/// `spec_std_handle_name`).
pub fn std_handle_name(kind: HandleKind) -> (r: Vec<u8>)
    ensures
        r@ == spec_std_handle_name(kind),
{
    let r = match kind {
        HandleKind::Stdin => vec![83u8, 84, 68, 73, 78],
        HandleKind::Stdout => vec![83u8, 84, 68, 79, 85, 84],
        HandleKind::Stderr => vec![83u8, 84, 68, 69, 82, 82],
        _ => vec![72u8, 65, 78, 68, 76, 69],
    };
    assert(r@ =~= spec_std_handle_name(kind));
    r
}

/// The 32-byte name field of a basic record: the name up to its first NUL,
/// at most 31 bytes, then zeros.
pub open spec fn spec_name_field(src: Seq<u8>) -> Seq<u8> {
    let n = crate::syscall::ob::set::first_nul(src);
    let len = if n < 31 {
        n
    } else {
        31
    };
    Seq::new(32, |k: int| if k < len { src[k] } else { 0u8 })
}

/// Fills the 32-byte name field of a basic record (see `spec_name_field`).
pub fn name_field(src: &[u8]) -> (r: Vec<u8>)
    ensures
        r@ == spec_name_field(src@),
{
    proof {
        crate::syscall::ob::set::lemma_first_nul(src@);
    }
    let name = crate::syscall::ob::set::until_nul(src);
    let len = if name.len() < 31 {
        name.len()
    } else {
        31
    };
    let mut r: Vec<u8> = Vec::new();
    let mut k: usize = 0;
    while k < 32
        invariant
            name@ == src@.subrange(0, crate::syscall::ob::set::first_nul(src@)),
            0 <= crate::syscall::ob::set::first_nul(src@) <= src@.len(),
            len <= name@.len(),
            len <= 31,
            len == (if crate::syscall::ob::set::first_nul(src@) < 31 {
                crate::syscall::ob::set::first_nul(src@)
            } else {
                31
            }),
            k <= 32,
            r@.len() == k,
            forall|j: int| 0 <= j < k ==> #[trigger] r@[j] == (if j < len { src@[j] } else { 0u8 }),
        decreases 32 - k,
    {
        if k < len {
            r.push(name[k]);
        } else {
            r.push(0u8);
        }
        k = k + 1;
    }
    assert(r@ =~= spec_name_field(src@));
    r
}

/// The least of three integers.
pub open spec fn min3(a: int, b: int, c: int) -> int {
    let m = if a < b {
        a
    } else {
        b
    };
    if m < c {
        m
    } else {
        c
    }
}

/// How many bytes of an object name a name query copies into a buffer of
/// `buf_size` bytes: room is left for the NUL, and at most 255 are copied.
pub fn name_copy_len(name_len: usize, buf_size: usize) -> (n: usize)
    requires
        buf_size >= 1,
    ensures
        n == min3(name_len as int, buf_size - 1, 255),
{
    let mut n: usize = name_len;
    if n > buf_size - 1 {
        n = buf_size - 1;
    }
    if n > 255 {
        n = 255;
    }
    n
}

/// Size of one drive record (`repr(C)`: 50 bytes of fields, the sector
/// count aligned to 8).
pub const DRIVE_INFO_SIZE: usize = 64;

/// Number of drive letters.
pub const DRIVE_LETTERS: usize = 26;

/// What the volume layer reports of a mounted drive.
pub struct DriveSummary {
    /// The filesystem's type name.
    pub fs_type: Vec<u8>,
    /// The volume label.
    pub label: Vec<u8>,
    pub total_sectors: u64,
}

/// The first `keep` bytes of `src` (fewer if it is shorter), zero-padded to
/// `n` bytes.
pub open spec fn padded(src: Seq<u8>, keep: int, n: int) -> Seq<u8> {
    Seq::new(n as nat, |k: int| if k < keep && k < src.len() { src[k] } else { 0u8 })
}

/// The drive indices that have a drive, in order.
pub open spec fn present_drives(ds: Seq<Option<DriveSummary>>) -> Seq<int>
    decreases ds.len(),
{
    if ds.len() == 0 {
        Seq::empty()
    } else if ds.last() is Some {
        present_drives(ds.drop_last()).push(ds.len() - 1)
    } else {
        present_drives(ds.drop_last())
    }
}

/// The drives among the 26 letters.
pub open spec fn lettered_drives(ds: Seq<Option<DriveSummary>>) -> Seq<int> {
    present_drives(ds.subrange(0, if ds.len() < DRIVE_LETTERS { ds.len() as int } else { DRIVE_LETTERS as int }))
}

/// Record `r` describes drive `i`.
pub open spec fn describes_drive(r: DriveInfoRaw, i: int, d: DriveSummary) -> bool {
    &&& r.letter == 65 + i
    &&& r.present == 1
    &&& r.fs_type@ == padded(d.fs_type@, 15, 16)
    &&& r.label@ == padded(d.label@, 31, 32)
    &&& r.total_sectors == d.total_sectors
}

proof fn lemma_present_drives(ds: Seq<Option<DriveSummary>>)
    ensures
        forall|k: int|
            0 <= k < present_drives(ds).len() ==> 0 <= #[trigger] present_drives(ds)[k] < ds.len()
                && ds[present_drives(ds)[k]] is Some,
        forall|k: int, l: int|
            0 <= k < l < present_drives(ds).len() ==> present_drives(ds)[k] < present_drives(
                ds,
            )[l],
        present_drives(ds).len() <= ds.len(),
    decreases ds.len(),
{
    if ds.len() > 0 {
        lemma_present_drives(ds.drop_last());
    }
}

proof fn lemma_present_prefix(ds: Seq<Option<DriveSummary>>, i: int, j: int)
    requires
        0 <= i <= j <= ds.len(),
    ensures
        present_drives(ds.subrange(0, i)).len() <= present_drives(ds.subrange(0, j)).len(),
        present_drives(ds.subrange(0, i)) == present_drives(ds.subrange(0, j)).subrange(
            0,
            present_drives(ds.subrange(0, i)).len() as int,
        ),
    decreases j - i,
{
    if i < j {
        lemma_present_prefix(ds, i, j - 1);
        assert(ds.subrange(0, j).drop_last() =~= ds.subrange(0, j - 1));
    }
}

/// Copies `src` into a zero-filled field of `N` bytes, keeping at most
/// `keep` bytes.
fn fill_field<const N: usize>(src: &[u8], keep: usize) -> (r: [u8; N])
    requires
        keep <= N,
    ensures
        r@ == padded(src@, keep as int, N as int),
{
    let mut r: [u8; N] = [0u8; N];
    let mut k: usize = 0;
    while k < N
        invariant
            keep <= N,
            k <= N,
            r@.len() == N,
            forall|j: int| 0 <= j < k ==> #[trigger] r@[j] == padded(src@, keep as int, N as int)[j],
            forall|j: int| k <= j < N ==> #[trigger] r@[j] == 0u8,
        decreases N - k,
    {
        if k < keep && k < src.len() {
            r[k] = src[k];
        }
        k = k + 1;
    }
    assert(r@ =~= padded(src@, keep as int, N as int));
    r
}

/// The records of the drives query into a buffer of `buf_size` bytes: one
/// per mounted drive among the 26 letters, in letter order, as many as
/// whole records fit. The call returns the records' total size.
pub fn drive_records(drives: &[Option<DriveSummary>], buf_size: usize) -> (r: Vec<DriveInfoRaw>)
    ensures
        r@.len() == (if lettered_drives(drives@).len() < buf_size / DRIVE_INFO_SIZE {
            lettered_drives(drives@).len() as int
        } else {
            (buf_size / DRIVE_INFO_SIZE) as int
        }),
        forall|k: int|
            0 <= k < r@.len() ==> {
                let i = lettered_drives(drives@)[k];
                drives@[i] matches Some(d) && describes_drive(#[trigger] r@[k], i, d)
            },
{
    let max_entries = buf_size / DRIVE_INFO_SIZE;
    let n: usize = if drives.len() < DRIVE_LETTERS {
        drives.len()
    } else {
        DRIVE_LETTERS
    };
    let ghost all = drives@.subrange(0, n as int);
    proof {
        lemma_present_drives(all);
    }
    let mut out: Vec<DriveInfoRaw> = Vec::new();
    let mut i: usize = 0;
    while i < n && out.len() < max_entries
        invariant
            n <= drives@.len(),
            n <= DRIVE_LETTERS,
            all == drives@.subrange(0, n as int),
            lettered_drives(drives@) == present_drives(all),
            i <= n,
            out@.len() <= max_entries,
            out@.len() == present_drives(all.subrange(0, i as int)).len(),
            forall|k: int|
                0 <= k < out@.len() ==> {
                    let j = present_drives(all)[k];
                    drives@[j] matches Some(d) && describes_drive(#[trigger] out@[k], j, d)
                },
            forall|k: int|
                0 <= k < present_drives(all).len() ==> 0 <= #[trigger] present_drives(all)[k]
                    < all.len() && all[present_drives(all)[k]] is Some,
        decreases n - i,
    {
        proof {
            assert(all.subrange(0, n as int) =~= all);
            lemma_present_prefix(all, i as int, n as int);
            lemma_present_prefix(all, i + 1, n as int);
            assert(all.subrange(0, i + 1).drop_last() =~= all.subrange(0, i as int));
        }
        match &drives[i] {
            Some(d) => {
                let rec = DriveInfoRaw {
                    letter: 65 + i as u8,
                    present: 1,
                    fs_type: fill_field::<16>(d.fs_type.as_slice(), 15),
                    label: fill_field::<32>(d.label.as_slice(), 31),
                    total_sectors: d.total_sectors,
                };
                proof {
                    let sub = all.subrange(0, i + 1);
                    assert(sub.last() == drives@[i as int]);
                    assert(sub.last() is Some);
                    let ps = present_drives(sub);
                    assert(ps == present_drives(all.subrange(0, i as int)).push(i as int));
                    assert(ps == present_drives(all).subrange(0, ps.len() as int));
                    assert(ps[out@.len() as int] == i as int);
                    assert(present_drives(all)[out@.len() as int] == i as int);
                }
                out.push(rec);
            },
            None => {},
        }
        i = i + 1;
    }
    proof {
        lemma_present_prefix(all, i as int, n as int);
        assert(all.subrange(0, n as int) =~= all);
    }
    out
}

} // verus!
