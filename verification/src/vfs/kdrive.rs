//! K:\ — a read-only filesystem that shows kernel objects as text files:
//! `\Memory`, `\Interrupts`, one file per process under `\Processes` and
//! one per driver under `\Drivers`.
//!
//! The drive renders a snapshot of the kernel state that it holds in plain
//! fields; whoever mounts it refreshes the snapshot.

use vstd::prelude::*;
use vstd::string::*;
use vstd::utf8::encode_utf8;
use crate::fmt::{
    push_digits, push_hex_padded, push_signed, spec_digits, spec_signed, spec_zero_pad,
};
use crate::vfs::mount::{ascii_upper, char_to_string, spec_ascii_upper};

verus! {

/// The drive's root directory.
pub const ROOT_INODE: u32 = 0;
/// `\Processes`.
pub const PROCESSES_DIR: u32 = 1;
/// `\Drivers`.
pub const DRIVERS_DIR: u32 = 2;
/// `\Memory`.
pub const MEMORY_FILE: u32 = 3;
/// `\Interrupts`.
pub const INTERRUPTS_FILE: u32 = 4;
/// Inode of the file of process 0; process `p` is `PID_INODE_BASE + p`.
pub const PID_INODE_BASE: u32 = 1000;
/// Inode of the file of driver 0; driver `i` is `DRIVER_INODE_BASE + i`.
pub const DRIVER_INODE_BASE: u32 = 2000;

/// Mode bits of a directory.
pub const MODE_DIR: u16 = 0x4000;
/// Mode bits of a regular file.
pub const MODE_FILE: u16 = 0x8000;

/// Why a filesystem call failed.
#[derive(Clone, Copy, Debug, PartialEq, Eq, Structural)]
pub enum VfsError {
    NotFound,
    NotADirectory,
    NotImplemented,
}

/// What a lookup or `stat` reports of a file or directory.
#[derive(Clone, Copy, Debug, PartialEq, Eq, Structural)]
pub struct VfsNode {
    pub inode: u32,
    pub mode: u16,
    pub size: u32,
}

/// One directory entry.
#[derive(Debug)]
pub struct DirEntry {
    pub name: String,
    pub node: VfsNode,
}

/// Physical-memory counters, in KiB.
#[derive(Clone, Copy, Debug, PartialEq, Eq, Structural)]
pub struct MemoryStats {
    pub phys_max: u64,
    pub total_kib: u64,
    pub usable_kib: u64,
    pub free_kib: u64,
    pub used_kib: u64,
    pub reserved_kib: u64,
}

/// The interrupt counters of the CPU that reads the drive.
#[derive(Clone, Copy, Debug, PartialEq, Eq, Structural)]
pub struct InterruptStats {
    pub cpu: u32,
    pub total_cpus: u32,
    pub count: u64,
}

/// The scheduling state of a thread.
#[derive(Clone, Copy, Debug, PartialEq, Eq, Structural)]
pub enum ThreadRunState {
    Ready,
    Running,
    Blocked,
    Terminated,
}

/// What the scheduler holds of a process's first thread.
#[derive(Clone, Copy, Debug, PartialEq, Eq, Structural)]
pub enum FirstThread {
    /// The process has no threads.
    NoThreads,
    /// Its first thread id names no thread.
    Missing,
    Found { state: ThreadRunState, priority: u8 },
}

/// A process as its K:\ file shows it.
#[derive(Debug)]
pub struct ProcessInfo {
    pub pid: u32,
    pub parent_pid: u32,
    pub thread_count: u64,
    pub first_thread: FirstThread,
    /// Drive index of the working directory (0 is `A`).
    pub cwd_drive: u8,
    pub cwd_path: String,
    pub heap_base: u64,
    pub heap_break: u64,
    pub is_admin: bool,
}

/// A loaded driver as its K:\ file shows it.
#[derive(Debug)]
pub struct DriverInfo {
    pub name: String,
    pub id: u32,
    pub state_name: String,
    pub category_name: String,
    pub kind_name: String,
    pub abi_min: u32,
    pub abi_target: u32,
    pub abi_max: u32,
    pub caps: u64,
    pub last_error: i32,
    pub error_name: String,
    pub events_received: u64,
    pub tick_count: u64,
    pub isolation_mode: u8,
    pub isolated_base: u64,
    pub isolated_size: u64,
}

/// A registered driver name and, when the runtime still has it, the driver.
#[derive(Debug)]
pub struct DriverEntry {
    pub name: String,
    pub info: Option<DriverInfo>,
}

/// The kernel object drive over a snapshot of the kernel state.
#[derive(Debug)]
pub struct KDrive {
    pub memory: MemoryStats,
    pub interrupts: InterruptStats,
    /// Live processes, in process-table order.
    pub processes: Vec<ProcessInfo>,
    /// Registered drivers, in registration order.
    pub drivers: Vec<DriverEntry>,
}

// ── inode arithmetic ──

/// Whether `inode` is the file of a process (pids below 256).
pub open spec fn spec_is_pid_inode(inode: u32) -> bool {
    PID_INODE_BASE <= inode < PID_INODE_BASE + 256
}

/// Whether `inode` is the file of a driver (indices below 64).
pub open spec fn spec_is_driver_inode(inode: u32) -> bool {
    DRIVER_INODE_BASE <= inode < DRIVER_INODE_BASE + 64
}

// ── text ──

/// `v` in decimal.
pub open spec fn dec(v: int) -> Seq<char> {
    spec_digits(v as nat, 10)
}

/// `v` in lower-case hexadecimal.
pub open spec fn hex(v: int) -> Seq<char> {
    spec_digits(v as nat, 16)
}

/// The text of `\Memory`.
pub open spec fn spec_memory_text(m: MemoryStats) -> Seq<char> {
    "Physical Memory: "@ + dec(m.phys_max as int) + " KB\r\nTotal: "@ + dec(m.total_kib as int)
        + " KB\r\nUsable: "@ + dec(m.usable_kib as int) + " KB\r\nFree: "@ + dec(
        m.free_kib as int,
    ) + " KB\r\nUsed: "@ + dec(m.used_kib as int) + " KB\r\nReserved: "@ + dec(
        m.reserved_kib as int,
    ) + " KB\r\n"@
}

/// The text of `\Interrupts`.
pub open spec fn spec_interrupts_text(s: InterruptStats) -> Seq<char> {
    "Current CPU: "@ + dec(s.cpu as int) + "\r\nTotal CPUs: "@ + dec(s.total_cpus as int)
        + "\r\nInterrupts on this CPU: "@ + dec(s.count as int) + "\r\n"@
}

/// The state shown for a process.
pub open spec fn spec_state_name(t: FirstThread) -> Seq<char> {
    match t {
        FirstThread::NoThreads => "Terminated"@,
        FirstThread::Missing => "Unknown"@,
        FirstThread::Found { state, .. } => match state {
            ThreadRunState::Ready => "Ready"@,
            ThreadRunState::Running => "Running"@,
            ThreadRunState::Blocked => "Blocked"@,
            ThreadRunState::Terminated => "Terminated"@,
        },
    }
}

/// The priority shown for a process.
pub open spec fn spec_priority_name(t: FirstThread) -> Seq<char> {
    match t {
        FirstThread::Found { priority, .. } => if priority == 0 {
            "HIGH"@
        } else if priority == 1 {
            "ABOVE_NORMAL"@
        } else if priority == 2 {
            "NORMAL"@
        } else if priority == 3 {
            "IDLE"@
        } else {
            "OTHER"@
        },
        _ => "N/A"@,
    }
}

/// The file of a process.
pub open spec fn spec_process_text(p: &ProcessInfo) -> Seq<char> {
    "PID: "@ + dec(p.pid as int) + "\r\nParent PID: "@ + dec(p.parent_pid as int)
        + "\r\nThreads: "@ + dec(p.thread_count as int) + "\r\nState: "@ + spec_state_name(
        p.first_thread,
    ) + "\r\nPriority: "@ + spec_priority_name(p.first_thread) + "\r\nCWD: "@ + seq![
        ((p.cwd_drive + 65) as u8) as char,
    ] + ":"@ + p.cwd_path@ + "\r\nHeap Base: 0x"@ + hex(p.heap_base as int) + "\r\nHeap Break: 0x"@
        + hex(p.heap_break as int) + "\r\nAdmin: "@ + (if p.is_admin {
        "Yes"@
    } else {
        "No"@
    }) + "\r\n"@
}

/// The file shown for a process id that names no process.
pub open spec fn spec_missing_process_text(pid: u32) -> Seq<char> {
    "PID "@ + dec(pid as int) + " not found\r\n"@
}

/// The file of a driver.
pub open spec fn spec_driver_text(d: &DriverInfo) -> Seq<char> {
    "Name: "@ + d.name@ + "\r\nID: "@ + dec(d.id as int) + "\r\nState: "@ + d.state_name@
        + "\r\nCategory: "@ + d.category_name@ + "\r\nType: "@ + d.kind_name@ + "\r\nABI: min="@
        + dec(d.abi_min as int) + " target="@ + dec(d.abi_target as int) + " max="@ + dec(
        d.abi_max as int,
    ) + "\r\nCapabilities: 0x"@ + spec_zero_pad(hex(d.caps as int), 16) + "\r\nLast Error: "@
        + spec_signed(d.last_error as int) + " ("@ + d.error_name@ + ")\r\nEvents Received: "@
        + dec(d.events_received as int) + "\r\nTick Count: "@ + dec(d.tick_count as int)
        + "\r\nIsolation: mode="@ + dec(d.isolation_mode as int) + " base=0x"@ + hex(
        d.isolated_base as int,
    ) + " size=0x"@ + hex(d.isolated_size as int) + "\r\n"@
}

/// The text of `\Memory`.
pub fn memory_text(m: &MemoryStats) -> (s: String)
    ensures
        s@ == spec_memory_text(*m),
{
    let mut s = String::new();
    s.append("Physical Memory: ");
    push_digits(&mut s, m.phys_max, 10);
    s.append(" KB\r\nTotal: ");
    push_digits(&mut s, m.total_kib, 10);
    s.append(" KB\r\nUsable: ");
    push_digits(&mut s, m.usable_kib, 10);
    s.append(" KB\r\nFree: ");
    push_digits(&mut s, m.free_kib, 10);
    s.append(" KB\r\nUsed: ");
    push_digits(&mut s, m.used_kib, 10);
    s.append(" KB\r\nReserved: ");
    push_digits(&mut s, m.reserved_kib, 10);
    s.append(" KB\r\n");
    assert(s@ =~= spec_memory_text(*m));
    s
}

/// The text of `\Interrupts`.
pub fn interrupts_text(st: &InterruptStats) -> (s: String)
    ensures
        s@ == spec_interrupts_text(*st),
{
    let mut s = String::new();
    s.append("Current CPU: ");
    push_digits(&mut s, st.cpu as u64, 10);
    s.append("\r\nTotal CPUs: ");
    push_digits(&mut s, st.total_cpus as u64, 10);
    s.append("\r\nInterrupts on this CPU: ");
    push_digits(&mut s, st.count, 10);
    s.append("\r\n");
    assert(s@ =~= spec_interrupts_text(*st));
    s
}

fn state_name(t: FirstThread) -> (s: &'static str)
    ensures
        s@ == spec_state_name(t),
{
    match t {
        FirstThread::NoThreads => "Terminated",
        FirstThread::Missing => "Unknown",
        FirstThread::Found { state, .. } => match state {
            ThreadRunState::Ready => "Ready",
            ThreadRunState::Running => "Running",
            ThreadRunState::Blocked => "Blocked",
            ThreadRunState::Terminated => "Terminated",
        },
    }
}

fn priority_name(t: FirstThread) -> (s: &'static str)
    ensures
        s@ == spec_priority_name(t),
{
    match t {
        FirstThread::Found { priority, .. } => if priority == 0 {
            "HIGH"
        } else if priority == 1 {
            "ABOVE_NORMAL"
        } else if priority == 2 {
            "NORMAL"
        } else if priority == 3 {
            "IDLE"
        } else {
            "OTHER"
        },
        _ => "N/A",
    }
}

/// The file of a process.
pub fn process_text(p: &ProcessInfo) -> (s: String)
    requires
        p.cwd_drive + 65 < 256,
    ensures
        s@ == spec_process_text(p),
{
    let mut s = String::new();
    s.append("PID: ");
    push_digits(&mut s, p.pid as u64, 10);
    s.append("\r\nParent PID: ");
    push_digits(&mut s, p.parent_pid as u64, 10);
    s.append("\r\nThreads: ");
    push_digits(&mut s, p.thread_count, 10);
    s.append("\r\nState: ");
    s.append(state_name(p.first_thread));
    s.append("\r\nPriority: ");
    s.append(priority_name(p.first_thread));
    s.append("\r\nCWD: ");
    let letter = char_to_string((p.cwd_drive + 65) as char);
    s.append(letter.as_str());
    s.append(":");
    s.append(p.cwd_path.as_str());
    s.append("\r\nHeap Base: 0x");
    push_digits(&mut s, p.heap_base, 16);
    s.append("\r\nHeap Break: 0x");
    push_digits(&mut s, p.heap_break, 16);
    s.append("\r\nAdmin: ");
    if p.is_admin {
        s.append("Yes");
    } else {
        s.append("No");
    }
    s.append("\r\n");
    assert(s@ =~= spec_process_text(p));
    s
}

/// The file shown for a process id that names no process.
pub fn missing_process_text(pid: u32) -> (s: String)
    ensures
        s@ == spec_missing_process_text(pid),
{
    let mut s = String::new();
    s.append("PID ");
    push_digits(&mut s, pid as u64, 10);
    s.append(" not found\r\n");
    assert(s@ =~= spec_missing_process_text(pid));
    s
}

/// The file of a driver.
pub fn driver_text(d: &DriverInfo) -> (s: String)
    ensures
        s@ == spec_driver_text(d),
{
    let mut s = String::new();
    s.append("Name: ");
    s.append(d.name.as_str());
    s.append("\r\nID: ");
    push_digits(&mut s, d.id as u64, 10);
    s.append("\r\nState: ");
    s.append(d.state_name.as_str());
    s.append("\r\nCategory: ");
    s.append(d.category_name.as_str());
    s.append("\r\nType: ");
    s.append(d.kind_name.as_str());
    s.append("\r\nABI: min=");
    push_digits(&mut s, d.abi_min as u64, 10);
    s.append(" target=");
    push_digits(&mut s, d.abi_target as u64, 10);
    s.append(" max=");
    push_digits(&mut s, d.abi_max as u64, 10);
    s.append("\r\nCapabilities: 0x");
    push_hex_padded(&mut s, d.caps, 16);
    s.append("\r\nLast Error: ");
    push_signed(&mut s, d.last_error as i64);
    s.append(" (");
    s.append(d.error_name.as_str());
    s.append(")\r\nEvents Received: ");
    push_digits(&mut s, d.events_received, 10);
    s.append("\r\nTick Count: ");
    push_digits(&mut s, d.tick_count, 10);
    s.append("\r\nIsolation: mode=");
    push_digits(&mut s, d.isolation_mode as u64, 10);
    s.append(" base=0x");
    push_digits(&mut s, d.isolated_base, 16);
    s.append(" size=0x");
    push_digits(&mut s, d.isolated_size, 16);
    s.append("\r\n");
    assert(s@ =~= spec_driver_text(d));
    s
}

// ── names ──

/// `a` and `b` are equal ignoring ASCII case.
pub open spec fn spec_eq_ignore_case(a: Seq<char>, b: Seq<char>) -> bool {
    a.len() == b.len() && forall|i: int|
        0 <= i < a.len() ==> spec_ascii_upper(#[trigger] a[i]) == spec_ascii_upper(b[i])
}

/// Whether `a` and `b` are equal ignoring ASCII case.
pub fn eq_ignore_case(a: &str, b: &str) -> (r: bool)
    ensures
        r == spec_eq_ignore_case(a@, b@),
{
    let n = a.unicode_len();
    if n != b.unicode_len() {
        return false;
    }
    let mut i: usize = 0;
    while i < n
        invariant
            n == a@.len(),
            n == b@.len(),
            i <= n,
            forall|j: int| 0 <= j < i ==> spec_ascii_upper(#[trigger] a@[j]) == spec_ascii_upper(b@[j]),
        decreases n - i,
    {
        if ascii_upper(a.get_char(i)) != ascii_upper(b.get_char(i)) {
            return false;
        }
        i = i + 1;
    }
    true
}

/// Whether `c` is an ASCII digit.
pub open spec fn is_digit(c: char) -> bool {
    '0' <= c <= '9'
}

/// The value of a string of decimal digits.
pub open spec fn decimal_value(s: Seq<char>) -> int
    decreases s.len(),
{
    if s.len() == 0 {
        0
    } else {
        decimal_value(s.drop_last()) * 10 + (s.last() as int - 48)
    }
}

/// Every character of `s` is a digit.
pub open spec fn all_digits(s: Seq<char>) -> bool {
    forall|i: int| 0 <= i < s.len() ==> is_digit(#[trigger] s[i])
}

/// `s` read as a `u32` the way `str::parse::<u32>` reads it: an optional
/// `+`, then one or more digits, of value at most `u32::MAX`.
pub open spec fn spec_parse_u32(s: Seq<char>) -> Option<u32> {
    let body = if s.len() > 0 && s[0] == '+' {
        s.drop_first()
    } else {
        s
    };
    if body.len() > 0 && all_digits(body) && decimal_value(body) <= u32::MAX {
        Some(decimal_value(body) as u32)
    } else {
        None
    }
}

proof fn lemma_decimal_value_prefix(s: Seq<char>, k: int)
    requires
        all_digits(s),
        0 <= k <= s.len(),
    ensures
        0 <= decimal_value(s.subrange(0, k)) <= decimal_value(s),
    decreases s.len(),
{
    if k == s.len() {
        assert(s.subrange(0, k) =~= s);
        if s.len() > 0 {
            lemma_decimal_value_prefix(s.drop_last(), k - 1);
            assert(s.drop_last().subrange(0, k - 1) =~= s.drop_last());
            assert(is_digit(s[s.len() - 1]));
        }
    } else {
        let t = s.drop_last();
        assert(all_digits(t)) by {
            assert forall|i: int| 0 <= i < t.len() implies is_digit(#[trigger] t[i]) by {
                assert(t[i] == s[i]);
            }
        }
        lemma_decimal_value_prefix(t, k);
        lemma_decimal_value_prefix(t, t.len() as int);
        assert(t.subrange(0, k) =~= s.subrange(0, k));
        assert(t.subrange(0, t.len() as int) =~= t);
        assert(is_digit(s[s.len() - 1]));
    }
}

/// Reads a process id the way `str::parse::<u32>` does (see
/// `spec_parse_u32`).
pub fn parse_u32(s: &str) -> (r: Option<u32>)
    ensures
        r == spec_parse_u32(s@),
{
    let n = s.unicode_len();
    let mut start: usize = 0;
    if n > 0 && s.get_char(0) == '+' {
        start = 1;
    }
    let ghost body = if s@.len() > 0 && s@[0] == '+' {
        s@.drop_first()
    } else {
        s@
    };
    assert(body =~= s@.subrange(start as int, n as int));
    assert(spec_parse_u32(s@) == (if body.len() > 0 && all_digits(body) && decimal_value(body)
        <= u32::MAX {
        Some(decimal_value(body) as u32)
    } else {
        None
    }));
    if start == n {
        return None;
    }
    let mut acc: u64 = 0;
    let mut i: usize = start;
    assert(s@.subrange(start as int, start as int) =~= Seq::<char>::empty());
    while i < n
        invariant
            n == s@.len(),
            start < n,
            start <= i <= n,
            body == s@.subrange(start as int, n as int),
            all_digits(s@.subrange(start as int, i as int)),
            acc == decimal_value(s@.subrange(start as int, i as int)),
            acc <= u32::MAX,
            spec_parse_u32(s@) == (if body.len() > 0 && all_digits(body) && decimal_value(body)
                <= u32::MAX {
                Some(decimal_value(body) as u32)
            } else {
                None
            }),
        decreases n - i,
    {
        let c = s.get_char(i);
        if !('0' <= c && c <= '9') {
            assert(body[i - start] == c);
            assert(!is_digit(body[i - start]));
            return None;
        }
        let d = (c as u32 - 48) as u64;
        let ghost pre = s@.subrange(start as int, i as int);
        let ghost next = s@.subrange(start as int, i + 1);
        assert(next.drop_last() =~= pre);
        assert(next.last() == c);
        acc = acc * 10 + d;
        assert(acc == decimal_value(next));
        assert(all_digits(next)) by {
            assert forall|j: int| 0 <= j < next.len() implies is_digit(#[trigger] next[j]) by {
                if j < pre.len() {
                    assert(next[j] == pre[j]);
                }
            }
        }
        if acc > 0xFFFF_FFFF {
            proof {
                if all_digits(body) {
                    lemma_decimal_value_prefix(body, i + 1 - start);
                    assert(body.subrange(0, i + 1 - start) =~= next);
                }
            }
            return None;
        }
        i = i + 1;
    }
    assert(s@.subrange(start as int, n as int) =~= body);
    Some(acc as u32)
}

// ── the drive ──

/// The size a file of text `t` reports: its UTF-8 length, truncated to 32 bits.
pub open spec fn spec_size(t: Seq<char>) -> u32 {
    ((encode_utf8(t).len() as usize) as u32)
}

/// Index of the first process with id `pid` (`ps.len()` if none).
pub open spec fn find_process(ps: Seq<ProcessInfo>, pid: u32) -> int
    decreases ps.len(),
{
    if ps.len() == 0 {
        0
    } else if ps[0].pid == pid {
        0
    } else {
        1 + find_process(ps.drop_first(), pid)
    }
}

proof fn lemma_find_process(ps: Seq<ProcessInfo>, pid: u32)
    ensures
        0 <= find_process(ps, pid) <= ps.len(),
        find_process(ps, pid) < ps.len() ==> ps[find_process(ps, pid)].pid == pid,
        forall|j: int| 0 <= j < find_process(ps, pid) ==> #[trigger] ps[j].pid != pid,
    decreases ps.len(),
{
    if ps.len() > 0 && ps[0].pid != pid {
        lemma_find_process(ps.drop_first(), pid);
        assert forall|j: int| 0 <= j < find_process(ps, pid) implies #[trigger] ps[j].pid != pid by {
            if j > 0 {
                assert(ps[j] == ps.drop_first()[j - 1]);
            }
        }
    }
}

/// Index of the first driver named `name` (ignoring case) that the runtime
/// still has (`ds.len()` if none).
pub open spec fn find_driver(ds: Seq<DriverEntry>, name: Seq<char>) -> int
    decreases ds.len(),
{
    if ds.len() == 0 {
        0
    } else if spec_eq_ignore_case(ds[0].name@, name) && ds[0].info is Some {
        0
    } else {
        1 + find_driver(ds.drop_first(), name)
    }
}

proof fn lemma_find_driver(ds: Seq<DriverEntry>, name: Seq<char>)
    ensures
        0 <= find_driver(ds, name) <= ds.len(),
        find_driver(ds, name) < ds.len() ==> spec_eq_ignore_case(ds[find_driver(ds, name)].name@, name)
            && ds[find_driver(ds, name)].info is Some,
        forall|j: int|
            0 <= j < find_driver(ds, name) ==> !(spec_eq_ignore_case(#[trigger] ds[j].name@, name)
                && ds[j].info is Some),
    decreases ds.len(),
{
    if ds.len() > 0 && !(spec_eq_ignore_case(ds[0].name@, name) && ds[0].info is Some) {
        lemma_find_driver(ds.drop_first(), name);
        assert forall|j: int| 0 <= j < find_driver(ds, name) implies !(spec_eq_ignore_case(
            #[trigger] ds[j].name@,
            name,
        ) && ds[j].info is Some) by {
            if j > 0 {
                assert(ds[j] == ds.drop_first()[j - 1]);
            }
        }
    }
}

/// A process whose file inode fits 32 bits and whose working drive has a
/// letter.
pub open spec fn process_fits(p: ProcessInfo) -> bool {
    p.pid + PID_INODE_BASE <= u32::MAX && p.cwd_drive + 65 < 256
}

/// A directory node.
pub open spec fn dir_node(inode: u32) -> VfsNode {
    VfsNode { inode, mode: MODE_DIR, size: 0 }
}

/// A file node holding text `t`.
pub open spec fn file_node(inode: u32, t: Seq<char>) -> VfsNode {
    VfsNode { inode, mode: MODE_FILE, size: spec_size(t) }
}

impl KDrive {
    /// Every process and driver file has an inode that fits 32 bits, and
    /// every working-directory drive has a letter.
    pub open spec fn wf(&self) -> bool {
        &&& forall|i: int| 0 <= i < self.processes@.len() ==> process_fits(#[trigger] self.processes@[i])
        &&& self.drivers@.len() + DRIVER_INODE_BASE <= u32::MAX
    }

    /// The file shown for process id `pid`.
    pub open spec fn spec_pid_text(&self, pid: u32) -> Seq<char> {
        let i = find_process(self.processes@, pid);
        if i < self.processes@.len() {
            spec_process_text(&self.processes@[i])
        } else {
            spec_missing_process_text(pid)
        }
    }

    /// What file `inode` holds.
    pub open spec fn spec_content(&self, inode: u32) -> Result<Seq<char>, VfsError> {
        if inode == MEMORY_FILE {
            Ok(spec_memory_text(self.memory))
        } else if inode == INTERRUPTS_FILE {
            Ok(spec_interrupts_text(self.interrupts))
        } else if spec_is_pid_inode(inode) {
            Ok(self.spec_pid_text((inode - PID_INODE_BASE) as u32))
        } else if spec_is_driver_inode(inode) {
            let idx = inode - DRIVER_INODE_BASE;
            if idx < self.drivers@.len() && self.drivers@[idx].info is Some {
                Ok(spec_driver_text(&self.drivers@[idx].info.unwrap()))
            } else {
                Err(VfsError::NotFound)
            }
        } else {
            Err(VfsError::NotFound)
        }
    }

    /// An empty snapshot: zero counters, no processes, no drivers.
    pub fn new() -> (kd: Self)
        ensures
            kd.wf(),
            kd.processes@.len() == 0,
            kd.drivers@.len() == 0,
            kd.memory == (MemoryStats {
                phys_max: 0,
                total_kib: 0,
                usable_kib: 0,
                free_kib: 0,
                used_kib: 0,
                reserved_kib: 0,
            }),
            kd.interrupts == (InterruptStats { cpu: 0, total_cpus: 0, count: 0 }),
    {
        KDrive {
            memory: MemoryStats {
                phys_max: 0,
                total_kib: 0,
                usable_kib: 0,
                free_kib: 0,
                used_kib: 0,
                reserved_kib: 0,
            },
            interrupts: InterruptStats { cpu: 0, total_cpus: 0, count: 0 },
            processes: Vec::new(),
            drivers: Vec::new(),
        }
    }

    /// Whether `inode` is the file of a process.
    pub fn is_pid_inode(inode: u32) -> (b: bool)
        ensures
            b == spec_is_pid_inode(inode),
    {
        inode >= PID_INODE_BASE && inode < PID_INODE_BASE + 256
    }

    /// Whether `inode` is the file of a driver.
    pub fn is_driver_inode(inode: u32) -> (b: bool)
        ensures
            b == spec_is_driver_inode(inode),
    {
        inode >= DRIVER_INODE_BASE && inode < DRIVER_INODE_BASE + 64
    }

    /// The process id of a process file's inode.
    pub fn pid_from_inode(inode: u32) -> (pid: u32)
        requires
            inode >= PID_INODE_BASE,
        ensures
            pid == inode - PID_INODE_BASE,
    {
        inode - PID_INODE_BASE
    }

    /// The driver index of a driver file's inode.
    pub fn driver_idx_from_inode(inode: u32) -> (idx: usize)
        requires
            inode >= DRIVER_INODE_BASE,
        ensures
            idx == inode - DRIVER_INODE_BASE,
    {
        (inode - DRIVER_INODE_BASE) as usize
    }

    fn position_of_pid(&self, pid: u32) -> (i: usize)
        ensures
            i == find_process(self.processes@, pid),
    {
        proof {
            lemma_find_process(self.processes@, pid);
        }
        let mut i: usize = 0;
        while i < self.processes.len()
            invariant
                i <= self.processes@.len(),
                forall|j: int| 0 <= j < i ==> #[trigger] self.processes@[j].pid != pid,
                0 <= find_process(self.processes@, pid) <= self.processes@.len(),
                find_process(self.processes@, pid) < self.processes@.len() ==> self.processes@[find_process(self.processes@, pid)].pid == pid,
                forall|j: int| 0 <= j < find_process(self.processes@, pid) ==> #[trigger] self.processes@[j].pid != pid,
            decreases self.processes@.len() - i,
        {
            if self.processes[i].pid == pid {
                proof {
                    let f = find_process(self.processes@, pid);
                    assert(self.processes@[i as int].pid == pid);
                    if f < i {
                        assert(self.processes@[f].pid == pid);
                    }
                }
                return i;
            }
            i = i + 1;
        }
        i
    }

    fn pid_text(&self, pid: u32) -> (s: String)
        requires
            self.wf(),
        ensures
            s@ == self.spec_pid_text(pid),
    {
        let i = self.position_of_pid(pid);
        if i < self.processes.len() {
            process_text(&self.processes[i])
        } else {
            missing_process_text(pid)
        }
    }

    /// What file `inode` holds: the memory or interrupt counters, a process
    /// (its pid taken from the inode; an unknown pid yields a short "not
    /// found" text), or a driver; anything else is `NotFound`.
    pub fn get_content(&self, inode: u32) -> (r: Result<String, VfsError>)
        requires
            self.wf(),
        ensures
            match self.spec_content(inode) {
                Ok(t) => r matches Ok(s) && s@ == t,
                Err(e) => r == Err::<String, VfsError>(e),
            },
    {
        if inode == MEMORY_FILE {
            Ok(memory_text(&self.memory))
        } else if inode == INTERRUPTS_FILE {
            Ok(interrupts_text(&self.interrupts))
        } else if Self::is_pid_inode(inode) {
            Ok(self.pid_text(Self::pid_from_inode(inode)))
        } else if Self::is_driver_inode(inode) {
            let idx = Self::driver_idx_from_inode(inode);
            if idx < self.drivers.len() {
                match &self.drivers[idx].info {
                    Some(info) => Ok(driver_text(info)),
                    None => Err(VfsError::NotFound),
                }
            } else {
                Err(VfsError::NotFound)
            }
        } else {
            Err(VfsError::NotFound)
        }
    }
}

/// The root directory's entries: name, inode, directory or not.
pub open spec fn spec_root_entry(index: int) -> Option<(Seq<char>, u32, bool)> {
    if index == 0 {
        Some(("Processes"@, PROCESSES_DIR, true))
    } else if index == 1 {
        Some(("Drivers"@, DRIVERS_DIR, true))
    } else if index == 2 {
        Some(("Memory"@, MEMORY_FILE, false))
    } else if index == 3 {
        Some(("Interrupts"@, INTERRUPTS_FILE, false))
    } else {
        None
    }
}

/// `r` is the directory entry `e`: same name, same node.
pub open spec fn entry_is(r: Result<Option<DirEntry>, VfsError>, e: Result<Option<(Seq<char>, VfsNode)>, VfsError>) -> bool {
    match e {
        Ok(None) => r matches Ok(None),
        Ok(Some((name, node))) => r matches Ok(Some(d)) && d.name@ == name && d.node == node,
        Err(err) => r == Err::<Option<DirEntry>, VfsError>(err),
    }
}

fn text_size(t: &String) -> (n: u32)
    ensures
        n == spec_size(t@),
{
    let n: usize = t.as_str().len();
    #[verifier::truncate]
    (n as u32)
}

impl KDrive {
    /// The node of a root-directory file or directory.
    pub open spec fn spec_root_node(&self, inode: u32, is_dir: bool) -> VfsNode {
        if is_dir {
            dir_node(inode)
        } else if inode == MEMORY_FILE {
            file_node(inode, spec_memory_text(self.memory))
        } else {
            file_node(inode, spec_interrupts_text(self.interrupts))
        }
    }

    /// What `lookup(dir_inode, name)` finds.
    pub open spec fn spec_lookup(&self, dir_inode: u32, name: Seq<char>) -> Result<VfsNode, VfsError> {
        if dir_inode == ROOT_INODE {
            if spec_eq_ignore_case(name, "PROCESSES"@) {
                Ok(dir_node(PROCESSES_DIR))
            } else if spec_eq_ignore_case(name, "DRIVERS"@) {
                Ok(dir_node(DRIVERS_DIR))
            } else if spec_eq_ignore_case(name, "MEMORY"@) {
                Ok(file_node(MEMORY_FILE, spec_memory_text(self.memory)))
            } else if spec_eq_ignore_case(name, "INTERRUPTS"@) {
                Ok(file_node(INTERRUPTS_FILE, spec_interrupts_text(self.interrupts)))
            } else {
                Err(VfsError::NotFound)
            }
        } else if dir_inode == PROCESSES_DIR {
            match spec_parse_u32(name) {
                None => Err(VfsError::NotFound),
                Some(pid) => if find_process(self.processes@, pid) < self.processes@.len() {
                    Ok(file_node((PID_INODE_BASE + pid) as u32, self.spec_pid_text(pid)))
                } else {
                    Err(VfsError::NotFound)
                },
            }
        } else if dir_inode == DRIVERS_DIR {
            let i = find_driver(self.drivers@, name);
            if i < self.drivers@.len() {
                Ok(
                    file_node(
                        (DRIVER_INODE_BASE + i) as u32,
                        spec_driver_text(&self.drivers@[i].info.unwrap()),
                    ),
                )
            } else {
                Err(VfsError::NotFound)
            }
        } else {
            Err(VfsError::NotFound)
        }
    }

    /// Entry `index` of directory `dir_inode`: the four root entries, one
    /// entry per process (named by its pid) or per registered driver;
    /// `None` past the end; `NotADirectory` for a file.
    pub open spec fn spec_readdir(&self, dir_inode: u32, index: int) -> Result<Option<(Seq<char>, VfsNode)>, VfsError> {
        if dir_inode == ROOT_INODE {
            match spec_root_entry(index) {
                None => Ok(None),
                Some((name, ino, is_dir)) => Ok(Some((name, self.spec_root_node(ino, is_dir)))),
            }
        } else if dir_inode == PROCESSES_DIR {
            if index < self.processes@.len() {
                let pid = self.processes@[index].pid;
                Ok(Some((dec(pid as int), file_node((PID_INODE_BASE + pid) as u32, self.spec_pid_text(pid)))))
            } else {
                Ok(None)
            }
        } else if dir_inode == DRIVERS_DIR {
            if index < self.drivers@.len() {
                match self.drivers@[index].info {
                    Some(info) => Ok(
                        Some(
                            (
                                self.drivers@[index].name@,
                                file_node((DRIVER_INODE_BASE + index) as u32, spec_driver_text(&info)),
                            ),
                        ),
                    ),
                    None => Err(VfsError::NotFound),
                }
            } else {
                Ok(None)
            }
        } else {
            Err(VfsError::NotADirectory)
        }
    }

    /// What `stat(inode)` reports.
    pub open spec fn spec_stat(&self, inode: u32) -> Result<VfsNode, VfsError> {
        if inode == ROOT_INODE || inode == PROCESSES_DIR || inode == DRIVERS_DIR {
            Ok(dir_node(inode))
        } else if inode == MEMORY_FILE || inode == INTERRUPTS_FILE {
            Ok(self.spec_root_node(inode, false))
        } else if spec_is_pid_inode(inode) {
            let pid = (inode - PID_INODE_BASE) as u32;
            if find_process(self.processes@, pid) < self.processes@.len() {
                Ok(file_node(inode, self.spec_pid_text(pid)))
            } else {
                Err(VfsError::NotFound)
            }
        } else {
            match self.spec_content(inode) {
                Ok(t) => Ok(file_node(inode, t)),
                Err(e) => Err(e),
            }
        }
    }

    /// Copies up to `buf.len()` bytes of file `inode` from byte `offset`
    /// into `buf` and returns how many; 0 at or past the end.
    pub fn read(&self, inode: u32, offset: u64, buf: &mut [u8]) -> (r: Result<usize, VfsError>)
        requires
            self.wf(),
        ensures
            final(buf)@.len() == old(buf)@.len(),
            match self.spec_content(inode) {
                Err(e) => r == Err::<usize, VfsError>(e) && final(buf)@ == old(buf)@,
                Ok(t) => {
                    let bytes = encode_utf8(t);
                    let start = (offset as usize) as int;
                    if start >= bytes.len() {
                        r == Ok::<usize, VfsError>(0) && final(buf)@ == old(buf)@
                    } else {
                        let count = if old(buf)@.len() < bytes.len() - start {
                            old(buf)@.len() as int
                        } else {
                            bytes.len() - start
                        };
                        &&& r == Ok::<usize, VfsError>(count as usize)
                        &&& final(buf)@.subrange(0, count) == bytes.subrange(start, start + count)
                        &&& final(buf)@.subrange(count, old(buf)@.len() as int) == old(buf)@.subrange(count, old(buf)@.len() as int)
                    }
                },
            },
    {
        let content = match self.get_content(inode) {
            Ok(c) => c,
            Err(e) => return Err(e),
        };
        let bytes = content.as_str().as_bytes();
        let len = bytes.len();
        let start = offset as usize;
        if start >= len {
            return Ok(0);
        }
        let count = if buf.len() < len - start {
            buf.len()
        } else {
            len - start
        };
        let ghost before = buf@;
        let mut k: usize = 0;
        while k < count
            invariant
                bytes@ == encode_utf8(content@),
                len == bytes@.len(),
                start < len,
                count <= len - start,
                count <= buf@.len(),
                buf@.len() == before.len(),
                k <= count,
                forall|j: int| 0 <= j < k ==> #[trigger] buf@[j] == bytes@[start + j],
                forall|j: int| k <= j < buf@.len() ==> #[trigger] buf@[j] == before[j],
            decreases count - k,
        {
            buf[k] = bytes[start + k];
            k = k + 1;
        }
        assert(buf@.subrange(0, count as int) =~= bytes@.subrange(start as int, start + count));
        assert(buf@.subrange(count as int, buf@.len() as int) =~= before.subrange(count as int, before.len() as int));
        Ok(count)
    }

    fn position_of_driver(&self, name: &str) -> (i: usize)
        ensures
            i == find_driver(self.drivers@, name@),
    {
        proof {
            lemma_find_driver(self.drivers@, name@);
        }
        let mut i: usize = 0;
        while i < self.drivers.len()
            invariant
                i <= self.drivers@.len(),
                forall|j: int|
                    0 <= j < i ==> !(spec_eq_ignore_case(#[trigger] self.drivers@[j].name@, name@)
                        && self.drivers@[j].info is Some),
                0 <= find_driver(self.drivers@, name@) <= self.drivers@.len(),
                find_driver(self.drivers@, name@) < self.drivers@.len() ==> spec_eq_ignore_case(
                    self.drivers@[find_driver(self.drivers@, name@)].name@,
                    name@,
                ) && self.drivers@[find_driver(self.drivers@, name@)].info is Some,
                forall|j: int|
                    0 <= j < find_driver(self.drivers@, name@) ==> !(spec_eq_ignore_case(
                        #[trigger] self.drivers@[j].name@,
                        name@,
                    ) && self.drivers@[j].info is Some),
            decreases self.drivers@.len() - i,
        {
            let entry = &self.drivers[i];
            if eq_ignore_case(entry.name.as_str(), name) && entry.info.is_some() {
                proof {
                    let f = find_driver(self.drivers@, name@);
                    assert(spec_eq_ignore_case(self.drivers@[i as int].name@, name@));
                    if f < i {
                        assert(spec_eq_ignore_case(self.drivers@[f].name@, name@));
                    }
                }
                return i;
            }
            i = i + 1;
        }
        i
    }

    /// Looks `name` up in directory `dir_inode`: the root's four entries
    /// (ignoring case), a process by decimal pid, a driver by name (ignoring
    /// case); `NotFound` otherwise.
    pub fn lookup(&self, dir_inode: u32, name: &str) -> (r: Result<VfsNode, VfsError>)
        requires
            self.wf(),
        ensures
            r == self.spec_lookup(dir_inode, name@),
    {
        if dir_inode == ROOT_INODE {
            if eq_ignore_case(name, "PROCESSES") {
                Ok(VfsNode { inode: PROCESSES_DIR, mode: MODE_DIR, size: 0 })
            } else if eq_ignore_case(name, "DRIVERS") {
                Ok(VfsNode { inode: DRIVERS_DIR, mode: MODE_DIR, size: 0 })
            } else if eq_ignore_case(name, "MEMORY") {
                let t = memory_text(&self.memory);
                Ok(VfsNode { inode: MEMORY_FILE, mode: MODE_FILE, size: text_size(&t) })
            } else if eq_ignore_case(name, "INTERRUPTS") {
                let t = interrupts_text(&self.interrupts);
                Ok(VfsNode { inode: INTERRUPTS_FILE, mode: MODE_FILE, size: text_size(&t) })
            } else {
                Err(VfsError::NotFound)
            }
        } else if dir_inode == PROCESSES_DIR {
            let pid = match parse_u32(name) {
                Some(p) => p,
                None => return Err(VfsError::NotFound),
            };
            let i = self.position_of_pid(pid);
            if i < self.processes.len() {
                proof {
                    lemma_find_process(self.processes@, pid);
                    assert(process_fits(self.processes@[i as int]));
                }
                let t = self.pid_text(pid);
                Ok(VfsNode { inode: PID_INODE_BASE + pid, mode: MODE_FILE, size: text_size(&t) })
            } else {
                Err(VfsError::NotFound)
            }
        } else if dir_inode == DRIVERS_DIR {
            let i = self.position_of_driver(name);
            if i < self.drivers.len() {
                proof {
                    lemma_find_driver(self.drivers@, name@);
                }
                match &self.drivers[i].info {
                    Some(info) => {
                        let t = driver_text(info);
                        Ok(
                            VfsNode {
                                inode: DRIVER_INODE_BASE + i as u32,
                                mode: MODE_FILE,
                                size: text_size(&t),
                            },
                        )
                    },
                    None => Err(VfsError::NotFound),
                }
            } else {
                Err(VfsError::NotFound)
            }
        } else {
            Err(VfsError::NotFound)
        }
    }

    /// Entry `index` of directory `dir_inode` (see `spec_readdir`).
    pub fn readdir(&self, dir_inode: u32, index: usize) -> (r: Result<Option<DirEntry>, VfsError>)
        requires
            self.wf(),
        ensures
            entry_is(r, self.spec_readdir(dir_inode, index as int)),
    {
        if dir_inode == ROOT_INODE {
            proof {
                reveal_strlit("Processes");
                reveal_strlit("Drivers");
                reveal_strlit("Memory");
                reveal_strlit("Interrupts");
            }
            if index == 0 {
                Ok(Some(DirEntry { name: String::from_str("Processes"), node: VfsNode { inode: PROCESSES_DIR, mode: MODE_DIR, size: 0 } }))
            } else if index == 1 {
                Ok(Some(DirEntry { name: String::from_str("Drivers"), node: VfsNode { inode: DRIVERS_DIR, mode: MODE_DIR, size: 0 } }))
            } else if index == 2 {
                let t = memory_text(&self.memory);
                Ok(Some(DirEntry { name: String::from_str("Memory"), node: VfsNode { inode: MEMORY_FILE, mode: MODE_FILE, size: text_size(&t) } }))
            } else if index == 3 {
                let t = interrupts_text(&self.interrupts);
                Ok(Some(DirEntry { name: String::from_str("Interrupts"), node: VfsNode { inode: INTERRUPTS_FILE, mode: MODE_FILE, size: text_size(&t) } }))
            } else {
                Ok(None)
            }
        } else if dir_inode == PROCESSES_DIR {
            if index < self.processes.len() {
                let pid = self.processes[index].pid;
                proof {
                    assert(process_fits(self.processes@[index as int]));
                }
                let t = self.pid_text(pid);
                let mut name = String::new();
                push_digits(&mut name, pid as u64, 10);
                assert(name@ =~= dec(pid as int));
                Ok(Some(DirEntry { name, node: VfsNode { inode: PID_INODE_BASE + pid, mode: MODE_FILE, size: text_size(&t) } }))
            } else {
                Ok(None)
            }
        } else if dir_inode == DRIVERS_DIR {
            if index < self.drivers.len() {
                let entry = &self.drivers[index];
                match &entry.info {
                    Some(info) => {
                        let t = driver_text(info);
                        Ok(Some(DirEntry { name: entry.name.clone(), node: VfsNode { inode: DRIVER_INODE_BASE + index as u32, mode: MODE_FILE, size: text_size(&t) } }))
                    },
                    None => Err(VfsError::NotFound),
                }
            } else {
                Ok(None)
            }
        } else {
            Err(VfsError::NotADirectory)
        }
    }

    /// The node of `inode`: the three directories, the two counter files, a
    /// live process's file or a driver's file; `NotFound` otherwise.
    pub fn stat(&self, inode: u32) -> (r: Result<VfsNode, VfsError>)
        requires
            self.wf(),
        ensures
            r == self.spec_stat(inode),
    {
        if inode == ROOT_INODE || inode == PROCESSES_DIR || inode == DRIVERS_DIR {
            Ok(VfsNode { inode, mode: MODE_DIR, size: 0 })
        } else if inode == MEMORY_FILE {
            let t = memory_text(&self.memory);
            Ok(VfsNode { inode, mode: MODE_FILE, size: text_size(&t) })
        } else if inode == INTERRUPTS_FILE {
            let t = interrupts_text(&self.interrupts);
            Ok(VfsNode { inode, mode: MODE_FILE, size: text_size(&t) })
        } else if Self::is_pid_inode(inode) {
            let pid = Self::pid_from_inode(inode);
            let i = self.position_of_pid(pid);
            if i < self.processes.len() {
                let t = self.pid_text(pid);
                Ok(VfsNode { inode, mode: MODE_FILE, size: text_size(&t) })
            } else {
                Err(VfsError::NotFound)
            }
        } else {
            match self.get_content(inode) {
                Ok(t) => Ok(VfsNode { inode, mode: MODE_FILE, size: text_size(&t) }),
                Err(e) => Err(e),
            }
        }
    }

    /// The drive is read-only: every write is `NotImplemented`.
    pub fn write(&self, inode: u32, offset: u64, buf: &[u8]) -> (r: Result<usize, VfsError>)
        ensures
            r == Err::<usize, VfsError>(VfsError::NotImplemented),
    {
        Err(VfsError::NotImplemented)
    }

    /// The drive is read-only: no directory can be made.
    pub fn mkdir(&self, dir_inode: u32, name: &str) -> (r: Result<VfsNode, VfsError>)
        ensures
            r == Err::<VfsNode, VfsError>(VfsError::NotImplemented),
    {
        Err(VfsError::NotImplemented)
    }

    /// The drive is read-only: no file can be made.
    pub fn create(&self, dir_inode: u32, name: &str) -> (r: Result<VfsNode, VfsError>)
        ensures
            r == Err::<VfsNode, VfsError>(VfsError::NotImplemented),
    {
        Err(VfsError::NotImplemented)
    }

    /// The drive is read-only: no file can be removed.
    pub fn remove_file(&self, dir_inode: u32, name: &str) -> (r: Result<(), VfsError>)
        ensures
            r == Err::<(), VfsError>(VfsError::NotImplemented),
    {
        Err(VfsError::NotImplemented)
    }

    /// The drive is read-only: no directory can be removed.
    pub fn remove_dir(&self, dir_inode: u32, name: &str) -> (r: Result<(), VfsError>)
        ensures
            r == Err::<(), VfsError>(VfsError::NotImplemented),
    {
        Err(VfsError::NotImplemented)
    }

    /// The filesystem's name.
    pub fn fs_type(&self) -> (s: &'static str)
        ensures
            s@ == "KDrive"@,
    {
        "KDrive"
    }

    /// The drive has no sectors.
    pub fn total_sectors(&self) -> (n: u64)
        ensures
            n == 0,
    {
        0
    }
}

proof fn lemma_digit_char_value(d: nat)
    requires
        d < 10,
    ensures
        crate::fmt::digit_char(d) as int == 48 + d,
        is_digit(crate::fmt::digit_char(d)),
        crate::fmt::digit_char(d) != '+',
{
    let c = crate::fmt::digit_char(d);
    assert(c == ((48 + d) as u32) as char);
    assert(((48 + d) as u32) as char as int == 48 + d);
}

proof fn lemma_digits_parse(v: nat)
    ensures
        spec_digits(v, 10).len() > 0,
        all_digits(spec_digits(v, 10)),
        decimal_value(spec_digits(v, 10)) == v,
        spec_digits(v, 10)[0] != '+',
    decreases v,
{
    let d = spec_digits(v, 10);
    if v < 10 {
        lemma_digit_char_value(v);
        assert(d == seq![crate::fmt::digit_char(v)]);
        assert(d.drop_last() =~= Seq::<char>::empty());
        assert(decimal_value(Seq::<char>::empty()) == 0);
        assert(decimal_value(d) == decimal_value(d.drop_last()) * 10 + (d.last() as int - 48));
    } else {
        lemma_digit_char_value(v % 10);
        lemma_digits_parse(v / 10);
        let p = spec_digits(v / 10, 10);
        assert(d == p + seq![crate::fmt::digit_char(v % 10)]);
        assert(d.drop_last() =~= p);
        assert(d.last() == crate::fmt::digit_char(v % 10));
        assert(decimal_value(d) == decimal_value(p) * 10 + (v % 10));
        assert(v == (v / 10) * 10 + v % 10);
        assert(d[0] == p[0]);
        assert forall|i: int| 0 <= i < d.len() implies is_digit(#[trigger] d[i]) by {
            if i < p.len() {
                assert(d[i] == p[i]);
            }
        }
    }
}

/// A process id printed in decimal reads back as itself.
pub proof fn lemma_pid_name_roundtrip(pid: u32)
    ensures
        spec_parse_u32(dec(pid as int)) == Some(pid),
{
    lemma_digits_parse(pid as nat);
}

impl KDrive {
    /// Every entry a directory lists can be looked up by its name in that
    /// directory and reports the same node there; `stat` reports it too
    /// for the root's entries, for processes whose id is below 256 and for
    /// the first 64 drivers (the inode ranges `stat` recognises). For the
    /// driver directory this holds of a driver whose name (ignoring case)
    /// no earlier loaded driver shares.
    pub proof fn lemma_readdir_lookup_stat(&self, dir_inode: u32, index: int)
        requires
            self.wf(),
            0 <= index,
            dir_inode == DRIVERS_DIR ==> forall|j: int|
                0 <= j < index ==> !(spec_eq_ignore_case(
                    #[trigger] self.drivers@[j].name@,
                    self.drivers@[index].name@,
                ) && self.drivers@[j].info is Some),
        ensures
            self.spec_readdir(dir_inode, index) matches Ok(Some((name, node))) ==> {
                &&& self.spec_lookup(dir_inode, name) == Ok::<VfsNode, VfsError>(node)
                &&& (dir_inode == ROOT_INODE || (dir_inode == PROCESSES_DIR && node.inode
                    < PID_INODE_BASE + 256) || (dir_inode == DRIVERS_DIR && node.inode
                    < DRIVER_INODE_BASE + 64)) ==> self.spec_stat(node.inode) == Ok::<
                    VfsNode,
                    VfsError,
                >(node)
            },
    {
        if dir_inode == ROOT_INODE {
            reveal_strlit("Processes");
            reveal_strlit("PROCESSES");
            reveal_strlit("Drivers");
            reveal_strlit("DRIVERS");
            reveal_strlit("Memory");
            reveal_strlit("MEMORY");
            reveal_strlit("Interrupts");
            reveal_strlit("INTERRUPTS");
            if index == 1 {
                assert(!spec_eq_ignore_case("Drivers"@, "PROCESSES"@));
            }
            if index == 2 {
                assert(!spec_eq_ignore_case("Memory"@, "PROCESSES"@));
                assert(!spec_eq_ignore_case("Memory"@, "DRIVERS"@));
                assert(spec_ascii_upper('e') == 'E');
            }
            if index == 3 {
                assert(!spec_eq_ignore_case("Interrupts"@, "PROCESSES"@));
                assert(!spec_eq_ignore_case("Interrupts"@, "DRIVERS"@));
                assert(!spec_eq_ignore_case("Interrupts"@, "MEMORY"@));
            }
        } else if dir_inode == PROCESSES_DIR {
            if index < self.processes@.len() {
                let pid = self.processes@[index].pid;
                lemma_pid_name_roundtrip(pid);
                lemma_find_process(self.processes@, pid);
                assert(process_fits(self.processes@[index]));
                let f = find_process(self.processes@, pid);
                assert(f <= index) by {
                    if f > index {
                        assert(self.processes@[index].pid != pid);
                    }
                }
            }
        } else if dir_inode == DRIVERS_DIR {
            if index < self.drivers@.len() && self.drivers@[index].info is Some {
                let name = self.drivers@[index].name@;
                lemma_find_driver(self.drivers@, name);
                assert(spec_eq_ignore_case(name, name));
                let f = find_driver(self.drivers@, name);
                assert(f == index) by {
                    if f > index {
                        assert(!(spec_eq_ignore_case(self.drivers@[index].name@, name)
                            && self.drivers@[index].info is Some));
                    }
                }
            }
        }
    }
}

} // verus!
