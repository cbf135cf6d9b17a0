//! The decisions of the process, memory, I/O and poll syscalls: argument
//! checks, program-break planning, poll readiness and the exit protocol.
//! Each function takes what the kernel state holds as plain values and
//! returns what the handler does with it.

use vstd::prelude::*;
use crate::syscall::{err_to_u64, spec_err_to_u64, SyscallError};

verus! {

/// Size of a page.
pub const PAGE_4K: u64 = 0x1000;

/// Largest mapping one `mmap` may ask for.
pub const MMAP_MAX_LEN: u64 = 0x10_0000;

/// Largest single `read` or `write` transfer.
pub const IO_MAX_LEN: u64 = 4096;

/// Most descriptors one `poll` may watch.
pub const POLL_MAX_FDS: u64 = 256;

/// Readable.
pub const POLLIN: i16 = 1;
/// Writable.
pub const POLLOUT: i16 = 2;
/// Error (closed or unpollable handle).
pub const POLLERR: i16 = 4;
/// Peer hung up.
pub const POLLHUP: i16 = 8;

/// `x` rounded up to a multiple of 4 KiB.
pub open spec fn spec_page_up(x: int) -> int {
    ((x + 0xFFF) / 4096) * 4096
}

/// `x` rounded down to a multiple of 4 KiB.
pub open spec fn spec_page_down(x: int) -> int {
    (x / 4096) * 4096
}

fn page_up(x: u64) -> (r: u64)
    requires
        x + 0xFFF <= u64::MAX,
    ensures
        r == spec_page_up(x as int),
{
    let y: u64 = x + 0xFFF;
    let r: u64 = y & !0xFFFu64;
    assert(r == (y / 4096) * 4096) by (bit_vector)
        requires
            r == y & !0xFFFu64,
    ;
    r
}

fn page_down(x: u64) -> (r: u64)
    ensures
        r == spec_page_down(x as int),
{
    let r: u64 = x & !0xFFFu64;
    assert(r == (x / 4096) * 4096) by (bit_vector)
        requires
            r == x & !0xFFFu64,
    ;
    r
}

// ── mmap / munmap ──

/// A checked `mmap` request: the 4 KiB-rounded size and whether the mapping
/// is anonymous (flag bit 0) or backed by the file behind the handle.
#[derive(Clone, Copy, Debug, PartialEq, Eq, Structural)]
pub struct MmapRequest {
    pub alloc_size: u64,
    pub anonymous: bool,
}

/// What `mmap(length, prot, flags)` asks for, or `Inval` for a length of 0
/// or above 1 MiB, or protection bits beyond read and write.
pub open spec fn spec_mmap_request(length: u64, prot: u16, flags: u16) -> Result<MmapRequest, u64> {
    if length == 0 || length > MMAP_MAX_LEN || prot & !3u16 != 0 {
        Err(spec_err_to_u64(SyscallError::Inval))
    } else {
        Ok(MmapRequest { alloc_size: spec_page_up(length as int) as u64, anonymous: flags & 1 != 0 })
    }
}

/// Checks the arguments of `mmap` and rounds the length up to whole pages.
pub fn mmap_request(length: u64, prot: u16, flags: u16) -> (r: Result<MmapRequest, u64>)
    ensures
        r == spec_mmap_request(length, prot, flags),
{
    if length == 0 || length > MMAP_MAX_LEN {
        return Err(err_to_u64(SyscallError::Inval));
    }
    if prot & !3u16 != 0 {
        return Err(err_to_u64(SyscallError::Inval));
    }
    Ok(MmapRequest { alloc_size: page_up(length), anonymous: flags & 1 != 0 })
}

/// What a file-backed mapping learns of the file behind the handle:
/// `None` when the handle is not a file, else the lookup result as
/// `(size, is_regular_file)`, `None` inside when the lookup failed.
pub open spec fn spec_mmap_file(handle_is_file: bool, node: Option<(u64, bool)>) -> Result<u64, u64> {
    if !handle_is_file {
        Err(spec_err_to_u64(SyscallError::BadF))
    } else {
        match node {
            None => Err(spec_err_to_u64(SyscallError::NoEnt)),
            Some((size, regular)) => if regular {
                Ok(size)
            } else {
                Err(spec_err_to_u64(SyscallError::IsDir))
            },
        }
    }
}

/// Decides a file-backed mapping: `BadF` when the handle is no file,
/// `NoEnt` when the file cannot be found, `IsDir` when it is no regular
/// file; else the file size to record in the mapping.
pub fn mmap_file_check(handle_is_file: bool, node: Option<(u64, bool)>) -> (r: Result<u64, u64>)
    ensures
        r == spec_mmap_file(handle_is_file, node),
{
    if !handle_is_file {
        return Err(err_to_u64(SyscallError::BadF));
    }
    match node {
        None => Err(err_to_u64(SyscallError::NoEnt)),
        Some((size, regular)) => if regular {
            Ok(size)
        } else {
            Err(err_to_u64(SyscallError::IsDir))
        },
    }
}

/// Checks the arguments of `munmap`: `Inval` for a zero length or an address
/// that is not page-aligned.
pub fn munmap_check(addr: u64, length: u64) -> (r: Result<(), u64>)
    ensures
        r == (if length == 0 || addr % 4096 != 0 {
            Err(spec_err_to_u64(SyscallError::Inval))
        } else {
            Ok(())
        }),
{
    let low: u64 = addr & 0xFFF;
    assert(low == addr % 4096) by (bit_vector)
        requires
            low == addr & 0xFFF,
    ;
    if length == 0 || low != 0 {
        Err(err_to_u64(SyscallError::Inval))
    } else {
        Ok(())
    }
}

// ── brk ──

/// What a `brk` call does to the heap.
#[derive(Clone, Copy, Debug, PartialEq, Eq, Structural)]
pub enum BrkPlan {
    /// `brk(0)`: report the current break.
    Query { current: u64 },
    /// Map the pages `[first_page, end_page)`, zero up to the new break.
    Grow { first_page: u64, end_page: u64, new_break: u64 },
    /// Unmap the pages `[first_page, end_page)`.
    Shrink { first_page: u64, end_page: u64, new_break: u64 },
    /// The break does not move.
    Same { new_break: u64 },
}

/// The plan for `brk(new_break)` on a heap at `heap_base` of `heap_size`
/// bytes whose break is `current_break`: `NoMem` without a heap, `Inval`
/// for a break outside the heap. Growing maps the whole pages between the
/// old break rounded up and the new break rounded down; shrinking unmaps
/// those between the new break rounded up and the old one rounded down.
pub open spec fn spec_brk_plan(new_break: u64, heap_base: u64, heap_size: u64, current_break: u64) -> Result<BrkPlan, u64> {
    if heap_base == 0 {
        Err(spec_err_to_u64(SyscallError::NoMem))
    } else if new_break == 0 {
        Ok(BrkPlan::Query { current: current_break })
    } else if new_break < heap_base || new_break > heap_base + heap_size {
        Err(spec_err_to_u64(SyscallError::Inval))
    } else if new_break > current_break {
        Ok(
            BrkPlan::Grow {
                first_page: spec_page_up(current_break as int) as u64,
                end_page: spec_page_down(new_break as int) as u64,
                new_break,
            },
        )
    } else if new_break < current_break {
        Ok(
            BrkPlan::Shrink {
                first_page: spec_page_up(new_break as int) as u64,
                end_page: spec_page_down(current_break as int) as u64,
                new_break,
            },
        )
    } else {
        Ok(BrkPlan::Same { new_break })
    }
}

/// Plans a `brk` call (see `spec_brk_plan`).
pub fn brk_plan(new_break: u64, heap_base: u64, heap_size: u64, current_break: u64) -> (r: Result<BrkPlan, u64>)
    requires
        heap_base + heap_size + 0xFFF <= u64::MAX,
    ensures
        r == spec_brk_plan(new_break, heap_base, heap_size, current_break),
{
    if heap_base == 0 {
        return Err(err_to_u64(SyscallError::NoMem));
    }
    if new_break == 0 {
        return Ok(BrkPlan::Query { current: current_break });
    }
    let heap_limit = heap_base + heap_size;
    if new_break < heap_base || new_break > heap_limit {
        return Err(err_to_u64(SyscallError::Inval));
    }
    if new_break > current_break {
        Ok(
            BrkPlan::Grow {
                first_page: page_up(current_break),
                end_page: page_down(new_break),
                new_break,
            },
        )
    } else if new_break < current_break {
        Ok(
            BrkPlan::Shrink {
                first_page: page_up(new_break),
                end_page: page_down(current_break),
                new_break,
            },
        )
    } else {
        Ok(BrkPlan::Same { new_break })
    }
}

// ── read / write ──

/// What a handle in the process's table refers to, as far as the I/O and
/// poll syscalls care.
#[derive(Clone, Copy, Debug, PartialEq, Eq, Structural)]
pub enum HandleKind {
    Closed,
    Stdin,
    Stdout,
    Stderr,
    /// The read end of a pipe: whether data waits, whether every writer
    /// is gone.
    PipeRead { ready: bool, write_closed: bool },
    PipeWrite,
    File,
    Directory,
    /// Any other object.
    Other,
}

/// Where a `write` goes.
#[derive(Clone, Copy, Debug, PartialEq, Eq, Structural)]
pub enum WriteRoute {
    Console,
    Pipe,
    File,
}

/// Where a `read` comes from.
#[derive(Clone, Copy, Debug, PartialEq, Eq, Structural)]
pub enum ReadRoute {
    Keyboard,
    Pipe,
}

/// `Fault` for a buffer outside the process or longer than 4096 bytes.
pub open spec fn spec_io_buffer_check(buffer_valid: bool, len: u64) -> Result<(), u64> {
    if !buffer_valid || len > IO_MAX_LEN {
        Err(spec_err_to_u64(SyscallError::Fault))
    } else {
        Ok(())
    }
}

/// Checks the buffer of a `read` or `write`; `buffer_valid` is whether it
/// lies in the process's address space.
pub fn io_buffer_check(buffer_valid: bool, len: u64) -> (r: Result<(), u64>)
    ensures
        r == spec_io_buffer_check(buffer_valid, len),
{
    if !buffer_valid || len > IO_MAX_LEN {
        Err(err_to_u64(SyscallError::Fault))
    } else {
        Ok(())
    }
}

/// Standard output and error go to the console, a pipe's write end to the
/// pipe, a file to the volume; anything else is `BadF`.
pub fn write_route(kind: HandleKind) -> (r: Result<WriteRoute, u64>)
    ensures
        r == (match kind {
            HandleKind::Stdout | HandleKind::Stderr => Ok(WriteRoute::Console),
            HandleKind::PipeWrite => Ok(WriteRoute::Pipe),
            HandleKind::File => Ok(WriteRoute::File),
            _ => Err(spec_err_to_u64(SyscallError::BadF)),
        }),
{
    match kind {
        HandleKind::Stdout | HandleKind::Stderr => Ok(WriteRoute::Console),
        HandleKind::PipeWrite => Ok(WriteRoute::Pipe),
        HandleKind::File => Ok(WriteRoute::File),
        _ => Err(err_to_u64(SyscallError::BadF)),
    }
}

/// Standard input reads the keyboard, a pipe's read end the pipe; anything
/// else is `BadF`.
pub fn read_route(kind: HandleKind) -> (r: Result<ReadRoute, u64>)
    ensures
        r == (match kind {
            HandleKind::Stdin => Ok(ReadRoute::Keyboard),
            HandleKind::PipeRead { .. } => Ok(ReadRoute::Pipe),
            _ => Err(spec_err_to_u64(SyscallError::BadF)),
        }),
{
    match kind {
        HandleKind::Stdin => Ok(ReadRoute::Keyboard),
        HandleKind::PipeRead { .. } => Ok(ReadRoute::Pipe),
        _ => Err(err_to_u64(SyscallError::BadF)),
    }
}

/// Whether a byte ends a line of keyboard input.
pub open spec fn is_line_end(b: u8) -> bool {
    b == 13 || b == 10
}

/// How many of the typed bytes `input` a keyboard read of `count` bytes
/// takes: up to and including the first carriage return or line feed, at
/// most `count`, at most what was typed.
pub open spec fn spec_line_take(input: Seq<u8>, count: int) -> int
    decreases input.len(),
{
    if count <= 0 || input.len() == 0 {
        0
    } else if is_line_end(input[0]) {
        1
    } else {
        1 + spec_line_take(input.drop_first(), count - 1)
    }
}

/// The number of typed bytes a keyboard read of `count` bytes consumes
/// (see `spec_line_take`).
pub fn keyboard_take(input: &[u8], count: usize) -> (n: usize)
    ensures
        n == spec_line_take(input@, count as int),
        n <= count,
        n <= input@.len(),
{
    let mut i: usize = 0;
    assert(input@.subrange(0, input@.len() as int) =~= input@);
    while i < count && i < input.len()
        invariant
            i <= count,
            i <= input.len(),
            forall|j: int| 0 <= j < i ==> !is_line_end(#[trigger] input@[j]),
            spec_line_take(input@, count as int) == i + spec_line_take(
                input@.subrange(i as int, input@.len() as int),
                count - i,
            ),
        decreases count - i,
    {
        let ghost rest = input@.subrange(i as int, input@.len() as int);
        assert(rest[0] == input@[i as int]);
        assert(rest.drop_first() =~= input@.subrange(i + 1, input@.len() as int));
        if input[i] == 13 || input[i] == 10 {
            return i + 1;
        }
        i = i + 1;
    }
    i
}

// ── poll ──

/// A `poll` descriptor as the caller lays it out.
#[derive(Clone, Copy, Debug, PartialEq, Eq, Structural)]
pub struct PollFd {
    pub fd: i32,
    pub events: i16,
    pub revents: i16,
}

/// `Inval` for a null array or a count of 0 or above 256; else the count.
pub fn poll_args_check(fds_ptr: u64, nfds: u64) -> (r: Result<usize, u64>)
    ensures
        r == (if fds_ptr == 0 || nfds == 0 || nfds > POLL_MAX_FDS {
            Err(spec_err_to_u64(SyscallError::Inval))
        } else {
            Ok(nfds as usize)
        }),
{
    if fds_ptr == 0 || nfds == 0 || nfds > POLL_MAX_FDS {
        Err(err_to_u64(SyscallError::Inval))
    } else {
        Ok(nfds as usize)
    }
}

/// `bit` when `events` asks for it, else 0.
pub open spec fn spec_wanted(events: i16, bit: i16) -> i16 {
    if events & bit != 0 {
        bit
    } else {
        0
    }
}

/// The events reported for descriptor `fd` watching `events` on a handle of
/// `kind`: nothing for a negative descriptor; an error for a closed or
/// unpollable handle; standard input is always readable, standard output
/// and error and a pipe's write end always writable, files and directories
/// both; a pipe's read end is readable when data waits and hung up when
/// every writer is gone.
pub open spec fn spec_revents(fd: i32, events: i16, kind: HandleKind) -> i16 {
    if fd < 0 {
        0
    } else {
        match kind {
            HandleKind::Closed => POLLERR,
            HandleKind::Stdin => spec_wanted(events, POLLIN),
            HandleKind::Stdout | HandleKind::Stderr | HandleKind::PipeWrite => spec_wanted(
                events,
                POLLOUT,
            ),
            HandleKind::PipeRead { ready, write_closed } => (if ready {
                spec_wanted(events, POLLIN)
            } else {
                0
            }) | (if write_closed {
                POLLHUP
            } else {
                0
            }),
            HandleKind::File | HandleKind::Directory => spec_wanted(events, POLLIN) | spec_wanted(
                events,
                POLLOUT,
            ),
            HandleKind::Other => POLLERR,
        }
    }
}

/// The events `poll` reports on one descriptor, stated on the bits: a
/// negative descriptor reports nothing; standard output and error and a
/// pipe's write end report exactly the `POLLOUT` bit asked for, standard
/// input the `POLLIN` bit, files and directories both bits asked for; a
/// pipe's read end reports the `POLLIN` bit asked for while data waits, and
/// `POLLHUP` (asked for or not) once every writer is gone; a closed or
/// unpollable handle reports `POLLERR`.
pub proof fn lemma_poll_reports(fd: i32, events: i16, kind: HandleKind)
    ensures
        fd < 0 ==> spec_revents(fd, events, kind) == 0,
        fd >= 0 && (kind == HandleKind::Stdout || kind == HandleKind::Stderr || kind
            == HandleKind::PipeWrite) ==> spec_revents(fd, events, kind) == events & 2,
        fd >= 0 && kind == HandleKind::Stdin ==> spec_revents(fd, events, kind) == events & 1,
        fd >= 0 && (kind == HandleKind::File || kind == HandleKind::Directory) ==> spec_revents(
            fd,
            events,
            kind,
        ) == events & 3,
        fd >= 0 && (kind == HandleKind::Closed || kind == HandleKind::Other) ==> spec_revents(
            fd,
            events,
            kind,
        ) == 4,
        fd >= 0 && kind == (HandleKind::PipeRead { ready: true, write_closed: false })
            ==> spec_revents(fd, events, kind) == events & 1,
        fd >= 0 && kind == (HandleKind::PipeRead { ready: false, write_closed: false })
            ==> spec_revents(fd, events, kind) == 0,
        fd >= 0 && kind == (HandleKind::PipeRead { ready: false, write_closed: true })
            ==> spec_revents(fd, events, kind) == 8,
        fd >= 0 && kind == (HandleKind::PipeRead { ready: true, write_closed: true })
            ==> spec_revents(fd, events, kind) == (events & 1) | 8,
{
    assert((if events & 2 != 0 { 2i16 } else { 0i16 }) == events & 2) by (bit_vector);
    assert((if events & 1 != 0 { 1i16 } else { 0i16 }) == events & 1) by (bit_vector);
    assert(((if events & 1 != 0 { 1i16 } else { 0i16 }) | (if events & 2 != 0 { 2i16 } else { 0i16 }))
        == events & 3) by (bit_vector);
    assert((if events & 1 != 0 { 1i16 } else { 0i16 }) | 0i16 == events & 1) by (bit_vector);
    assert(0i16 | 0i16 == 0i16) by (bit_vector);
    assert(0i16 | 8i16 == 8i16) by (bit_vector);
    assert((if events & 1 != 0 { 1i16 } else { 0i16 }) | 8i16 == (events & 1) | 8) by (bit_vector);
}

fn wanted(events: i16, bit: i16) -> (r: i16)
    ensures
        r == spec_wanted(events, bit),
{
    if events & bit != 0 {
        bit
    } else {
        0
    }
}

/// The events to report for one descriptor (see `spec_revents`).
pub fn poll_revents(fd: i32, events: i16, kind: HandleKind) -> (r: i16)
    ensures
        r == spec_revents(fd, events, kind),
{
    if fd < 0 {
        return 0;
    }
    match kind {
        HandleKind::Closed => POLLERR,
        HandleKind::Stdin => wanted(events, POLLIN),
        HandleKind::Stdout | HandleKind::Stderr | HandleKind::PipeWrite => wanted(events, POLLOUT),
        HandleKind::PipeRead { ready, write_closed } => {
            let rin: i16 = if ready {
                wanted(events, POLLIN)
            } else {
                0
            };
            let hup: i16 = if write_closed {
                POLLHUP
            } else {
                0
            };
            rin | hup
        },
        HandleKind::File | HandleKind::Directory => wanted(events, POLLIN) | wanted(events, POLLOUT),
        HandleKind::Other => POLLERR,
    }
}

/// How many descriptors of `fds` report some event.
pub open spec fn spec_ready_count(fds: Seq<PollFd>) -> nat
    decreases fds.len(),
{
    if fds.len() == 0 {
        0
    } else {
        spec_ready_count(fds.drop_last()) + (if fds.last().revents != 0 {
            1nat
        } else {
            0nat
        })
    }
}

/// Fills in the reported events of every descriptor, `kinds[i]` being the
/// handle behind `fds[i]`, and returns how many report some event.
pub fn poll_fds(fds: &mut Vec<PollFd>, kinds: &[HandleKind]) -> (ready: u64)
    requires
        old(fds)@.len() == kinds@.len(),
        old(fds)@.len() <= POLL_MAX_FDS,
    ensures
        final(fds)@.len() == old(fds)@.len(),
        forall|i: int|
            0 <= i < final(fds)@.len() ==> (#[trigger] final(fds)@[i]).fd == old(fds)@[i].fd
                && final(fds)@[i].events == old(fds)@[i].events && final(fds)@[i].revents
                == spec_revents(old(fds)@[i].fd, old(fds)@[i].events, kinds@[i]),
        ready == spec_ready_count(final(fds)@),
{
    let ghost orig = fds@;
    let mut ready: u64 = 0;
    let mut i: usize = 0;
    while i < fds.len()
        invariant
            fds@.len() == orig.len(),
            orig.len() == kinds@.len(),
            orig.len() <= POLL_MAX_FDS,
            i <= fds@.len(),
            forall|j: int|
                0 <= j < i ==> (#[trigger] fds@[j]).fd == orig[j].fd && fds@[j].events
                    == orig[j].events && fds@[j].revents == spec_revents(
                    orig[j].fd,
                    orig[j].events,
                    kinds@[j],
                ),
            forall|j: int| i <= j < fds@.len() ==> #[trigger] fds@[j] == orig[j],
            ready == spec_ready_count(fds@.subrange(0, i as int)),
            ready <= i,
        decreases fds@.len() - i,
    {
        let entry = fds[i];
        let rev = poll_revents(entry.fd, entry.events, kinds[i]);
        let ghost prev = fds@;
        fds.set(i, PollFd { fd: entry.fd, events: entry.events, revents: rev });
        proof {
            assert(fds@.subrange(0, i as int) =~= prev.subrange(0, i as int));
            let pre = fds@.subrange(0, i + 1);
            assert(pre.drop_last() =~= fds@.subrange(0, i as int));
            assert(pre.last() == fds@[i as int]);
        }
        if rev != 0 {
            ready = ready + 1;
        }
        i = i + 1;
    }
    assert(fds@.subrange(0, i as int) =~= fds@);
    ready
}

// ── cursor, waitpid, exit ──

/// The console cursor switch: 0 steady, 1 blinking, any
/// other argument `Inval`.
pub fn cursor_blink_request(arg: u64) -> (r: Result<bool, u64>)
    ensures
        r == (if arg == 0 {
            Ok(false)
        } else if arg == 1 {
            Ok(true)
        } else {
            Err(spec_err_to_u64(SyscallError::Inval))
        }),
{
    if arg == 0 {
        Ok(false)
    } else if arg == 1 {
        Ok(true)
    } else {
        Err(err_to_u64(SyscallError::Inval))
    }
}

/// The `waitpid` argument that means "any child".
pub const WAIT_ANY_CHILD: u32 = 0xFFFF_FFFF;

/// What `waitpid` does.
#[derive(Clone, Copy, Debug, PartialEq, Eq, Structural)]
pub enum WaitPidAction {
    /// Reap the child and return its pid.
    ReapChild(u32),
    /// No child has exited: yield and return 0.
    YieldNone,
    /// The awaited process has exited: reap it and return 0.
    ReapTarget(u32),
    /// Block until the awaited process exits; the call returns `Again`.
    Block(u32),
}

/// Decides `waitpid(wait_pid)`. For "any child", `exited_child` is the first
/// child of the caller with no threads left, if any. Otherwise
/// `target_running` is whether the awaited process exists and still has
/// threads; a process that does not exist counts as exited.
pub fn waitpid_action(wait_pid: u32, exited_child: Option<u32>, target_running: bool) -> (r: WaitPidAction)
    ensures
        r == (if wait_pid == WAIT_ANY_CHILD {
            match exited_child {
                Some(pid) => WaitPidAction::ReapChild(pid),
                None => WaitPidAction::YieldNone,
            }
        } else if target_running {
            WaitPidAction::Block(wait_pid)
        } else {
            WaitPidAction::ReapTarget(wait_pid)
        }),
{
    if wait_pid == WAIT_ANY_CHILD {
        match exited_child {
            Some(pid) => WaitPidAction::ReapChild(pid),
            None => WaitPidAction::YieldNone,
        }
    } else if target_running {
        WaitPidAction::Block(wait_pid)
    } else {
        WaitPidAction::ReapTarget(wait_pid)
    }
}

/// What `exit` does beyond terminating the calling thread.
#[derive(Clone, Copy, Debug, PartialEq, Eq, Structural)]
pub struct ExitPlan {
    /// The process's thread count afterwards (`None`: no process record).
    pub thread_count: Option<u32>,
    /// The last thread left: free the address space and close every handle.
    pub free_process: bool,
    /// Wake threads blocked joining this thread.
    pub wake_joiners: bool,
    /// Wake threads blocked waiting for this process.
    pub wake_parent_waiters: bool,
    /// The console waits on this process and it is gone: return to the shell.
    pub return_to_kernel: bool,
    /// Queue the release of the process record for a safe point.
    pub defer_cleanup: bool,
}

/// The exit of thread `tid` of process `pid` whose record holds
/// `thread_count` threads (`None`: no record), while the console waits on
/// process `waited_pid`. Thread 0 is the kernel's own and exits nothing.
pub open spec fn spec_exit_plan(tid: u32, pid: u32, thread_count: Option<u32>, waited_pid: u32) -> ExitPlan {
    if tid == 0 {
        ExitPlan {
            thread_count,
            free_process: false,
            wake_joiners: false,
            wake_parent_waiters: false,
            return_to_kernel: false,
            defer_cleanup: false,
        }
    } else {
        let after: Option<u32> = if pid > 0 {
            match thread_count {
                Some(n) => Some(if n == 0 { 0u32 } else { (n - 1) as u32 }),
                None => None,
            }
        } else {
            thread_count
        };
        let last = pid > 0 && after == Some(0u32);
        ExitPlan {
            thread_count: after,
            free_process: last,
            wake_joiners: true,
            wake_parent_waiters: pid > 0,
            return_to_kernel: pid > 0 && (after is None || after == Some(0u32)) && pid
                == waited_pid,
            defer_cleanup: last,
        }
    }
}

/// Plans an `exit` (see `spec_exit_plan`).
pub fn exit_plan(tid: u32, pid: u32, thread_count: Option<u32>, waited_pid: u32) -> (r: ExitPlan)
    ensures
        r == spec_exit_plan(tid, pid, thread_count, waited_pid),
{
    if tid == 0 {
        return ExitPlan {
            thread_count,
            free_process: false,
            wake_joiners: false,
            wake_parent_waiters: false,
            return_to_kernel: false,
            defer_cleanup: false,
        };
    }
    let after: Option<u32> = if pid > 0 {
        match thread_count {
            Some(n) => Some(n.saturating_sub(1)),
            None => None,
        }
    } else {
        thread_count
    };
    let gone = match after {
        Some(n) => n == 0,
        None => true,
    };
    let last = pid > 0 && match after {
        Some(n) => n == 0,
        None => false,
    };
    ExitPlan {
        thread_count: after,
        free_process: last,
        wake_joiners: true,
        wake_parent_waiters: pid > 0,
        return_to_kernel: pid > 0 && gone && pid == waited_pid,
        defer_cleanup: last,
    }
}

} // verus!
