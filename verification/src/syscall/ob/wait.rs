//! The object-wait and object-enumerate syscalls: their argument checks,
//! what a wait blocks on for each kind of object, and whether an
//! enumeration lists a volume directory or the object namespace.

use vstd::prelude::*;
use crate::syscall::{err_to_u64, spec_err_to_u64, SyscallError};
use crate::syscall::ob::set::GLOBAL_FS_PREFIX;
use crate::vfs::mount::{is_prefix, starts_with};

verus! {

/// Bytes of one handle in a wait array.
pub const WAIT_HANDLE_SIZE: u64 = 8;

/// `Inval` for an empty or missing handle array or a wait type above 1,
/// `Fault` for an array outside the process, `NoSys` for more than one
/// handle.
pub open spec fn spec_wait_args(handle_count: u64, handles_ptr: u64, array_valid: bool, wait_type: u32) -> Result<(), u64> {
    if handle_count == 0 || handles_ptr == 0 {
        Err(spec_err_to_u64(SyscallError::Inval))
    } else if !array_valid {
        Err(spec_err_to_u64(SyscallError::Fault))
    } else if handle_count > 1 {
        Err(spec_err_to_u64(SyscallError::NoSys))
    } else if wait_type > 1 {
        Err(spec_err_to_u64(SyscallError::Inval))
    } else {
        Ok(())
    }
}

/// Checks the arguments of an object wait (see `spec_wait_args`).
pub fn wait_args_check(handle_count: u64, handles_ptr: u64, array_valid: bool, wait_type: u32) -> (r: Result<(), u64>)
    ensures
        r == spec_wait_args(handle_count, handles_ptr, array_valid, wait_type),
{
    if handle_count == 0 || handles_ptr == 0 {
        Err(err_to_u64(SyscallError::Inval))
    } else if !array_valid {
        Err(err_to_u64(SyscallError::Fault))
    } else if handle_count > 1 {
        Err(err_to_u64(SyscallError::NoSys))
    } else if wait_type > 1 {
        Err(err_to_u64(SyscallError::Inval))
    } else {
        Ok(())
    }
}

/// The object a wait names, with what the kernel knows of it at that
/// moment.
#[derive(Clone, Copy, Debug, PartialEq, Eq, Structural)]
pub enum WaitTarget {
    /// A process; `alive` when it exists and has threads.
    Process { pid: u32, alive: bool },
    /// A pipe; `readable` when data waits in it.
    Pipe { id: u8, readable: bool },
    Event { event_type: u32 },
    Timer { id: u32 },
    /// A semaphore; `acquired` when the non-blocking take succeeded.
    Semaphore { id: u32, acquired: bool },
    Thread { tid: u32 },
    /// Any other object.
    Other,
}

/// What a blocked thread waits for.
#[derive(Clone, Copy, Debug, PartialEq, Eq, Structural)]
pub enum WaitReason {
    ChildExit { pid: u32 },
    PipeRead { pipe_id: u16 },
    Event { event_type: u32 },
    Timer { timer_id: u32 },
    Semaphore { sem_id: u32 },
    ThreadJoin { tid: u32 },
}

/// What an object wait does.
#[derive(Clone, Copy, Debug, PartialEq, Eq, Structural)]
pub enum WaitPlan {
    /// Already signalled: return 0 at once.
    Signalled,
    /// The awaited process is already gone: release it and return 0.
    ReapExited { pid: u32 },
    /// Make the awaited process's suspended threads ready, then block on
    /// its exit (atomically with the check) and return 0.
    StartChildAndBlock { pid: u32 },
    /// Block for `reason`, then return 0.
    Block { reason: WaitReason },
    /// The object cannot be waited on: `NoSys`.
    Unsupported,
}

/// The plan for waiting on `t`.
pub open spec fn spec_wait_plan(t: WaitTarget) -> WaitPlan {
    match t {
        WaitTarget::Process { pid, alive } => if pid == 0 {
            WaitPlan::Block { reason: WaitReason::ChildExit { pid } }
        } else if alive {
            WaitPlan::StartChildAndBlock { pid }
        } else {
            WaitPlan::ReapExited { pid }
        },
        WaitTarget::Pipe { id, readable } => if readable {
            WaitPlan::Signalled
        } else {
            WaitPlan::Block { reason: WaitReason::PipeRead { pipe_id: id as u16 } }
        },
        WaitTarget::Event { event_type } => WaitPlan::Block {
            reason: WaitReason::Event { event_type },
        },
        WaitTarget::Timer { id } => WaitPlan::Block { reason: WaitReason::Timer { timer_id: id } },
        WaitTarget::Semaphore { id, acquired } => if acquired {
            WaitPlan::Signalled
        } else {
            WaitPlan::Block { reason: WaitReason::Semaphore { sem_id: id } }
        },
        WaitTarget::Thread { tid } => WaitPlan::Block { reason: WaitReason::ThreadJoin { tid } },
        WaitTarget::Other => WaitPlan::Unsupported,
    }
}

/// Decides an object wait (see `spec_wait_plan`).
pub fn wait_plan(t: WaitTarget) -> (p: WaitPlan)
    ensures
        p == spec_wait_plan(t),
{
    match t {
        WaitTarget::Process { pid, alive } => if pid == 0 {
            WaitPlan::Block { reason: WaitReason::ChildExit { pid } }
        } else if alive {
            WaitPlan::StartChildAndBlock { pid }
        } else {
            WaitPlan::ReapExited { pid }
        },
        WaitTarget::Pipe { id, readable } => if readable {
            WaitPlan::Signalled
        } else {
            WaitPlan::Block { reason: WaitReason::PipeRead { pipe_id: id as u16 } }
        },
        WaitTarget::Event { event_type } => WaitPlan::Block {
            reason: WaitReason::Event { event_type },
        },
        WaitTarget::Timer { id } => WaitPlan::Block { reason: WaitReason::Timer { timer_id: id } },
        WaitTarget::Semaphore { id, acquired } => if acquired {
            WaitPlan::Signalled
        } else {
            WaitPlan::Block { reason: WaitReason::Semaphore { sem_id: id } }
        },
        WaitTarget::Thread { tid } => WaitPlan::Block { reason: WaitReason::ThreadJoin { tid } },
        WaitTarget::Other => WaitPlan::Unsupported,
    }
}

/// `Inval` for a missing array or a count of 0, `Fault` for an array
/// outside the process, `BadF` for a closed directory handle.
pub fn enum_args_check(buf_ptr: u64, max_entries: u64, array_valid: bool, handle_open: bool) -> (r: Result<(), u64>)
    ensures
        r == (if buf_ptr == 0 || max_entries == 0 {
            Err(spec_err_to_u64(SyscallError::Inval))
        } else if !array_valid {
            Err(spec_err_to_u64(SyscallError::Fault))
        } else if !handle_open {
            Err(spec_err_to_u64(SyscallError::BadF))
        } else {
            Ok(())
        }),
{
    if buf_ptr == 0 || max_entries == 0 {
        Err(err_to_u64(SyscallError::Inval))
    } else if !array_valid {
        Err(err_to_u64(SyscallError::Fault))
    } else if !handle_open {
        Err(err_to_u64(SyscallError::BadF))
    } else {
        Ok(())
    }
}

/// The byte size of an enumeration array of `max_entries` records of
/// `entry_size` bytes, saturating at `u64::MAX`.
pub fn enum_array_size(entry_size: u64, max_entries: u64) -> (n: u64)
    ensures
        n == (if entry_size * max_entries > u64::MAX {
            u64::MAX as int
        } else {
            entry_size * max_entries
        }),
{
    match entry_size.checked_mul(max_entries) {
        Some(n) => n,
        None => u64::MAX,
    }
}

/// Whether a directory handle lists a volume directory: it names a file or
/// directory object whose name lies under `\Global\FileSystem\` or starts
/// with `dir/` or `file/`.
pub open spec fn spec_enum_uses_volume(is_file_object: bool, obj_name: Option<Seq<char>>) -> bool {
    is_file_object && match obj_name {
        None => false,
        Some(n) => is_prefix(GLOBAL_FS_PREFIX@, n) || is_prefix("dir/"@, n) || is_prefix(
            "file/"@,
            n,
        ),
    }
}

/// Decides whether an enumeration lists a volume directory (see
/// `spec_enum_uses_volume`); `obj_name` is the handle's object name, if the
/// handle has an object.
pub fn enum_uses_volume(is_file_object: bool, obj_name: Option<&str>) -> (b: bool)
    ensures
        b == spec_enum_uses_volume(is_file_object, match obj_name {
            None => None,
            Some(s) => Some(s@),
        }),
{
    if !is_file_object {
        return false;
    }
    match obj_name {
        None => false,
        Some(n) => starts_with(n, GLOBAL_FS_PREFIX) || starts_with(n, "dir/") || starts_with(
            n,
            "file/",
        ),
    }
}

} // verus!
