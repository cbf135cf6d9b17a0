//! Syscall permission records, parallel to the dispatch table.

use vstd::prelude::*;

verus! {

/// Permission requirements for a single syscall slot.
#[derive(Debug, Clone, Copy, PartialEq, Eq, Structural)]
pub struct SyscallPermission {
    /// Capability flags required (reserved).
    pub caps: u64,
    /// Minimum ring level: 0 = kernel only, 3 = user allowed.
    pub ring_min: u8,
    /// Whether an admin token is required.
    pub admin: bool,
}

/// Synthetic capability bit for admin-only syscalls.
pub const CAP_ADMIN: u64 = 1;

impl SyscallPermission {
    /// Slot with no access (default).
    pub fn free() -> (p: Self)
        ensures
            p == (SyscallPermission { caps: 0, ring_min: 0, admin: false }),
    {
        SyscallPermission { caps: 0, ring_min: 0, admin: false }
    }

    /// Accessible from user mode (Ring 3).
    pub fn user() -> (p: Self)
        ensures
            p == (SyscallPermission { caps: 0, ring_min: 3, admin: false }),
    {
        SyscallPermission { caps: 0, ring_min: 3, admin: false }
    }

    /// Admin-only syscall (requires an admin token).
    pub fn admin() -> (p: Self)
        ensures
            p == (SyscallPermission { caps: 0, ring_min: 0, admin: true }),
    {
        SyscallPermission { caps: 0, ring_min: 0, admin: true }
    }
}

} // verus!
