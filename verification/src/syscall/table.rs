//! Register snapshot handed to every syscall handler.

use vstd::prelude::*;

verus! {

/// Snapshot of the user registers passed to every syscall handler.
#[derive(Debug, Clone, Copy, PartialEq, Eq, Structural)]
pub struct Registers {
    pub rax: u64,
    pub rbx: u64,
    pub rcx: u64,
    pub rdx: u64,
    pub r8: u64,
    pub r9: u64,
}

/// Highest syscall number expected to have a handler in the legacy layout.
pub const MAX_SYSCALL: u64 = 58;

impl Registers {
    pub fn new(rax: u64, rbx: u64, rcx: u64, rdx: u64, r8: u64, r9: u64) -> (r: Self)
        ensures
            r == (Registers { rax, rbx, rcx, rdx, r8, r9 }),
    {
        Registers { rax, rbx, rcx, rdx, r8, r9 }
    }
}

} // verus!
