//! SSDT: the indexed syscall dispatch table and its parallel permission table.

use vstd::prelude::*;
use crate::syscall::{err_to_u64, spec_err_to_u64, SyscallError};
use crate::syscall::permission::SyscallPermission;
use crate::syscall::table::Registers;

verus! {

/// Number of slots in the dispatch and permission tables.
pub const TABLE_SLOTS: u64 = 256;

/// The handler registered in a dispatch-table slot.
#[derive(Debug, Clone, Copy, PartialEq, Eq, Structural)]
pub enum SyscallHandler {
    Exit,
    Yield,
    WaitAlertable,
    SleepEx,
    SetExceptionHandler,
    Brk,
    Mmap,
    Munmap,
    Write,
    Read,
    Dup2,
    Close,
    Poll,
    LoadLib,
    CursorBlink,
    DriverUnload,
    IcmpPing,
    ObOpen,
    ObCreate,
    ObQueryInfo,
    ObSetInfo,
    ObEnum,
    ObWait,
    ObDestroy,
    ObService,
    ObSnapshot,
    CmOpenKey,
    CmCreateKey,
    CmQueryValue,
    CmSetValue,
    CmEnumKey,
    CmEnumValue,
    CmDeleteKey,
    CmFlushKey,
    CmLoadHive,
    CmUnloadHive,
}

/// The dispatch table: which handler (if any) serves each syscall number.
pub open spec fn spec_handler(n: u64) -> Option<SyscallHandler> {
    match n {
        0 => Some(SyscallHandler::Exit),
        1 => Some(SyscallHandler::Yield),
        2 => Some(SyscallHandler::WaitAlertable),
        3 => Some(SyscallHandler::SleepEx),
        4 => Some(SyscallHandler::SetExceptionHandler),
        10 => Some(SyscallHandler::Brk),
        11 => Some(SyscallHandler::Mmap),
        12 => Some(SyscallHandler::Munmap),
        20 => Some(SyscallHandler::Write),
        21 => Some(SyscallHandler::Read),
        22 => Some(SyscallHandler::Dup2),
        23 => Some(SyscallHandler::Close),
        24 => Some(SyscallHandler::Poll),
        25 => Some(SyscallHandler::LoadLib),
        30 => Some(SyscallHandler::CursorBlink),
        35 => Some(SyscallHandler::DriverUnload),
        36 => Some(SyscallHandler::IcmpPing),
        40 => Some(SyscallHandler::ObOpen),
        41 => Some(SyscallHandler::ObCreate),
        42 => Some(SyscallHandler::ObQueryInfo),
        43 => Some(SyscallHandler::ObSetInfo),
        44 => Some(SyscallHandler::ObEnum),
        45 => Some(SyscallHandler::ObWait),
        46 => Some(SyscallHandler::ObDestroy),
        47 => Some(SyscallHandler::ObService),
        48 => Some(SyscallHandler::ObSnapshot),
        50 => Some(SyscallHandler::CmOpenKey),
        51 => Some(SyscallHandler::CmCreateKey),
        52 => Some(SyscallHandler::CmQueryValue),
        53 => Some(SyscallHandler::CmSetValue),
        54 => Some(SyscallHandler::CmEnumKey),
        55 => Some(SyscallHandler::CmEnumValue),
        56 => Some(SyscallHandler::CmDeleteKey),
        57 => Some(SyscallHandler::CmFlushKey),
        58 => Some(SyscallHandler::CmLoadHive),
        59 => Some(SyscallHandler::CmUnloadHive),
        _ => None,
    }
}

/// Syscall numbers that require an admin token.
pub open spec fn spec_admin_only(n: u64) -> bool {
    n == 35 || n == 47 || n == 48 || n == 58 || n == 59
}

/// The permission table: admin-only slots, user slots (every other slot with
/// a handler), and free slots.
pub open spec fn spec_permission(n: u64) -> SyscallPermission {
    if spec_admin_only(n) {
        SyscallPermission { caps: 0, ring_min: 0, admin: true }
    } else if spec_handler(n).is_some() {
        SyscallPermission { caps: 0, ring_min: 3, admin: false }
    } else {
        SyscallPermission { caps: 0, ring_min: 0, admin: false }
    }
}

/// Syscall numbers that the frozen ABI assigns, in table order.
pub open spec fn spec_assigned() -> Seq<u64> {
    seq![
        0u64, 1, 2, 3, 4,
        10, 11, 12,
        20, 21, 22, 23, 24, 25,
        30, 35,
        40, 41, 42, 43, 44, 45, 46, 47, 48,
        50, 51, 52, 53, 54, 55, 56, 57, 58, 59,
    ]
}

/// The handler of a table slot.
pub fn handler_for(n: u64) -> (h: Option<SyscallHandler>)
    ensures
        h == spec_handler(n),
{
    match n {
        0 => Some(SyscallHandler::Exit),
        1 => Some(SyscallHandler::Yield),
        2 => Some(SyscallHandler::WaitAlertable),
        3 => Some(SyscallHandler::SleepEx),
        4 => Some(SyscallHandler::SetExceptionHandler),
        10 => Some(SyscallHandler::Brk),
        11 => Some(SyscallHandler::Mmap),
        12 => Some(SyscallHandler::Munmap),
        20 => Some(SyscallHandler::Write),
        21 => Some(SyscallHandler::Read),
        22 => Some(SyscallHandler::Dup2),
        23 => Some(SyscallHandler::Close),
        24 => Some(SyscallHandler::Poll),
        25 => Some(SyscallHandler::LoadLib),
        30 => Some(SyscallHandler::CursorBlink),
        35 => Some(SyscallHandler::DriverUnload),
        36 => Some(SyscallHandler::IcmpPing),
        40 => Some(SyscallHandler::ObOpen),
        41 => Some(SyscallHandler::ObCreate),
        42 => Some(SyscallHandler::ObQueryInfo),
        43 => Some(SyscallHandler::ObSetInfo),
        44 => Some(SyscallHandler::ObEnum),
        45 => Some(SyscallHandler::ObWait),
        46 => Some(SyscallHandler::ObDestroy),
        47 => Some(SyscallHandler::ObService),
        48 => Some(SyscallHandler::ObSnapshot),
        50 => Some(SyscallHandler::CmOpenKey),
        51 => Some(SyscallHandler::CmCreateKey),
        52 => Some(SyscallHandler::CmQueryValue),
        53 => Some(SyscallHandler::CmSetValue),
        54 => Some(SyscallHandler::CmEnumKey),
        55 => Some(SyscallHandler::CmEnumValue),
        56 => Some(SyscallHandler::CmDeleteKey),
        57 => Some(SyscallHandler::CmFlushKey),
        58 => Some(SyscallHandler::CmLoadHive),
        59 => Some(SyscallHandler::CmUnloadHive),
        _ => None,
    }
}

/// The permission record of a table slot.
pub fn permission_for(n: u64) -> (p: SyscallPermission)
    ensures
        p == spec_permission(n),
{
    if n == 35 || n == 47 || n == 48 || n == 58 || n == 59 {
        SyscallPermission::admin()
    } else if handler_for(n).is_some() {
        SyscallPermission::user()
    } else {
        SyscallPermission::free()
    }
}

/// Build the 256-slot dispatch table.
pub fn syscall_table() -> (t: Vec<Option<SyscallHandler>>)
    ensures
        t@.len() == TABLE_SLOTS,
        forall|i: int| 0 <= i < TABLE_SLOTS ==> #[trigger] t@[i] == spec_handler(i as u64),
{
    let mut t: Vec<Option<SyscallHandler>> = Vec::new();
    let mut i: u64 = 0;
    while i < TABLE_SLOTS
        invariant
            i <= TABLE_SLOTS,
            t@.len() == i,
            forall|j: int| 0 <= j < i ==> #[trigger] t@[j] == spec_handler(j as u64),
        decreases TABLE_SLOTS - i,
    {
        t.push(handler_for(i));
        i = i + 1;
    }
    t
}

/// Build the 256-slot permission table.
pub fn syscall_permissions() -> (t: Vec<SyscallPermission>)
    ensures
        t@.len() == TABLE_SLOTS,
        forall|i: int| 0 <= i < TABLE_SLOTS ==> #[trigger] t@[i] == spec_permission(i as u64),
{
    let mut t: Vec<SyscallPermission> = Vec::new();
    let mut i: u64 = 0;
    while i < TABLE_SLOTS
        invariant
            i <= TABLE_SLOTS,
            t@.len() == i,
            forall|j: int| 0 <= j < i ==> #[trigger] t@[j] == spec_permission(j as u64),
        decreases TABLE_SLOTS - i,
    {
        t.push(permission_for(i));
        i = i + 1;
    }
    t
}

/// The assigned syscall numbers, in table order.
pub fn assigned_syscalls() -> (v: Vec<u64>)
    ensures
        v@ == spec_assigned(),
{
    let v: Vec<u64> = vec![
        0, 1, 2, 3, 4,
        10, 11, 12,
        20, 21, 22, 23, 24, 25,
        30, 35,
        40, 41, 42, 43, 44, 45, 46, 47, 48,
        50, 51, 52, 53, 54, 55, 56, 57, 58, 59,
    ];
    assert(v@ =~= spec_assigned());
    v
}

/// Check that every assigned syscall has a handler in `table`.
///
/// Returns the number of assigned syscalls when the table is complete, or
/// the first assigned number (in table order) whose slot is empty.
pub fn validate_abi(table: &Vec<Option<SyscallHandler>>) -> (r: Result<usize, u64>)
    requires
        table@.len() == TABLE_SLOTS,
    ensures
        r is Ok <==> forall|i: int|
            0 <= i < spec_assigned().len() ==> (#[trigger] table@[spec_assigned()[i] as int]) is Some,
        r is Ok ==> r == Ok::<usize, u64>(spec_assigned().len() as usize),
        r matches Err(n) ==> exists|i: int|
            0 <= i < spec_assigned().len() && #[trigger] spec_assigned()[i] == n
                && table@[n as int] is None
                && forall|j: int| 0 <= j < i ==> (#[trigger] table@[spec_assigned()[j] as int]) is Some,
{
    let assigned = assigned_syscalls();
    let mut k: usize = 0;
    while k < assigned.len()
        invariant
            assigned@ == spec_assigned(),
            table@.len() == TABLE_SLOTS,
            k <= assigned@.len(),
            forall|j: int| 0 <= j < k ==> (#[trigger] table@[spec_assigned()[j] as int]) is Some,
        decreases assigned@.len() - k,
    {
        let n = assigned[k];
        assert(n < 256);
        if table[n as usize].is_none() {
            return Err(n);
        }
        k = k + 1;
    }
    Ok(assigned.len())
}

/// Every syscall number assigned by the ABI has a handler in the table.
pub proof fn lemma_assigned_have_handlers()
    ensures
        forall|i: int|
            0 <= i < spec_assigned().len() ==> (#[trigger] spec_handler(spec_assigned()[i])) is Some,
{
    assert forall|i: int| 0 <= i < spec_assigned().len() implies (#[trigger] spec_handler(
        spec_assigned()[i],
    )) is Some by {
        let s = spec_assigned();
        assert(s[0] == 0u64 && s[1] == 1u64 && s[34] == 59u64);
    }
}

/// The permission check done before dispatch, as a spec.
pub open spec fn spec_check_permission(num: u64, is_admin: bool) -> Result<(), u64> {
    if num >= TABLE_SLOTS {
        Err(spec_err_to_u64(SyscallError::NoSys))
    } else if spec_permission(num).admin && !is_admin {
        Err(spec_err_to_u64(SyscallError::Perm))
    } else {
        Ok(())
    }
}

/// Check whether the caller may invoke syscall `num`.
pub fn check_syscall_permission(num: u64, is_admin: bool) -> (r: Result<(), u64>)
    ensures
        r == spec_check_permission(num, is_admin),
{
    if num >= TABLE_SLOTS {
        return Err(err_to_u64(SyscallError::NoSys));
    }
    let perm = permission_for(num);
    if perm.admin && !is_admin {
        return Err(err_to_u64(SyscallError::Perm));
    }
    Ok(())
}

/// Route a syscall: either the handler to run and the registers to give it,
/// or the error value to return at once.
pub fn syscall_dispatch(
    rax: u64,
    rbx: u64,
    rcx: u64,
    rdx: u64,
    r8: u64,
    r9: u64,
    is_admin: bool,
) -> (r: Result<(SyscallHandler, Registers), u64>)
    ensures
        rax >= TABLE_SLOTS ==> r == Err::<(SyscallHandler, Registers), u64>(
            spec_err_to_u64(SyscallError::NoSys),
        ),
        rax < TABLE_SLOTS && spec_check_permission(rax, is_admin) is Err ==> r
            == Err::<(SyscallHandler, Registers), u64>(spec_err_to_u64(SyscallError::Perm)),
        rax < TABLE_SLOTS && spec_check_permission(rax, is_admin) is Ok && spec_handler(rax) is None
            ==> r == Err::<(SyscallHandler, Registers), u64>(spec_err_to_u64(SyscallError::NoSys)),
        rax < TABLE_SLOTS && spec_check_permission(rax, is_admin) is Ok && spec_handler(rax) is Some
            ==> r == Ok::<(SyscallHandler, Registers), u64>(
            (spec_handler(rax)->0, Registers { rax, rbx, rcx, rdx, r8, r9 }),
        ),
{
    if rax >= TABLE_SLOTS {
        return Err(err_to_u64(SyscallError::NoSys));
    }
    match check_syscall_permission(rax, is_admin) {
        Err(e) => {
            return Err(e);
        },
        Ok(()) => {},
    }
    match handler_for(rax) {
        Some(h) => Ok((h, Registers::new(rax, rbx, rcx, rdx, r8, r9))),
        None => Err(err_to_u64(SyscallError::NoSys)),
    }
}

/// A request is refused exactly when it is out of range, lacks the admin
/// token an admin-only slot needs, or names an empty slot; the refusal is
/// `-NoSys` or `-Perm`, and an admin may call every slot that has a handler.
pub proof fn lemma_dispatch_refusals(num: u64, is_admin: bool)
    ensures
        spec_check_permission(num, is_admin) is Err ==> spec_check_permission(num, is_admin)
            == Err::<(), u64>(spec_err_to_u64(SyscallError::NoSys))
            || spec_check_permission(num, is_admin) == Err::<(), u64>(
            spec_err_to_u64(SyscallError::Perm),
        ),
        num < TABLE_SLOTS && is_admin ==> spec_check_permission(num, is_admin) is Ok,
        num < TABLE_SLOTS && spec_permission(num).admin ==> spec_handler(num) is Some,
        num < TABLE_SLOTS && !spec_permission(num).admin ==> spec_check_permission(num, is_admin) is Ok,
{
}

} // verus!
