//! Syscall ABI v0: numbers, error codes and their wire encoding.
//!
//! Return value convention: a non-negative value is success, a negative
//! value (two's complement in a `u64`) is `-SyscallError`.

pub mod permission;
pub mod table;
pub mod ssdt;
pub mod path;
pub mod util;
pub mod ob;
pub mod handlers;
pub mod resched;
pub mod cm;


use vstd::prelude::*;

verus! {

/// Syscall numbers of the frozen ABI.
#[derive(Debug, Clone, Copy, PartialEq, Eq, Structural)]
pub enum SyscallNum {
    Exit,
    Yield,
    WaitAlertable,
    SleepEx,
    SetExceptionHandler,
    Brk,
    Mmap,
    Munmap,
    Write,
    Read,
    Dup2,
    Close,
    Poll,
    LoadLib,
    CursorBlink,
    DriverUnload,
    ObOpen,
    ObCreate,
    ObQueryInfo,
    ObSetInfo,
    ObEnum,
    ObWait,
    ObDestroy,
    ObService,
    ObSnapshot,
    CmOpenKey,
    CmCreateKey,
    CmQueryValue,
    CmSetValue,
    CmEnumKey,
    CmEnumValue,
    CmDeleteKey,
    CmFlushKey,
    CmLoadHive,
    CmUnloadHive,
}

/// Highest valid syscall number.
pub const MAX_VALID: u64 = 59;

/// Highest syscall number that has been assigned.
pub const HIGHEST_ASSIGNED: u64 = 59;

impl SyscallNum {
    /// The number that identifies the syscall in the ABI table (its `repr`).
    pub open spec fn spec_number(self) -> u64 {
        match self {
            SyscallNum::Exit => 0,
            SyscallNum::Yield => 1,
            SyscallNum::WaitAlertable => 2,
            SyscallNum::SleepEx => 3,
            SyscallNum::SetExceptionHandler => 4,
            SyscallNum::Brk => 10,
            SyscallNum::Mmap => 11,
            SyscallNum::Munmap => 12,
            SyscallNum::Write => 20,
            SyscallNum::Read => 21,
            SyscallNum::Dup2 => 22,
            SyscallNum::Close => 23,
            SyscallNum::Poll => 24,
            SyscallNum::LoadLib => 25,
            SyscallNum::CursorBlink => 30,
            SyscallNum::DriverUnload => 35,
            SyscallNum::ObOpen => 40,
            SyscallNum::ObCreate => 41,
            SyscallNum::ObQueryInfo => 42,
            SyscallNum::ObSetInfo => 43,
            SyscallNum::ObEnum => 44,
            SyscallNum::ObWait => 45,
            SyscallNum::ObDestroy => 46,
            SyscallNum::ObService => 47,
            SyscallNum::ObSnapshot => 48,
            SyscallNum::CmOpenKey => 50,
            SyscallNum::CmCreateKey => 51,
            SyscallNum::CmQueryValue => 52,
            SyscallNum::CmSetValue => 53,
            SyscallNum::CmEnumKey => 54,
            SyscallNum::CmEnumValue => 55,
            SyscallNum::CmDeleteKey => 56,
            SyscallNum::CmFlushKey => 57,
            SyscallNum::CmLoadHive => 58,
            SyscallNum::CmUnloadHive => 59,
        }
    }

    /// The ABI number of this syscall.
    pub fn number(self) -> (n: u64)
        ensures
            n == self.spec_number(),
    {
        match self {
            SyscallNum::Exit => 0,
            SyscallNum::Yield => 1,
            SyscallNum::WaitAlertable => 2,
            SyscallNum::SleepEx => 3,
            SyscallNum::SetExceptionHandler => 4,
            SyscallNum::Brk => 10,
            SyscallNum::Mmap => 11,
            SyscallNum::Munmap => 12,
            SyscallNum::Write => 20,
            SyscallNum::Read => 21,
            SyscallNum::Dup2 => 22,
            SyscallNum::Close => 23,
            SyscallNum::Poll => 24,
            SyscallNum::LoadLib => 25,
            SyscallNum::CursorBlink => 30,
            SyscallNum::DriverUnload => 35,
            SyscallNum::ObOpen => 40,
            SyscallNum::ObCreate => 41,
            SyscallNum::ObQueryInfo => 42,
            SyscallNum::ObSetInfo => 43,
            SyscallNum::ObEnum => 44,
            SyscallNum::ObWait => 45,
            SyscallNum::ObDestroy => 46,
            SyscallNum::ObService => 47,
            SyscallNum::ObSnapshot => 48,
            SyscallNum::CmOpenKey => 50,
            SyscallNum::CmCreateKey => 51,
            SyscallNum::CmQueryValue => 52,
            SyscallNum::CmSetValue => 53,
            SyscallNum::CmEnumKey => 54,
            SyscallNum::CmEnumValue => 55,
            SyscallNum::CmDeleteKey => 56,
            SyscallNum::CmFlushKey => 57,
            SyscallNum::CmLoadHive => 58,
            SyscallNum::CmUnloadHive => 59,
        }
    }

    /// Decode a raw syscall number: the syscall whose ABI number it is.
    pub fn from_u64(n: u64) -> (r: Option<Self>)
        ensures
            match r {
                Some(v) => v.spec_number() == n,
                None => forall|v: SyscallNum| #[trigger] v.spec_number() != n,
            },
    {
        match n {
            0 => Some(SyscallNum::Exit),
            1 => Some(SyscallNum::Yield),
            2 => Some(SyscallNum::WaitAlertable),
            3 => Some(SyscallNum::SleepEx),
            4 => Some(SyscallNum::SetExceptionHandler),
            10 => Some(SyscallNum::Brk),
            11 => Some(SyscallNum::Mmap),
            12 => Some(SyscallNum::Munmap),
            20 => Some(SyscallNum::Write),
            21 => Some(SyscallNum::Read),
            22 => Some(SyscallNum::Dup2),
            23 => Some(SyscallNum::Close),
            24 => Some(SyscallNum::Poll),
            25 => Some(SyscallNum::LoadLib),
            30 => Some(SyscallNum::CursorBlink),
            35 => Some(SyscallNum::DriverUnload),
            40 => Some(SyscallNum::ObOpen),
            41 => Some(SyscallNum::ObCreate),
            42 => Some(SyscallNum::ObQueryInfo),
            43 => Some(SyscallNum::ObSetInfo),
            44 => Some(SyscallNum::ObEnum),
            45 => Some(SyscallNum::ObWait),
            46 => Some(SyscallNum::ObDestroy),
            47 => Some(SyscallNum::ObService),
            48 => Some(SyscallNum::ObSnapshot),
            50 => Some(SyscallNum::CmOpenKey),
            51 => Some(SyscallNum::CmCreateKey),
            52 => Some(SyscallNum::CmQueryValue),
            53 => Some(SyscallNum::CmSetValue),
            54 => Some(SyscallNum::CmEnumKey),
            55 => Some(SyscallNum::CmEnumValue),
            56 => Some(SyscallNum::CmDeleteKey),
            57 => Some(SyscallNum::CmFlushKey),
            58 => Some(SyscallNum::CmLoadHive),
            59 => Some(SyscallNum::CmUnloadHive),
            _ => None,
        }
    }
}

/// Distinct syscalls have distinct ABI numbers, so decoding a syscall's
/// number gives that syscall back (`from_u64` returns the syscall whose
/// number it was given).
pub proof fn lemma_from_u64_inverts_number(v: SyscallNum)
    ensures
        forall|w: SyscallNum| #[trigger] w.spec_number() == v.spec_number() ==> w == v,
{
}

/// Standard error codes of the syscall ABI.
#[derive(Debug, Clone, Copy, PartialEq, Eq, Structural)]
pub enum SyscallError {
    Inval,
    NoEnt,
    NoMem,
    Acces,
    BadF,
    Fault,
    NoSys,
    Again,
    Pipe,
    Exist,
    NotDir,
    IsDir,
    Io,
    NoDev,
    Busy,
    Perm,
}

impl SyscallError {
    /// The positive error number (its `repr`).
    pub open spec fn spec_code(self) -> i64 {
        match self {
            SyscallError::Inval => 1,
            SyscallError::NoEnt => 2,
            SyscallError::NoMem => 3,
            SyscallError::Acces => 4,
            SyscallError::BadF => 5,
            SyscallError::Fault => 6,
            SyscallError::NoSys => 7,
            SyscallError::Again => 8,
            SyscallError::Pipe => 9,
            SyscallError::Exist => 10,
            SyscallError::NotDir => 11,
            SyscallError::IsDir => 12,
            SyscallError::Io => 13,
            SyscallError::NoDev => 14,
            SyscallError::Busy => 15,
            SyscallError::Perm => 16,
        }
    }

    /// The positive error number.
    pub fn code(self) -> (c: i64)
        ensures
            c == self.spec_code(),
    {
        match self {
            SyscallError::Inval => 1,
            SyscallError::NoEnt => 2,
            SyscallError::NoMem => 3,
            SyscallError::Acces => 4,
            SyscallError::BadF => 5,
            SyscallError::Fault => 6,
            SyscallError::NoSys => 7,
            SyscallError::Again => 8,
            SyscallError::Pipe => 9,
            SyscallError::Exist => 10,
            SyscallError::NotDir => 11,
            SyscallError::IsDir => 12,
            SyscallError::Io => 13,
            SyscallError::NoDev => 14,
            SyscallError::Busy => 15,
            SyscallError::Perm => 16,
        }
    }
}

/// The wire value of an error: `-code` in two's complement.
pub open spec fn spec_err_to_u64(e: SyscallError) -> u64 {
    (0x1_0000_0000_0000_0000int - e.spec_code()) as u64
}

/// Encode an error as the syscall return value `-code` (two's complement).
pub fn err_to_u64(e: SyscallError) -> (r: u64)
    ensures
        r == spec_err_to_u64(e),
        r as int == 0x1_0000_0000_0000_0000int - e.spec_code(),
        r >= 0x8000_0000_0000_0000u64,
{
    let c = e.code() as u64;
    u64::MAX - c + 1
}

/// Every error is returned as a negative value when read as `i64`, and
/// distinct errors have distinct wire values.
pub proof fn lemma_err_to_u64_negative_and_injective(a: SyscallError, b: SyscallError)
    ensures
        spec_err_to_u64(a) >= 0x8000_0000_0000_0000u64,
        spec_err_to_u64(a) == spec_err_to_u64(b) ==> a == b,
{
}

/// Error outcomes of the Object Manager.
#[derive(Debug, Clone, Copy, PartialEq, Eq, Structural)]
pub enum ObError {
    Success,
    NotFound,
    AlreadyExists,
    InvalidParam,
    RefCountHeld,
    OutOfMemory,
    AccessDenied,
    NotSupported,
    InvalidType,
    TableFull,
}

/// The syscall error reported for an Object Manager error.
pub open spec fn spec_ob_err_to_syscall(e: ObError) -> SyscallError {
    match e {
        ObError::NotFound => SyscallError::NoEnt,
        ObError::AlreadyExists => SyscallError::Exist,
        ObError::InvalidParam => SyscallError::Inval,
        ObError::RefCountHeld => SyscallError::Busy,
        ObError::OutOfMemory => SyscallError::NoMem,
        ObError::AccessDenied => SyscallError::Acces,
        ObError::NotSupported => SyscallError::NoSys,
        ObError::InvalidType => SyscallError::Inval,
        ObError::TableFull => SyscallError::NoMem,
        ObError::Success => SyscallError::Inval,
    }
}

/// Convert an Object Manager error to a syscall error at the return boundary.
/// Every variant is mapped explicitly.
pub fn ob_err_to_syscall(e: ObError) -> (r: SyscallError)
    ensures
        r == spec_ob_err_to_syscall(e),
{
    match e {
        ObError::NotFound => SyscallError::NoEnt,
        ObError::AlreadyExists => SyscallError::Exist,
        ObError::InvalidParam => SyscallError::Inval,
        ObError::RefCountHeld => SyscallError::Busy,
        ObError::OutOfMemory => SyscallError::NoMem,
        ObError::AccessDenied => SyscallError::Acces,
        ObError::NotSupported => SyscallError::NoSys,
        ObError::InvalidType => SyscallError::Inval,
        ObError::TableFull => SyscallError::NoMem,
        ObError::Success => SyscallError::Inval,
    }
}

} // verus!
