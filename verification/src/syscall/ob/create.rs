//! The object-create syscall's request: the path and type code checked,
//! and the attribute word decoded for each kind of object.

use vstd::prelude::*;
use crate::syscall::{err_to_u64, spec_err_to_u64, SyscallError};
use vstd::string::*;
use crate::usermode::{user_stack_top, MAX_BINARY_SIZE, USER_SLOT_SIZE, USER_STACK_SIZE};

verus! {

/// Standard stream slot that is not redirected.
pub const NO_REDIRECT: u8 = 0xFF;

/// Longest timer period, in milliseconds (one hour).
pub const TIMER_MAX_PERIOD_MS: u64 = 3_600_000;

/// Largest section, in bytes.
pub const SECTION_MAX_SIZE: u64 = 0x10_0000;

/// The kind of socket a socket object is.
#[derive(Clone, Copy, Debug, PartialEq, Eq, Structural)]
pub enum SocketKind {
    Tcp,
    Udp,
    Raw,
}

/// What an object-create call asks for, with its decoded attributes.
#[derive(Clone, Copy, Debug, PartialEq, Eq, Structural)]
pub enum CreateRequest {
    /// A process from the image at the path; each standard stream is
    /// redirected to the caller's handle, when given.
    Process { stdin: Option<u8>, stdout: Option<u8>, stderr: Option<u8> },
    Driver,
    Pipe,
    Directory,
    Event,
    Semaphore { initial: i32, max: i32 },
    Timer { period_ms: u64, periodic: bool },
    /// A thread of the caller starting at `entry`.
    Thread { entry: u64 },
    Section { size: u64, prot: u32 },
    Socket { kind: SocketKind, port: u16 },
    Service,
}

/// A standard-stream byte: `NO_REDIRECT` means none.
pub open spec fn redirect(b: u64) -> Option<u8> {
    if b == 0xFF {
        None
    } else {
        Some(b as u8)
    }
}

/// The request an object-create call makes. The path must start with `\`;
/// the type codes are 1 process, 2 driver, 4 pipe, 11 directory, 13 event,
/// 14 semaphore, 15 timer, 16 thread, 17 section, 18 socket, 20 service.
/// A pipe needs a writable 16-byte array for its two descriptors
/// (`fds_out_ok`, else `Fault`); a timer's period is 1 ms to an hour; a
/// section's size is 1 byte to 1 MiB and its protection 1 to 3; a socket
/// needs the network up (else `NoSys`) and a type of 1 (TCP), 2 (UDP) or 3
/// (raw). Everything else is `Inval`.
pub open spec fn spec_create_request(path: Seq<char>, type_code: u32, attrs: u64, fds_out_ok: bool, net_ready: bool) -> Result<CreateRequest, u64> {
    let inval = Err(spec_err_to_u64(SyscallError::Inval));
    if path.len() == 0 || path[0] != '\\' {
        inval
    } else if type_code == 1 {
        Ok(
            CreateRequest::Process {
                stdin: redirect(attrs & 0xFF),
                stdout: redirect((attrs >> 8) & 0xFF),
                stderr: redirect((attrs >> 16) & 0xFF),
            },
        )
    } else if type_code == 2 {
        Ok(CreateRequest::Driver)
    } else if type_code == 4 {
        if fds_out_ok {
            Ok(CreateRequest::Pipe)
        } else {
            Err(spec_err_to_u64(SyscallError::Fault))
        }
    } else if type_code == 11 {
        Ok(CreateRequest::Directory)
    } else if type_code == 13 {
        Ok(CreateRequest::Event)
    } else if type_code == 14 {
        Ok(
            CreateRequest::Semaphore {
                initial: (attrs & 0xFFFF) as i32,
                max: ((attrs >> 16) & 0xFFFF) as i32,
            },
        )
    } else if type_code == 15 {
        let period = attrs & 0x7FFF_FFFF;
        if period == 0 || period > TIMER_MAX_PERIOD_MS {
            inval
        } else {
            Ok(CreateRequest::Timer { period_ms: period, periodic: (attrs >> 31) & 1 != 0 })
        }
    } else if type_code == 16 {
        Ok(CreateRequest::Thread { entry: attrs })
    } else if type_code == 17 {
        let size = attrs & 0xFFFF_FFFF;
        let prot = (attrs >> 32) & 0xFF;
        if size == 0 || size > SECTION_MAX_SIZE || prot == 0 || prot > 3 {
            inval
        } else {
            Ok(CreateRequest::Section { size, prot: prot as u32 })
        }
    } else if type_code == 18 {
        let kind = attrs & 0xFF;
        if !net_ready {
            Err(spec_err_to_u64(SyscallError::NoSys))
        } else if kind == 1 {
            Ok(CreateRequest::Socket { kind: SocketKind::Tcp, port: ((attrs >> 8) & 0xFFFF) as u16 })
        } else if kind == 2 {
            Ok(CreateRequest::Socket { kind: SocketKind::Udp, port: ((attrs >> 8) & 0xFFFF) as u16 })
        } else if kind == 3 {
            Ok(CreateRequest::Socket { kind: SocketKind::Raw, port: ((attrs >> 8) & 0xFFFF) as u16 })
        } else {
            inval
        }
    } else if type_code == 20 {
        Ok(CreateRequest::Service)
    } else {
        inval
    }
}

fn redirect_of(b: u64) -> (r: Option<u8>)
    requires
        b <= 0xFF,
    ensures
        r == redirect(b),
{
    if b == 0xFF {
        None
    } else {
        Some(b as u8)
    }
}

/// Decodes an object-create request (see `spec_create_request`).
pub fn decode_create(path: &str, type_code: u32, attrs: u64, fds_out_ok: bool, net_ready: bool) -> (r: Result<CreateRequest, u64>)
    ensures
        r == spec_create_request(path@, type_code, attrs, fds_out_ok, net_ready),
{
    if path.unicode_len() == 0 || path.get_char(0) != '\\' {
        return Err(err_to_u64(SyscallError::Inval));
    }
    if type_code == 1 {
        let a = attrs & 0xFF;
        let b = (attrs >> 8) & 0xFF;
        let c = (attrs >> 16) & 0xFF;
        assert(a <= 0xFF && b <= 0xFF && c <= 0xFF) by (bit_vector)
            requires
                a == attrs & 0xFF,
                b == (attrs >> 8) & 0xFF,
                c == (attrs >> 16) & 0xFF,
        ;
        Ok(CreateRequest::Process { stdin: redirect_of(a), stdout: redirect_of(b), stderr: redirect_of(c) })
    } else if type_code == 2 {
        Ok(CreateRequest::Driver)
    } else if type_code == 4 {
        if fds_out_ok {
            Ok(CreateRequest::Pipe)
        } else {
            Err(err_to_u64(SyscallError::Fault))
        }
    } else if type_code == 11 {
        Ok(CreateRequest::Directory)
    } else if type_code == 13 {
        Ok(CreateRequest::Event)
    } else if type_code == 14 {
        Ok(
            CreateRequest::Semaphore {
                initial: (attrs & 0xFFFF) as i32,
                max: ((attrs >> 16) & 0xFFFF) as i32,
            },
        )
    } else if type_code == 15 {
        let period = attrs & 0x7FFF_FFFF;
        if period == 0 || period > TIMER_MAX_PERIOD_MS {
            Err(err_to_u64(SyscallError::Inval))
        } else {
            Ok(CreateRequest::Timer { period_ms: period, periodic: (attrs >> 31) & 1 != 0 })
        }
    } else if type_code == 16 {
        Ok(CreateRequest::Thread { entry: attrs })
    } else if type_code == 17 {
        let size = attrs & 0xFFFF_FFFF;
        let prot = (attrs >> 32) & 0xFF;
        if size == 0 || size > SECTION_MAX_SIZE || prot == 0 || prot > 3 {
            Err(err_to_u64(SyscallError::Inval))
        } else {
            Ok(CreateRequest::Section { size, prot: prot as u32 })
        }
    } else if type_code == 18 {
        let kind = attrs & 0xFF;
        let port = ((attrs >> 8) & 0xFFFF) as u16;
        if !net_ready {
            Err(err_to_u64(SyscallError::NoSys))
        } else if kind == 1 {
            Ok(CreateRequest::Socket { kind: SocketKind::Tcp, port })
        } else if kind == 2 {
            Ok(CreateRequest::Socket { kind: SocketKind::Udp, port })
        } else if kind == 3 {
            Ok(CreateRequest::Socket { kind: SocketKind::Raw, port })
        } else {
            Err(err_to_u64(SyscallError::Inval))
        }
    } else if type_code == 20 {
        Ok(CreateRequest::Service)
    } else {
        Err(err_to_u64(SyscallError::Inval))
    }
}

/// The initial stack pointer of a new thread of a process in user slot
/// `slot`: one page below the top of the slot's stack.
pub fn thread_stack_top(user_base: u64, slot: u8) -> (top: u64)
    requires
        user_base + 256 * USER_SLOT_SIZE <= u64::MAX,
    ensures
        top == user_base + slot * USER_SLOT_SIZE + MAX_BINARY_SIZE + USER_STACK_SIZE - 0x1000,
{
    user_stack_top(user_base, slot) - 0x1000
}

/// An image of fewer than 4 bytes cannot be a program: `NoEnt`.
pub fn image_size_check(bin_size: usize) -> (r: Result<(), u64>)
    ensures
        r == (if bin_size < 4 {
            Err(spec_err_to_u64(SyscallError::NoEnt))
        } else {
            Ok(())
        }),
{
    if bin_size < 4 {
        Err(err_to_u64(SyscallError::NoEnt))
    } else {
        Ok(())
    }
}

/// `prefix` followed by `n` in decimal: the namespace names `driver/N`,
/// `\Driver\N` and `\Ob\Thread\N`.
pub fn numbered_name(prefix: &str, n: u64) -> (s: String)
    ensures
        s@ == prefix@ + crate::fmt::spec_digits(n as nat, 10),
{
    let mut s = String::from_str(prefix);
    crate::fmt::push_digits(&mut s, n, 10);
    s
}

} // verus!
