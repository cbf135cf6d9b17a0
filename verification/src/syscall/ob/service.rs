//! Service-control and snapshot requests: what a caller's control code and
//! buffer ask for, decoded and checked before any service or volume is
//! touched, and the 29-byte status record that answers a status query.

use vstd::prelude::*;
use crate::syscall::{err_to_u64, spec_err_to_u64, SyscallError};
use crate::timers::hpet::{le_u32, read_u32};

verus! {

/// Control code: start the service.
pub const SERVICE_CONTROL_START: u32 = 0;
/// Control code: stop the service (optional `u32` timeout in the buffer).
pub const SERVICE_CONTROL_STOP: u32 = 1;
/// Control code: restart the service (optional `u32` timeout in the buffer).
pub const SERVICE_CONTROL_RESTART: u32 = 2;
/// Control code: write the 29-byte status record into the buffer.
pub const SERVICE_CONTROL_QUERY_STATUS: u32 = 3;
/// Control code: read `[start_type u8][restart u8][max_failures u32]`.
pub const SERVICE_CONTROL_SET_CONFIG: u32 = 4;

/// Bytes in a service status record.
pub const SERVICE_STATUS_SIZE: usize = 29;
/// Bytes in a service configuration record.
pub const SERVICE_CONFIG_SIZE: usize = 6;

/// When a service is started.
#[derive(Clone, Copy, Debug, PartialEq, Eq, Structural)]
pub enum ServiceStartType {
    Boot,
    System,
    Auto,
    Demand,
    Disabled,
}

/// What happens when a service exits.
#[derive(Clone, Copy, Debug, PartialEq, Eq, Structural)]
pub enum ServiceRestartPolicy {
    Never,
    OnCrash,
    Always,
}

/// A decoded configuration record.
#[derive(Clone, Copy, Debug, PartialEq, Eq, Structural)]
pub struct ServiceConfig {
    pub start_type: ServiceStartType,
    pub restart_policy: ServiceRestartPolicy,
    pub max_failures: u32,
}

/// A decoded service-control request.
#[derive(Clone, Copy, Debug, PartialEq, Eq, Structural)]
pub enum ServiceRequest {
    Start,
    Stop { timeout_ms: u32 },
    Restart { timeout_ms: u32 },
    QueryStatus,
    SetConfig(ServiceConfig),
}

/// The start type that a configuration byte names, if any.
pub open spec fn spec_start_type(b: u8) -> Option<ServiceStartType> {
    if b == 0 {
        Some(ServiceStartType::Boot)
    } else if b == 1 {
        Some(ServiceStartType::System)
    } else if b == 2 {
        Some(ServiceStartType::Auto)
    } else if b == 3 {
        Some(ServiceStartType::Demand)
    } else if b == 4 {
        Some(ServiceStartType::Disabled)
    } else {
        None
    }
}

/// The restart policy that a configuration byte names, if any.
pub open spec fn spec_restart_policy(b: u8) -> Option<ServiceRestartPolicy> {
    if b == 0 {
        Some(ServiceRestartPolicy::Never)
    } else if b == 1 {
        Some(ServiceRestartPolicy::OnCrash)
    } else if b == 2 {
        Some(ServiceRestartPolicy::Always)
    } else {
        None
    }
}

/// The timeout a stop or restart carries: the first four bytes of the
/// buffer, little-endian, when there are four; else zero.
pub open spec fn spec_stop_timeout(buf: Seq<u8>) -> int {
    if buf.len() >= 4 {
        le_u32(buf, 0)
    } else {
        0
    }
}

/// The request that `control` and the caller's buffer make, or the error
/// code returned for them.
pub open spec fn spec_service_request(control: u32, buf: Seq<u8>) -> Result<ServiceRequest, u64> {
    if control == SERVICE_CONTROL_START {
        Ok(ServiceRequest::Start)
    } else if control == SERVICE_CONTROL_STOP {
        Ok(ServiceRequest::Stop { timeout_ms: spec_stop_timeout(buf) as u32 })
    } else if control == SERVICE_CONTROL_RESTART {
        Ok(ServiceRequest::Restart { timeout_ms: spec_stop_timeout(buf) as u32 })
    } else if control == SERVICE_CONTROL_QUERY_STATUS {
        if buf.len() < SERVICE_STATUS_SIZE {
            Err(spec_err_to_u64(SyscallError::Inval))
        } else {
            Ok(ServiceRequest::QueryStatus)
        }
    } else if control == SERVICE_CONTROL_SET_CONFIG {
        if buf.len() < SERVICE_CONFIG_SIZE {
            Err(spec_err_to_u64(SyscallError::Inval))
        } else {
            match (spec_start_type(buf[0]), spec_restart_policy(buf[1])) {
                (Some(st), Some(rp)) => Ok(
                    ServiceRequest::SetConfig(
                        ServiceConfig {
                            start_type: st,
                            restart_policy: rp,
                            max_failures: le_u32(buf, 2) as u32,
                        },
                    ),
                ),
                _ => Err(spec_err_to_u64(SyscallError::Inval)),
            }
        }
    } else {
        Err(spec_err_to_u64(SyscallError::NoSys))
    }
}

fn start_type_from_byte(b: u8) -> (r: Option<ServiceStartType>)
    ensures
        r == spec_start_type(b),
{
    match b {
        0 => Some(ServiceStartType::Boot),
        1 => Some(ServiceStartType::System),
        2 => Some(ServiceStartType::Auto),
        3 => Some(ServiceStartType::Demand),
        4 => Some(ServiceStartType::Disabled),
        _ => None,
    }
}

fn restart_policy_from_byte(b: u8) -> (r: Option<ServiceRestartPolicy>)
    ensures
        r == spec_restart_policy(b),
{
    match b {
        0 => Some(ServiceRestartPolicy::Never),
        1 => Some(ServiceRestartPolicy::OnCrash),
        2 => Some(ServiceRestartPolicy::Always),
        _ => None,
    }
}

fn stop_timeout(buf: &[u8]) -> (t: u32)
    ensures
        t == spec_stop_timeout(buf@),
{
    if buf.len() >= 4 {
        read_u32(buf, 0)
    } else {
        0
    }
}

/// Decodes a service-control request.  `buf` is the caller's buffer (empty
/// when it passed none).  An unknown control code is `NoSys`; a status query
/// with room for fewer than 29 bytes, a configuration shorter than 6 bytes,
/// or one naming an unknown start type (above 4) or restart policy (above
/// 2), is `Inval`.
pub fn decode_service_request(control: u32, buf: &[u8]) -> (r: Result<ServiceRequest, u64>)
    ensures
        r == spec_service_request(control, buf@),
{
    if control == SERVICE_CONTROL_START {
        Ok(ServiceRequest::Start)
    } else if control == SERVICE_CONTROL_STOP {
        Ok(ServiceRequest::Stop { timeout_ms: stop_timeout(buf) })
    } else if control == SERVICE_CONTROL_RESTART {
        Ok(ServiceRequest::Restart { timeout_ms: stop_timeout(buf) })
    } else if control == SERVICE_CONTROL_QUERY_STATUS {
        if buf.len() < SERVICE_STATUS_SIZE {
            Err(err_to_u64(SyscallError::Inval))
        } else {
            Ok(ServiceRequest::QueryStatus)
        }
    } else if control == SERVICE_CONTROL_SET_CONFIG {
        if buf.len() < SERVICE_CONFIG_SIZE {
            return Err(err_to_u64(SyscallError::Inval));
        }
        let st = start_type_from_byte(buf[0]);
        let rp = restart_policy_from_byte(buf[1]);
        match (st, rp) {
            (Some(st), Some(rp)) => Ok(
                ServiceRequest::SetConfig(
                    ServiceConfig {
                        start_type: st,
                        restart_policy: rp,
                        max_failures: read_u32(buf, 2),
                    },
                ),
            ),
            _ => Err(err_to_u64(SyscallError::Inval)),
        }
    } else {
        Err(err_to_u64(SyscallError::NoSys))
    }
}

/// What a status query reports of a service.
#[derive(Clone, Copy, Debug, PartialEq, Eq, Structural)]
pub struct ServiceStatus {
    pub state: u8,
    pub pid: u32,
    pub exit_count: u32,
    pub last_exit_code: u64,
    pub failure_count: u32,
    pub start_tick: u64,
}

/// The `n` low bytes of `v`, least significant first.
pub open spec fn spec_le_bytes(v: nat, n: nat) -> Seq<u8>
    decreases n,
{
    if n == 0 {
        Seq::empty()
    } else {
        seq![(v % 256) as u8] + spec_le_bytes(v / 256, (n - 1) as nat)
    }
}

/// The status record: state, pid, exit count, last exit code, failure
/// count, start tick, each little-endian.
pub open spec fn spec_status_record(s: ServiceStatus) -> Seq<u8> {
    seq![s.state] + spec_le_bytes(s.pid as nat, 4) + spec_le_bytes(s.exit_count as nat, 4)
        + spec_le_bytes(s.last_exit_code as nat, 8) + spec_le_bytes(s.failure_count as nat, 4)
        + spec_le_bytes(s.start_tick as nat, 8)
}

proof fn lemma_le_bytes_len(v: nat, n: nat)
    ensures
        spec_le_bytes(v, n).len() == n,
    decreases n,
{
    if n > 0 {
        lemma_le_bytes_len(v / 256, (n - 1) as nat);
    }
}

fn push_le(out: &mut Vec<u8>, v: u64, n: usize)
    requires
        n <= 8,
    ensures
        final(out)@ == old(out)@ + spec_le_bytes(v as nat, n as nat),
{
    let mut rest: u64 = v;
    let mut i: usize = 0;
    while i < n
        invariant
            i <= n,
            out@ + spec_le_bytes(rest as nat, (n - i) as nat) == old(out)@ + spec_le_bytes(
                v as nat,
                n as nat,
            ),
        decreases n - i,
    {
        let ghost before = out@;
        out.push((rest % 256) as u8);
        proof {
            let tail = spec_le_bytes(rest as nat / 256, (n - i - 1) as nat);
            assert(spec_le_bytes(rest as nat, (n - i) as nat) == seq![(rest % 256) as u8] + tail);
            assert(before + (seq![(rest % 256) as u8] + tail) == out@ + tail);
        }
        rest = rest / 256;
        i = i + 1;
    }
    assert(spec_le_bytes(rest as nat, 0) =~= Seq::<u8>::empty());
    assert(out@ + Seq::<u8>::empty() =~= out@);
}

/// Encodes the 29-byte status record that a status query copies out.
pub fn encode_service_status(s: &ServiceStatus) -> (r: Vec<u8>)
    ensures
        r@ == spec_status_record(*s),
        r@.len() == SERVICE_STATUS_SIZE,
{
    let mut out: Vec<u8> = Vec::new();
    out.push(s.state);
    push_le(&mut out, s.pid as u64, 4);
    push_le(&mut out, s.exit_count as u64, 4);
    push_le(&mut out, s.last_exit_code, 8);
    push_le(&mut out, s.failure_count as u64, 4);
    push_le(&mut out, s.start_tick, 8);
    proof {
        lemma_le_bytes_len(s.pid as nat, 4);
        lemma_le_bytes_len(s.exit_count as nat, 4);
        lemma_le_bytes_len(s.last_exit_code as nat, 8);
        lemma_le_bytes_len(s.failure_count as nat, 4);
        lemma_le_bytes_len(s.start_tick as nat, 8);
    }
    out
}

/// Snapshot operation: create a snapshot of the volume.
pub const SNAPSHOT_OP_CREATE: u32 = 0;
/// Snapshot operation: restore the snapshot whose `u64` id is in the buffer.
pub const SNAPSHOT_OP_RESTORE: u32 = 1;
/// Snapshot operation: list snapshots into the buffer.
pub const SNAPSHOT_OP_LIST: u32 = 2;
/// Snapshot operation: drop every snapshot of the volume.
pub const SNAPSHOT_OP_PURGE: u32 = 3;

/// A decoded snapshot request.
#[derive(Clone, Copy, Debug, PartialEq, Eq, Structural)]
pub enum SnapshotOp {
    Create,
    Restore,
    List,
    Purge,
}

/// The snapshot request that `op` and the buffer make, or its error code:
/// a restore needs a buffer of at least 8 bytes, a listing one of at least
/// 24; an unknown operation is `NoSys`.
pub open spec fn spec_snapshot_request(op: u32, buf_ptr: u64, buf_size: u64) -> Result<SnapshotOp, u64> {
    if op == SNAPSHOT_OP_CREATE {
        Ok(SnapshotOp::Create)
    } else if op == SNAPSHOT_OP_RESTORE {
        if buf_ptr == 0 || buf_size < 8 {
            Err(spec_err_to_u64(SyscallError::Inval))
        } else {
            Ok(SnapshotOp::Restore)
        }
    } else if op == SNAPSHOT_OP_LIST {
        if buf_ptr == 0 || buf_size < 24 {
            Err(spec_err_to_u64(SyscallError::Inval))
        } else {
            Ok(SnapshotOp::List)
        }
    } else if op == SNAPSHOT_OP_PURGE {
        Ok(SnapshotOp::Purge)
    } else {
        Err(spec_err_to_u64(SyscallError::NoSys))
    }
}

/// Decodes a snapshot request (see `spec_snapshot_request`).
pub fn decode_snapshot_request(op: u32, buf_ptr: u64, buf_size: u64) -> (r: Result<SnapshotOp, u64>)
    ensures
        r == spec_snapshot_request(op, buf_ptr, buf_size),
{
    if op == SNAPSHOT_OP_CREATE {
        Ok(SnapshotOp::Create)
    } else if op == SNAPSHOT_OP_RESTORE {
        if buf_ptr == 0 || buf_size < 8 {
            Err(err_to_u64(SyscallError::Inval))
        } else {
            Ok(SnapshotOp::Restore)
        }
    } else if op == SNAPSHOT_OP_LIST {
        if buf_ptr == 0 || buf_size < 24 {
            Err(err_to_u64(SyscallError::Inval))
        } else {
            Ok(SnapshotOp::List)
        }
    } else if op == SNAPSHOT_OP_PURGE {
        Ok(SnapshotOp::Purge)
    } else {
        Err(err_to_u64(SyscallError::NoSys))
    }
}

} // verus!
