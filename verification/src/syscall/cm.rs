//! Registry (configuration manager) syscalls: the key handle check and the
//! records a value query and a key or value enumeration copy out.

use vstd::prelude::*;
use crate::syscall::{err_to_u64, spec_err_to_u64, SyscallError};
use crate::syscall::ob::service::spec_le_bytes;

verus! {

/// The registry cell behind a key handle: `BadF` for a closed handle,
/// `Inval` for one without a native object.
pub fn key_handle_check(open: bool, native_id: Option<u64>) -> (r: Result<u64, u64>)
    ensures
        r == (if !open {
            Err(spec_err_to_u64(SyscallError::BadF))
        } else {
            match native_id {
                None => Err(spec_err_to_u64(SyscallError::Inval)),
                Some(id) => Ok(id),
            }
        }),
{
    if !open {
        return Err(err_to_u64(SyscallError::BadF));
    }
    match native_id {
        None => Err(err_to_u64(SyscallError::Inval)),
        Some(id) => Ok(id),
    }
}

/// What a value query answers.
pub struct ValueReply {
    /// The size reported: the 8-byte header plus the data.
    pub total: u64,
    /// How many bytes of the caller's buffer are checked before copying.
    pub copy_len: u64,
    /// What is copied to the caller's buffer (nothing without room for the
    /// header).
    pub bytes: Vec<u8>,
}

/// The little-endian `u32` bytes of `v` (truncated to 32 bits).
pub open spec fn le32(v: int) -> Seq<u8> {
    spec_le_bytes((v % 0x1_0000_0000) as nat, 4)
}

/// The reply to a value query of a value of type `value_type` holding
/// `data`, into a buffer of `buf_len` bytes (`buf_present` when one was
/// given): the header (type, data length) when the buffer holds it, and the
/// data too when the buffer holds all of it.
pub open spec fn spec_value_bytes(value_type: u32, data: Seq<u8>, buf_present: bool, buf_len: u64) -> Seq<u8> {
    if !buf_present || buf_len < 8 {
        Seq::empty()
    } else if buf_len >= 8 + data.len() {
        le32(value_type as int) + le32(data.len() as int) + data
    } else {
        le32(value_type as int) + le32(data.len() as int)
    }
}

fn push_le32(out: &mut Vec<u8>, v: u64)
    ensures
        final(out)@ == old(out)@ + le32(v as int),
{
    let mut rest: u64 = v % 0x1_0000_0000;
    let mut i: usize = 0;
    while i < 4
        invariant
            i <= 4,
            out@ + spec_le_bytes(rest as nat, (4 - i) as nat) == old(out)@ + le32(v as int),
        decreases 4 - i,
    {
        let ghost before = out@;
        out.push((rest % 256) as u8);
        proof {
            let tail = spec_le_bytes(rest as nat / 256, (4 - i - 1) as nat);
            assert(spec_le_bytes(rest as nat, (4 - i) as nat) == seq![(rest % 256) as u8] + tail);
            assert(before + (seq![(rest % 256) as u8] + tail) == out@ + tail);
        }
        rest = rest / 256;
        i = i + 1;
    }
    assert(spec_le_bytes(rest as nat, 0) =~= Seq::<u8>::empty());
    assert(out@ + Seq::<u8>::empty() =~= out@);
}

/// Answers a value query (see `spec_value_bytes`); the reported size is
/// always the header plus the data.
pub fn value_reply(value_type: u32, data: &[u8], buf_present: bool, buf_len: u64) -> (r: ValueReply)
    requires
        data@.len() + 8 <= u64::MAX,
    ensures
        r.total == 8 + data@.len(),
        r.copy_len == (if buf_len >= 8 + data@.len() { 8 + data@.len() as int } else { buf_len as int }),
        r.bytes@ == spec_value_bytes(value_type, data@, buf_present, buf_len),
{
    let total: u64 = 8 + data.len() as u64;
    let copy_len = if buf_len >= total {
        total
    } else {
        buf_len
    };
    let mut bytes: Vec<u8> = Vec::new();
    if buf_present && buf_len >= 8 {
        push_le32(&mut bytes, value_type as u64);
        push_le32(&mut bytes, data.len() as u64);
        if buf_len >= total {
            let mut i: usize = 0;
            let ghost head = bytes@;
            while i < data.len()
                invariant
                    i <= data@.len(),
                    bytes@ == head + data@.subrange(0, i as int),
                decreases data@.len() - i,
            {
                bytes.push(data[i]);
                i = i + 1;
                assert(bytes@ =~= head + data@.subrange(0, i as int));
            }
            assert(data@.subrange(0, data@.len() as int) =~= data@);
            assert(bytes@ =~= le32(value_type as int) + le32(data@.len() as int) + data@);
        }
    }
    ValueReply { total, copy_len, bytes }
}

/// Longest key or value name an enumeration copies, without its NUL.
pub const CM_NAME_MAX: usize = 255;

/// The record an enumeration copies: the name's bytes, at most 255, then a
/// NUL.
pub open spec fn spec_name_record(name: Seq<u8>) -> Seq<u8> {
    let n = if name.len() < CM_NAME_MAX {
        name.len() as int
    } else {
        CM_NAME_MAX as int
    };
    name.subrange(0, n) + seq![0u8]
}

/// Builds the record a key or value enumeration copies (see
/// `spec_name_record`); its length is what the call returns.
pub fn name_record(name: &[u8]) -> (r: Vec<u8>)
    ensures
        r@ == spec_name_record(name@),
{
    let n = if name.len() < CM_NAME_MAX {
        name.len()
    } else {
        CM_NAME_MAX
    };
    let mut r: Vec<u8> = Vec::new();
    let mut i: usize = 0;
    while i < n
        invariant
            n <= name@.len(),
            i <= n,
            r@ == name@.subrange(0, i as int),
        decreases n - i,
    {
        r.push(name[i]);
        i = i + 1;
        assert(r@ =~= name@.subrange(0, i as int));
    }
    r.push(0u8);
    r
}

} // verus!
