//! The argument records of the object set-info syscall: checks, the
//! wire format of a security descriptor, and the small fixed records
//! (priorities, socket addresses, counts) read from the caller's buffer.

use vstd::prelude::*;
use crate::syscall::{err_to_u64, spec_err_to_u64, SyscallError};
use crate::timers::hpet::{le_u32, le_u64, read_u32, read_u64};
use crate::vfs::mount::{is_prefix, starts_with, spec_ascii_upper};
use vstd::string::*;
use vstd::utf8::encode_utf8;

verus! {

/// `Inval` for a missing or empty buffer (when the class reads one),
/// `Fault` for a buffer outside the process, `BadF` for a closed handle.
pub open spec fn spec_info_args(needs_buffer: bool, buf_ptr: u64, buf_size: u64, buffer_valid: bool, handle_open: bool) -> Result<(), u64> {
    if needs_buffer && (buf_ptr == 0 || buf_size == 0) {
        Err(spec_err_to_u64(SyscallError::Inval))
    } else if needs_buffer && !buffer_valid {
        Err(spec_err_to_u64(SyscallError::Fault))
    } else if !handle_open {
        Err(spec_err_to_u64(SyscallError::BadF))
    } else {
        Ok(())
    }
}

/// The checks every query-info and set-info call makes first (see
/// `spec_info_args`); `buffer_valid` is whether the buffer lies in the
/// process. Set-info's file-delete class reads no buffer.
pub fn info_args_check(needs_buffer: bool, buf_ptr: u64, buf_size: u64, buffer_valid: bool, handle_open: bool) -> (r: Result<(), u64>)
    ensures
        r == spec_info_args(needs_buffer, buf_ptr, buf_size, buffer_valid, handle_open),
{
    if needs_buffer && (buf_ptr == 0 || buf_size == 0) {
        Err(err_to_u64(SyscallError::Inval))
    } else if needs_buffer && !buffer_valid {
        Err(err_to_u64(SyscallError::Fault))
    } else if !handle_open {
        Err(err_to_u64(SyscallError::BadF))
    } else {
        Ok(())
    }
}

/// A priority record: a little-endian `u32` from 0 (highest) to 3 (idle).
pub open spec fn spec_priority_arg(buf: Seq<u8>) -> Result<u8, u64> {
    if buf.len() < 4 || le_u32(buf, 0) > 3 {
        Err(spec_err_to_u64(SyscallError::Inval))
    } else {
        Ok(le_u32(buf, 0) as u8)
    }
}

/// Reads a process or thread priority (see `spec_priority_arg`).
pub fn priority_arg(buf: &[u8]) -> (r: Result<u8, u64>)
    ensures
        r == spec_priority_arg(buf@),
{
    if buf.len() < 4 {
        return Err(err_to_u64(SyscallError::Inval));
    }
    let p = read_u32(buf, 0);
    if p > 3 {
        Err(err_to_u64(SyscallError::Inval))
    } else {
        Ok(p as u8)
    }
}

/// How many releases a semaphore-release record asks for: the first four
/// bytes as a little-endian count reinterpreted as `i32`, or 1 without them.
pub fn semaphore_release_count(buf: &[u8]) -> (n: i32)
    ensures
        buf@.len() >= 4 ==> n == (le_u32(buf@, 0) as u32) as i32,
        buf@.len() < 4 ==> n == 1,
{
    if buf.len() >= 4 {
        let v = read_u32(buf, 0);
        v as i32
    } else {
        1
    }
}

/// The view base a section-unmap record names: a little-endian `u64`;
/// `Inval` without eight bytes.
pub fn unmap_base_arg(buf: &[u8]) -> (r: Result<u64, u64>)
    ensures
        r == (if buf@.len() >= 8 {
            Ok(le_u64(buf@, 0) as u64)
        } else {
            Err(spec_err_to_u64(SyscallError::Inval))
        }),
{
    if buf.len() >= 8 {
        Ok(read_u64(buf, 0))
    } else {
        Err(err_to_u64(SyscallError::Inval))
    }
}

/// An IPv4 socket address record: four address bytes, then the port in
/// network byte order.
#[derive(Clone, Copy, Debug, PartialEq, Eq, Structural)]
pub struct SocketAddrArg {
    pub a: u8,
    pub b: u8,
    pub c: u8,
    pub d: u8,
    pub port: u16,
}

/// Reads a socket connect or bind record; `Inval` when shorter than six
/// bytes.
pub fn socket_addr_arg(buf: &[u8]) -> (r: Result<SocketAddrArg, u64>)
    ensures
        buf@.len() < 6 ==> r == Err::<SocketAddrArg, u64>(spec_err_to_u64(SyscallError::Inval)),
        buf@.len() >= 6 ==> r == Ok::<SocketAddrArg, u64>(
            SocketAddrArg {
                a: buf@[0],
                b: buf@[1],
                c: buf@[2],
                d: buf@[3],
                port: (buf@[4] * 256 + buf@[5]) as u16,
            },
        ),
{
    if buf.len() < 6 {
        return Err(err_to_u64(SyscallError::Inval));
    }
    let port: u16 = (buf[4] as u16) * 256 + buf[5] as u16;
    Ok(SocketAddrArg { a: buf[0], b: buf[1], c: buf[2], d: buf[3], port })
}

// ── security descriptors ──

/// One access-control entry as the caller encodes it.
#[derive(Clone, Debug)]
pub struct AceRecord {
    pub ace_type: u8,
    pub flags: u8,
    pub access_mask: u32,
    /// The six identifier-authority bytes of the SID.
    pub sid_authority: Vec<u8>,
    /// The SID's sub-authorities.
    pub sid_subs: Vec<u32>,
}

/// An access-control entry as a value.
pub struct AceView {
    pub ace_type: u8,
    pub flags: u8,
    pub access_mask: u32,
    pub sid_authority: Seq<u8>,
    pub sid_subs: Seq<u32>,
}

impl AceRecord {
    pub open spec fn view(&self) -> AceView {
        AceView {
            ace_type: self.ace_type,
            flags: self.flags,
            access_mask: self.access_mask,
            sid_authority: self.sid_authority@,
            sid_subs: self.sid_subs@,
        }
    }
}

/// The views of a list of entries.
pub open spec fn ace_views(aces: Seq<AceRecord>) -> Seq<AceView> {
    aces.map_values(|a: AceRecord| a@)
}

/// The `n` little-endian `u32`s at `off`.
pub open spec fn le_u32s(buf: Seq<u8>, off: int, n: nat) -> Seq<u32> {
    Seq::new(n, |j: int| le_u32(buf, off + 4 * j) as u32)
}

/// The entry encoded at `off`: type, flags, access mask (LE `u32`),
/// sub-authority count, six authority bytes, the sub-authorities.
pub open spec fn ace_at(buf: Seq<u8>, off: int) -> AceView {
    AceView {
        ace_type: buf[off],
        flags: buf[off + 1],
        access_mask: le_u32(buf, off + 2) as u32,
        sid_authority: buf.subrange(off + 7, off + 13),
        sid_subs: le_u32s(buf, off + 13, buf[off + 6] as nat),
    }
}

/// `count` entries from `off` on, or `None` when one runs past the buffer or
/// has more than `max_sub` sub-authorities.
pub open spec fn spec_parse_aces(buf: Seq<u8>, off: int, count: nat, max_sub: nat) -> Option<Seq<AceView>>
    decreases count,
{
    if count == 0 {
        Some(Seq::empty())
    } else if off + 7 > buf.len() {
        None
    } else if buf[off + 6] > max_sub {
        None
    } else if off + 13 + 4 * buf[off + 6] > buf.len() {
        None
    } else {
        match spec_parse_aces(buf, off + 13 + 4 * buf[off + 6], (count - 1) as nat, max_sub) {
            None => None,
            Some(rest) => Some(seq![ace_at(buf, off)] + rest),
        }
    }
}

/// A security descriptor: revision byte, entry count, then the entries;
/// `Inval` when shorter than two bytes or when an entry is malformed.
pub open spec fn spec_parse_sd(buf: Seq<u8>, max_sub: nat) -> Result<Seq<AceView>, u64> {
    if buf.len() < 2 {
        Err(spec_err_to_u64(SyscallError::Inval))
    } else {
        match spec_parse_aces(buf, 2, buf[1] as nat, max_sub) {
            Some(aces) => Ok(aces),
            None => Err(spec_err_to_u64(SyscallError::Inval)),
        }
    }
}

/// The little-endian `u32` whose bytes start at `o`, from the bytes.
pub open spec fn bytes_le32(buf: Seq<u8>, o: int) -> int {
    buf[o] + 256 * buf[o + 1] + 65536 * buf[o + 2] + 16777216 * buf[o + 3]
}

/// What a successful parse of `count > 0` entries at `off` yields: `count`
/// entries, the first of which holds the type byte, the flags byte, the
/// little-endian access mask at `off + 2`, the six authority bytes at
/// `off + 7`, and as many sub-authorities as byte `off + 6` says (at most
/// `max_sub`), the `j`-th being the little-endian `u32` at
/// `off + 13 + 4 * j`; the other entries are those parsed right after it.
pub proof fn lemma_parsed_entry_fields(buf: Seq<u8>, off: int, count: nat, max_sub: nat)
    requires
        0 <= off,
        count > 0,
        spec_parse_aces(buf, off, count, max_sub) is Some,
    ensures
        ({
            let aces = spec_parse_aces(buf, off, count, max_sub)->0;
            let n = buf[off + 6] as int;
            let next = off + 13 + 4 * n;
            &&& aces.len() == count
            &&& next <= buf.len()
            &&& n <= max_sub
            &&& aces[0].ace_type == buf[off]
            &&& aces[0].flags == buf[off + 1]
            &&& aces[0].access_mask == bytes_le32(buf, off + 2)
            &&& aces[0].sid_authority == buf.subrange(off + 7, off + 13)
            &&& aces[0].sid_subs.len() == n
            &&& forall|j: int| 0 <= j < n ==> #[trigger] aces[0].sid_subs[j] == bytes_le32(buf, off + 13 + 4 * j)
            &&& spec_parse_aces(buf, next, (count - 1) as nat, max_sub) == Some(aces.drop_first())
        }),
{
    lemma_parse_len(buf, off, count, max_sub);
    let aces = spec_parse_aces(buf, off, count, max_sub)->0;
    let n = buf[off + 6] as int;
    let rest = spec_parse_aces(buf, off + 13 + 4 * n, (count - 1) as nat, max_sub)->0;
    assert(aces == seq![ace_at(buf, off)] + rest);
    assert(aces.drop_first() =~= rest);
    assert forall|j: int| 0 <= j < n implies #[trigger] aces[0].sid_subs[j] == bytes_le32(buf, off + 13 + 4 * j) by {
        assert(aces[0].sid_subs == le_u32s(buf, off + 13, n as nat));
    }
}

/// A security descriptor that parses holds exactly as many entries as its
/// count byte (byte 1) says, the first starting at byte 2; one shorter than
/// two bytes is refused with `Inval`.
pub proof fn lemma_descriptor_entries(buf: Seq<u8>, max_sub: nat)
    ensures
        buf.len() < 2 ==> spec_parse_sd(buf, max_sub) == Err::<Seq<AceView>, u64>(
            spec_err_to_u64(SyscallError::Inval),
        ),
        spec_parse_sd(buf, max_sub) matches Ok(aces) ==> buf.len() >= 2 && aces.len() == buf[1]
            && spec_parse_aces(buf, 2, buf[1] as nat, max_sub) == Some(aces),
        spec_parse_sd(buf, max_sub) is Err ==> spec_parse_sd(buf, max_sub) == Err::<Seq<AceView>, u64>(
            spec_err_to_u64(SyscallError::Inval),
        ),
{
    if buf.len() >= 2 && spec_parse_aces(buf, 2, buf[1] as nat, max_sub) is Some {
        lemma_parse_len(buf, 2, buf[1] as nat, max_sub);
    }
}

proof fn lemma_parse_len(buf: Seq<u8>, off: int, count: nat, max_sub: nat)
    requires
        spec_parse_aces(buf, off, count, max_sub) is Some,
    ensures
        spec_parse_aces(buf, off, count, max_sub)->0.len() == count,
    decreases count,
{
    if count > 0 {
        lemma_parse_len(buf, off + 13 + 4 * buf[off + 6], (count - 1) as nat, max_sub);
    }
}

/// `prefix` followed by the outcome of parsing the rest.
pub open spec fn then_rest(prefix: Seq<AceView>, rest: Option<Seq<AceView>>) -> Option<Seq<AceView>> {
    match rest {
        None => None,
        Some(r) => Some(prefix + r),
    }
}

fn read_u32s(buf: &[u8], off: usize, n: usize) -> (v: Vec<u32>)
    requires
        off + 4 * n <= buf@.len(),
    ensures
        v@ == le_u32s(buf@, off as int, n as nat),
{
    let len = buf.len();
    let mut v: Vec<u32> = Vec::new();
    let mut j: usize = 0;
    while j < n
        invariant
            len == buf@.len(),
            off + 4 * n <= buf@.len(),
            j <= n,
            v@ == le_u32s(buf@, off as int, j as nat),
        decreases n - j,
    {
        v.push(read_u32(buf, off + 4 * j));
        j = j + 1;
        assert(v@ =~= le_u32s(buf@, off as int, j as nat));
    }
    v
}

/// Parses the entries of a security descriptor, in the order the caller
/// wrote them (see `spec_parse_sd`); `max_sub` is the most sub-authorities
/// a SID may have.
pub fn parse_security_descriptor(buf: &[u8], max_sub: u8) -> (r: Result<Vec<AceRecord>, u64>)
    ensures
        match spec_parse_sd(buf@, max_sub as nat) {
            Ok(aces) => r matches Ok(v) && ace_views(v@) == aces,
            Err(e) => r == Err::<Vec<AceRecord>, u64>(e),
        },
{
    if buf.len() < 2 {
        return Err(err_to_u64(SyscallError::Inval));
    }
    let count = buf[1];
    let len = buf.len();
    let mut aces: Vec<AceRecord> = Vec::new();
    let mut off: usize = 2;
    let mut k: u8 = 0;
    while k < count
        invariant
            buf@.len() >= 2,
            len == buf@.len(),
            count == buf@[1],
            k <= count,
            2 <= off <= buf@.len(),
            spec_parse_aces(buf@, 2, count as nat, max_sub as nat) == then_rest(
                ace_views(aces@),
                spec_parse_aces(buf@, off as int, (count - k) as nat, max_sub as nat),
            ),
        decreases count - k,
    {
        if len - off < 7 {
            return Err(err_to_u64(SyscallError::Inval));
        }
        let sid_cnt = buf[off + 6];
        if sid_cnt > max_sub {
            return Err(err_to_u64(SyscallError::Inval));
        }
        let n = sid_cnt as usize;
        if len - off < 13 + 4 * n {
            return Err(err_to_u64(SyscallError::Inval));
        }
        let mut authority: Vec<u8> = Vec::new();
        let mut j: usize = 0;
        while j < 6
            invariant
                len == buf@.len(),
                off + 13 <= buf@.len(),
                j <= 6,
                authority@ == buf@.subrange(off + 7, off + 7 + j),
            decreases 6 - j,
        {
            authority.push(buf[off + 7 + j]);
            j = j + 1;
            assert(authority@ =~= buf@.subrange(off + 7, off + 7 + j));
        }
        let subs = read_u32s(buf, off + 13, n);
        let ace = AceRecord {
            ace_type: buf[off],
            flags: buf[off + 1],
            access_mask: read_u32(buf, off + 2),
            sid_authority: authority,
            sid_subs: subs,
        };
        let ghost before = aces@;
        assert(ace@ == ace_at(buf@, off as int));
        aces.push(ace);
        proof {
            assert(ace_views(aces@) =~= ace_views(before) + seq![ace_at(buf@, off as int)]);
            let tail = spec_parse_aces(buf@, off + 13 + 4 * n, (count - k - 1) as nat, max_sub as nat);
            match tail {
                None => {},
                Some(t) => {
                    assert(ace_views(before) + (seq![ace_at(buf@, off as int)] + t) =~= ace_views(aces@) + t);
                },
            }
        }
        off = off + 13 + 4 * n;
        k = k + 1;
    }
    assert(ace_views(aces@) + Seq::<AceView>::empty() =~= ace_views(aces@));
    Ok(aces)
}

// ── names and paths ──

/// Where filesystem objects live in the object namespace.
pub const GLOBAL_FS_PREFIX: &'static str = "\\Global\\FileSystem\\";

/// `Inval` when a buffer of `buf_size` bytes is shorter than the `need`
/// bytes a class reads.
pub fn record_size_check(buf_size: u64, need: u64) -> (r: Result<(), u64>)
    ensures
        r == (if buf_size < need {
            Err(spec_err_to_u64(SyscallError::Inval))
        } else {
            Ok(())
        }),
{
    if buf_size < need {
        Err(err_to_u64(SyscallError::Inval))
    } else {
        Ok(())
    }
}

/// An object name or a volume label: 1 to 31 bytes of UTF-8.
pub open spec fn spec_short_name_ok(name: Seq<char>) -> bool {
    name.len() > 0 && (encode_utf8(name).len() as usize) <= 31
}

/// `Inval` for an empty name or one longer than 31 bytes.
pub fn short_name_check(name: &str) -> (r: Result<(), u64>)
    ensures
        r == (if spec_short_name_ok(name@) {
            Ok(())
        } else {
            Err(spec_err_to_u64(SyscallError::Inval))
        }),
{
    let bytes = name.len();
    if bytes > 31 || name.unicode_len() == 0 {
        Err(err_to_u64(SyscallError::Inval))
    } else {
        Ok(())
    }
}

/// The volume path of a filesystem object's name, or `Inval` when the name
/// is not under `\Global\FileSystem\` or names nothing below it.
pub open spec fn spec_fs_object_path(name: Seq<char>) -> Result<Seq<char>, u64> {
    let p = GLOBAL_FS_PREFIX@;
    if !is_prefix(p, name) || name.len() == p.len() {
        Err(spec_err_to_u64(SyscallError::Inval))
    } else {
        Ok(name.subrange(p.len() as int, name.len() as int))
    }
}

/// The volume path a filesystem object stands for (see
/// `spec_fs_object_path`).
pub fn fs_object_path(obj_name: &str) -> (r: Result<String, u64>)
    ensures
        match spec_fs_object_path(obj_name@) {
            Ok(p) => r matches Ok(s) && s@ == p,
            Err(e) => r == Err::<String, u64>(e),
        },
{
    if !starts_with(obj_name, GLOBAL_FS_PREFIX) {
        return Err(err_to_u64(SyscallError::Inval));
    }
    let n = obj_name.unicode_len();
    let m = GLOBAL_FS_PREFIX.unicode_len();
    if n == m {
        return Err(err_to_u64(SyscallError::Inval));
    }
    Ok(String::from_str(obj_name.substring_char(m, n)))
}

/// The object name of the file at volume path `path`.
pub fn fs_object_name(path: &str) -> (s: String)
    ensures
        s@ == GLOBAL_FS_PREFIX@ + path@,
{
    let mut s = String::from_str(GLOBAL_FS_PREFIX);
    s.append(path);
    s
}

/// Whether `s` holds `c`.
pub fn contains_char(s: &str, c: char) -> (b: bool)
    ensures
        b == s@.contains(c),
{
    let n = s.unicode_len();
    let mut i: usize = 0;
    while i < n
        invariant
            n == s@.len(),
            i <= n,
            forall|j: int| 0 <= j < i ==> s@[j] != c,
        decreases n - i,
    {
        if s.get_char(i) == c {
            assert(s@[i as int] == c);
            return true;
        }
        i = i + 1;
    }
    false
}

/// The drive index a created file's path names: its first byte, upper-cased,
/// counted from `A`.
pub open spec fn spec_path_drive(path: Seq<char>) -> int {
    spec_ascii_upper_byte(encode_utf8(path)[0]) - 65
}

/// `b` with ASCII lower-case letters mapped to upper case.
pub open spec fn spec_ascii_upper_byte(b: u8) -> int {
    if 97 <= b <= 122 {
        b - 32
    } else {
        b as int
    }
}

/// The drive index of a path whose first byte is a drive letter.
pub fn path_drive_index(path: &str) -> (d: usize)
    requires
        encode_utf8(path@).len() > 0,
        spec_ascii_upper_byte(encode_utf8(path@)[0]) >= 65,
    ensures
        d == spec_path_drive(path@),
{
    let bytes = path.as_bytes();
    let b = bytes[0];
    let u: u8 = if b >= 97 && b <= 122 {
        b - 32
    } else {
        b
    };
    (u - 65) as usize
}

/// The layout name a keyboard set-layout record holds: its first 32 bytes,
/// cut at the first NUL.
pub open spec fn spec_layout_name(buf: Seq<u8>) -> Seq<u8> {
    let window = if buf.len() < 32 {
        buf
    } else {
        buf.subrange(0, 32)
    };
    let end = first_nul(window);
    window.subrange(0, end)
}

/// Index of the first zero byte of `b` (`b.len()` if none).
pub open spec fn first_nul(b: Seq<u8>) -> int
    decreases b.len(),
{
    if b.len() == 0 {
        0
    } else if b[0] == 0 {
        0
    } else {
        1 + first_nul(b.drop_first())
    }
}

pub(crate) proof fn lemma_first_nul(b: Seq<u8>)
    ensures
        0 <= first_nul(b) <= b.len(),
        first_nul(b) < b.len() ==> b[first_nul(b)] == 0,
        forall|j: int| 0 <= j < first_nul(b) ==> #[trigger] b[j] != 0,
    decreases b.len(),
{
    if b.len() > 0 && b[0] != 0 {
        lemma_first_nul(b.drop_first());
        assert forall|j: int| 0 <= j < first_nul(b) implies #[trigger] b[j] != 0 by {
            if j > 0 {
                assert(b[j] == b.drop_first()[j - 1]);
            }
        }
    }
}

/// The bytes up to the first NUL of `b`.
pub fn until_nul(b: &[u8]) -> (r: Vec<u8>)
    ensures
        r@ == b@.subrange(0, first_nul(b@)),
{
    proof {
        lemma_first_nul(b@);
    }
    let mut r: Vec<u8> = Vec::new();
    let mut i: usize = 0;
    while i < b.len() && b[i] != 0
        invariant
            i <= b@.len(),
            forall|j: int| 0 <= j < i ==> b@[j] != 0,
            r@ == b@.subrange(0, i as int),
            0 <= first_nul(b@) <= b@.len(),
            first_nul(b@) < b@.len() ==> b@[first_nul(b@)] == 0,
            forall|j: int| 0 <= j < first_nul(b@) ==> #[trigger] b@[j] != 0,
        decreases b@.len() - i,
    {
        r.push(b[i]);
        i = i + 1;
        assert(r@ =~= b@.subrange(0, i as int));
    }
    proof {
        let f = first_nul(b@);
        if f < i {
            assert(b@[f] == 0);
        }
        if i < f {
            assert(b@[i as int] != 0);
        }
    }
    r
}

/// Reads the layout name of a keyboard set-layout record (see
/// `spec_layout_name`).
pub fn layout_name_bytes(buf: &[u8]) -> (r: Vec<u8>)
    ensures
        r@ == spec_layout_name(buf@),
{
    let window = if buf.len() < 32 {
        buf
    } else {
        vstd::slice::slice_subrange(buf, 0, 32)
    };
    until_nul(window)
}

} // verus!
