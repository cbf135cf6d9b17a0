//! User-pointer validation against the current process's address space.

use vstd::prelude::*;
use vstd::utf8::{decode_utf8, valid_utf8};
use x86_64::structures::paging::PageTableFlags;

verus! {

/// Base of the NXL (shared library) window.
pub const NXL_BASE: u64 = 0x1E00_0000;

/// End of the NXL window.
pub const NXL_LIMIT: u64 = 0x1E20_0000;

/// One anonymous or file-backed mapping of the process.
#[derive(Debug, Clone, Copy, PartialEq, Eq, Structural)]
pub struct MmapRange {
    pub base: u64,
    pub len: u64,
}

/// The user-accessible windows of the current process.
pub struct UserAddressSpace {
    /// Start of the identity-mapped user window.
    pub user_base: u64,
    /// End of the identity-mapped user window.
    pub user_limit: u64,
    /// Start of the process heap (0: no heap).
    pub heap_base: u64,
    /// Current program break.
    pub heap_break: u64,
    /// The process's mappings.
    pub mmap_regions: Vec<MmapRange>,
}

/// `a + b`, saturating at `u64::MAX`.
pub open spec fn sat_add(a: u64, b: u64) -> u64 {
    if a + b > u64::MAX {
        u64::MAX
    } else {
        (a + b) as u64
    }
}

/// Whether `[ptr, ptr + len)` (end saturating) lies in `[lo, hi]`.
pub open spec fn in_window(ptr: u64, len: u64, lo: int, hi: int) -> bool {
    ptr >= lo && sat_add(ptr, len) <= hi
}

impl UserAddressSpace {
    /// Every mapping's end fits in 64 bits.
    pub open spec fn wf(&self) -> bool {
        forall|i: int|
            0 <= i < self.mmap_regions@.len() ==> #[trigger] self.mmap_regions@[i].base
                + self.mmap_regions@[i].len <= u64::MAX
    }

    /// Whether a user buffer lies entirely in one user-accessible window.
    pub open spec fn spec_valid(&self, ptr: u64, len: u64) -> bool {
        ||| in_window(ptr, len, self.user_base as int, self.user_limit as int)
        ||| in_window(ptr, len, NXL_BASE as int, NXL_LIMIT as int)
        ||| (self.heap_base != 0 && in_window(
            ptr,
            len,
            self.heap_base as int,
            self.heap_break as int,
        ))
        ||| exists|i: int|
            0 <= i < self.mmap_regions@.len() && in_window(
                ptr,
                len,
                (#[trigger] self.mmap_regions@[i]).base as int,
                self.mmap_regions@[i].base + self.mmap_regions@[i].len,
            )
    }
}

/// Whether the user buffer `[ptr, ptr + len)` lies entirely inside the user
/// window, the NXL window, the heap, or one mapping of the process.
pub fn is_user_ptr_valid(ptr: u64, len: u64, space: &UserAddressSpace) -> (b: bool)
    requires
        space.wf(),
    ensures
        b == space.spec_valid(ptr, len),
{
    let end = ptr.saturating_add(len);
    if ptr >= space.user_base && end <= space.user_limit {
        return true;
    }
    if ptr >= NXL_BASE && end <= NXL_LIMIT {
        return true;
    }
    if space.heap_base != 0 && ptr >= space.heap_base && end <= space.heap_break {
        return true;
    }
    let mut i: usize = 0;
    while i < space.mmap_regions.len()
        invariant
            space.wf(),
            i <= space.mmap_regions@.len(),
            end == sat_add(ptr, len),
            forall|j: int|
                0 <= j < i ==> !in_window(
                    ptr,
                    len,
                    (#[trigger] space.mmap_regions@[j]).base as int,
                    space.mmap_regions@[j].base + space.mmap_regions@[j].len,
                ),
        decreases space.mmap_regions@.len() - i,
    {
        let r = space.mmap_regions[i];
        if ptr >= r.base && end <= r.base + r.len {
            return true;
        }
        i = i + 1;
    }
    false
}

/// Whether a page-table entry's flag bits have `PRESENT` set
/// (`x86_64::structures::paging::PageTableFlags`).
///
/// Trusted: `PageTableFlags::from_bits_truncate(bits).contains(PRESENT)`
/// holds exactly when bit 0 (`PRESENT = 1`) of `bits` is set.
#[verifier::external_body]
fn pte_flags_present(bits: u64) -> (r: bool)
    ensures
        r == (bits & 1 == 1),
{
    PageTableFlags::from_bits_truncate(bits).contains(PageTableFlags::PRESENT)
}

/// Whether the user page at `virt` is present: for a 4 KiB mapping
/// (`pte_flags` is the flag word of its page-table entry) the `PRESENT` bit
/// decides; without one, only the huge-page user window counts as present.
pub fn is_page_present(virt: u64, pte_flags: Option<u64>, user_base: u64, user_limit: u64) -> (b: bool)
    ensures
        pte_flags matches Some(bits) ==> b == (bits & 1 == 1),
        pte_flags is None ==> b == (user_base <= virt < user_limit),
{
    match pte_flags {
        Some(bits) => pte_flags_present(bits),
        None => virt >= user_base && virt < user_limit,
    }
}

/// How the kernel may read one user byte while it holds the scheduler and
/// user-memory locks.
#[derive(Debug, Clone, Copy, PartialEq, Eq, Structural)]
pub enum Readability {
    /// In the identity-mapped user window: always present.
    Mapped,
    /// In the NXL window, the heap or a mapping: readable if its 4 KiB page
    /// is present.
    IfPresent,
    /// Outside every user window.
    Unmapped,
}

/// Whether `p` lies in one of the process's mappings.
pub open spec fn in_some_mapping(space: &UserAddressSpace, p: u64) -> bool {
    exists|i: int|
        0 <= i < space.mmap_regions@.len() && (#[trigger] space.mmap_regions@[i]).base <= p
            < space.mmap_regions@[i].base + space.mmap_regions@[i].len
}

/// How byte `p` may be read (see `Readability`).
pub open spec fn spec_readability(space: &UserAddressSpace, p: u64) -> Readability {
    if space.user_base <= p < space.user_limit {
        Readability::Mapped
    } else if NXL_BASE <= p < NXL_LIMIT {
        Readability::IfPresent
    } else if space.heap_base != 0 && space.heap_base <= p < space.heap_break {
        Readability::IfPresent
    } else if in_some_mapping(space, p) {
        Readability::IfPresent
    } else {
        Readability::Unmapped
    }
}

/// Decides how byte `p` of the current process may be read.
pub fn byte_readability(p: u64, space: &UserAddressSpace) -> (r: Readability)
    requires
        space.wf(),
    ensures
        r == spec_readability(space, p),
{
    if p >= space.user_base && p < space.user_limit {
        return Readability::Mapped;
    }
    if p >= NXL_BASE && p < NXL_LIMIT {
        return Readability::IfPresent;
    }
    if space.heap_base != 0 && p >= space.heap_base && p < space.heap_break {
        return Readability::IfPresent;
    }
    let mut i: usize = 0;
    while i < space.mmap_regions.len()
        invariant
            space.wf(),
            i <= space.mmap_regions@.len(),
            !(space.user_base <= p < space.user_limit),
            !(NXL_BASE <= p < NXL_LIMIT),
            !(space.heap_base != 0 && space.heap_base <= p < space.heap_break),
            forall|j: int|
                0 <= j < i ==> !((#[trigger] space.mmap_regions@[j]).base <= p
                    < space.mmap_regions@[j].base + space.mmap_regions@[j].len),
        decreases space.mmap_regions@.len() - i,
    {
        let r = space.mmap_regions[i];
        if p >= r.base && p < r.base + r.len {
            assert(space.mmap_regions@[i as int] == r);
            return Readability::IfPresent;
        }
        i = i + 1;
    }
    Readability::Unmapped
}

/// Longest user string the kernel copies, without its NUL.
pub const USER_STRING_MAX: usize = 255;

/// The bytes of a user C string whose first `readable.len()` bytes can be
/// read: up to its NUL, at most 255; `None` when an unreadable byte comes
/// first.
pub open spec fn spec_user_cstr(readable: Seq<u8>) -> Option<Seq<u8>> {
    let n = crate::syscall::ob::set::first_nul(readable);
    if n < readable.len() && n < USER_STRING_MAX {
        Some(readable.subrange(0, n))
    } else if readable.len() >= USER_STRING_MAX && n >= USER_STRING_MAX {
        Some(readable.subrange(0, USER_STRING_MAX as int))
    } else {
        None
    }
}

/// Copies a user C string out of the bytes that could be read from its
/// start (see `spec_user_cstr`).
pub fn user_cstr(readable: &[u8]) -> (r: Option<Vec<u8>>)
    ensures
        match spec_user_cstr(readable@) {
            Some(b) => r matches Some(v) && v@ == b,
            None => r is None,
        },
{
    proof {
        crate::syscall::ob::set::lemma_first_nul(readable@);
    }
    let mut out: Vec<u8> = Vec::new();
    let mut len: usize = 0;
    while len < USER_STRING_MAX
        invariant
            len <= USER_STRING_MAX,
            len <= readable@.len(),
            out@ == readable@.subrange(0, len as int),
            forall|j: int| 0 <= j < len ==> readable@[j] != 0,
            0 <= crate::syscall::ob::set::first_nul(readable@) <= readable@.len(),
            crate::syscall::ob::set::first_nul(readable@) < readable@.len() ==> readable@[crate::syscall::ob::set::first_nul(readable@)] == 0,
            forall|j: int| 0 <= j < crate::syscall::ob::set::first_nul(readable@) ==> #[trigger] readable@[j] != 0,
        decreases USER_STRING_MAX - len,
    {
        if len >= readable.len() {
            proof {
                let f = crate::syscall::ob::set::first_nul(readable@);
                assert(f >= len) by {
                    if f < len {
                        assert(readable@[f] == 0);
                    }
                }
            }
            return None;
        }
        let b = readable[len];
        if b == 0 {
            proof {
                let f = crate::syscall::ob::set::first_nul(readable@);
                if f < len {
                    assert(readable@[f] == 0);
                }
                if f > len {
                    assert(readable@[len as int] != 0);
                }
            }
            return Some(out);
        }
        out.push(b);
        len = len + 1;
        assert(out@ =~= readable@.subrange(0, len as int));
    }
    proof {
        let f = crate::syscall::ob::set::first_nul(readable@);
        if f < len {
            assert(readable@[f] == 0);
        }
    }
    Some(out)
}

/// `core::str::from_utf8` on the bytes, the text copied into a `String`:
/// the call succeeds exactly on valid UTF-8, and the text is the characters
/// the bytes encode.
#[verifier::external_body]
fn utf8_to_string(b: &[u8]) -> (r: Option<String>)
    ensures
        r is Some <==> valid_utf8(b@),
        r matches Some(s) ==> s@ == decode_utf8(b@),
{
    match core::str::from_utf8(b) {
        Ok(s) => Some(s.to_string()),
        Err(_) => None,
    }
}

/// Copies the user string at `ptr`, given the bytes that could be read from
/// `ptr` on (stopping at the first byte that could not): an error for a null
/// pointer, for an unreadable byte before the NUL or the 255-byte limit, and
/// for bytes that are not UTF-8.
pub fn copy_user_string(ptr: u64, readable: &[u8]) -> (r: Result<String, ()>)
    ensures
        ptr == 0 ==> r is Err,
        ptr != 0 ==> match spec_user_cstr(readable@) {
            None => r is Err,
            Some(b) => (r is Ok <==> valid_utf8(b)) && (r matches Ok(s) ==> s@ == decode_utf8(b)),
        },
{
    if ptr == 0 {
        return Err(());
    }
    let bytes = match user_cstr(readable) {
        Some(b) => b,
        None => return Err(()),
    };
    match utf8_to_string(bytes.as_slice()) {
        Some(s) => Ok(s),
        None => Err(()),
    }
}

} // verus!
