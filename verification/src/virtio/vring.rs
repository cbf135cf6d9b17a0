//! Split virtqueue (vring) 1.0 layout and index bookkeeping.

use vstd::prelude::*;

verus! {

/// Descriptor flag: the chain continues in `next`.
pub const VRING_DESC_F_NEXT: u16 = 1;
/// Descriptor flag: the device writes this buffer.
pub const VRING_DESC_F_WRITE: u16 = 2;

/// A 16-byte ring descriptor.
#[derive(Debug, Clone, Copy, PartialEq, Eq, Structural)]
pub struct VringDesc {
    pub addr: u64,
    pub len: u32,
    pub flags: u16,
    pub next: u16,
}

/// Split virtqueue state.
#[derive(Debug, Clone, Copy, PartialEq, Eq, Structural)]
pub struct SplitVring {
    pub num: u16,
    pub desc_phys: u64,
    pub avail_phys: u64,
    pub used_phys: u64,
    pub last_used_idx: u16,
}

/// `x` rounded up to a multiple of 2048 (half a page).
pub open spec fn round_up_2048(x: int) -> int {
    ((x + 2047) / 2048) * 2048
}

impl SplitVring {
    /// Offset of the used ring in legacy layout: descriptor table plus
    /// available ring (flags, index, `num` entries and the used-event
    /// field), rounded up to 2048 bytes.
    pub fn legacy_used_offset(num: u16) -> (off: usize)
        ensures
            off == round_up_2048(num * 16 + 4 + 2 + num * 2),
            off % 2048 == 0,
            off >= num * 16 + 4 + 2 + num * 2,
            off <= 0x20_0000,
    {
        let desc_sz = num as usize * 16;
        let avail_sz: usize = 4 + 2 + num as usize * 2;
        let total = desc_sz + avail_sz;
        let t2 = total + 2047;
        let r = t2 & !2047usize;
        assert(t2 & !2047usize == (t2 / 2048) * 2048) by (bit_vector)
            requires
                t2 <= 2_000_000,
        ;
        r
    }

    /// Lay out a ring of `num` entries at `queue_phys`: descriptor table
    /// first, then the available ring; the used ring follows directly
    /// (modern) or at the legacy half-page-aligned offset.
    pub fn new(num: u16, queue_phys: u64, legacy: bool) -> (v: Self)
        requires
            queue_phys + 0x20_0000 <= u64::MAX,
        ensures
            v.num == num,
            v.desc_phys == queue_phys,
            v.avail_phys == queue_phys + num * 16,
            legacy ==> v.used_phys == queue_phys + round_up_2048(num * 16 + 4 + 2 + num * 2),
            !legacy ==> v.used_phys == queue_phys + num * 16 + 4 + num * 2,
            v.last_used_idx == 0,
    {
        let desc_sz = num as usize * 16;
        let avail_sz: usize = 4 + num as usize * 2;
        let (desc_phys, avail_phys, used_phys) = if legacy {
            let used_off = Self::legacy_used_offset(num);
            (queue_phys, queue_phys + desc_sz as u64, queue_phys + used_off as u64)
        } else {
            (queue_phys, queue_phys + desc_sz as u64, queue_phys + desc_sz as u64 + avail_sz as u64)
        };
        SplitVring { num, desc_phys, avail_phys, used_phys, last_used_idx: 0 }
    }

    /// The two 64-bit words of a descriptor as stored in the table: the
    /// address, then length | flags << 32 | next << 48.
    pub fn desc_words(addr: u64, len: u32, flags: u16, next: u16) -> (w: (u64, u64))
        ensures
            w.0 == addr,
            w.1 == len + flags * 0x1_0000_0000 + next * 0x1_0000_0000_0000,
    {
        let hi = (len as u64) | ((flags as u64) << 32) | ((next as u64) << 48);
        let l = len as u64;
        let f = flags as u64;
        let n = next as u64;
        assert(l | (f << 32) | (n << 48) == l + f * 0x1_0000_0000 + n * 0x1_0000_0000_0000)
            by (bit_vector)
            requires
                l < 0x1_0000_0000,
                f < 0x1_0000,
                n < 0x1_0000,
        ;
        (addr, hi)
    }

    /// Submitting a chain head with the available index at `old_idx`: the
    /// ring slot it goes to and the new available index (wrapping).
    pub fn submit_slot(&self, old_idx: u16) -> (r: (u16, u16))
        requires
            self.num > 0,
        ensures
            r.0 == old_idx % self.num,
            r.1 == (if old_idx == u16::MAX { 0 } else { old_idx + 1 }),
    {
        (old_idx % self.num, old_idx.wrapping_add(1))
    }

    /// Poll the used ring whose index the device last wrote as `used_idx`:
    /// when it differs from the last index seen, one more completion is
    /// consumed.
    pub fn poll_completed(&mut self, used_idx: u16) -> (done: bool)
        ensures
            done == (used_idx != old(self).last_used_idx),
            done ==> final(self).last_used_idx == (if old(self).last_used_idx == u16::MAX {
                0
            } else {
                old(self).last_used_idx + 1
            }),
            !done ==> final(self).last_used_idx == old(self).last_used_idx,
            final(self).num == old(self).num && final(self).desc_phys == old(self).desc_phys
                && final(self).avail_phys == old(self).avail_phys && final(self).used_phys == old(
                self,
            ).used_phys,
    {
        if used_idx == self.last_used_idx {
            return false;
        }
        self.last_used_idx = self.last_used_idx.wrapping_add(1);
        true
    }
}

} // verus!
