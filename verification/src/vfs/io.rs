//! Unified I/O stack: a block device with an optional partition, so that
//! every access is mapped from partition-relative to absolute LBAs.

use vstd::prelude::*;
use crate::vfs::partition::PartitionInfo;

verus! {

/// Page-cache level of an I/O stack.
#[derive(Debug, Clone, Copy, PartialEq, Eq, Structural)]
pub enum PageCacheLevel {
    Off,
    L1,
    L2,
}

/// Placeholder for the AES-XTS crypto context.
pub struct CryptoContext;

/// A block device reference with optional partition and caching.
#[derive(Debug, Clone, Copy)]
pub struct IoStack {
    pub device_id: usize,
    pub partition: Option<PartitionInfo>,
    pub cache_level: PageCacheLevel,
}

/// The absolute LBA of a partition-relative `lba`.
pub open spec fn spec_translate(partition: Option<PartitionInfo>, lba: u64) -> int {
    match partition {
        Some(p) => p.base_lba + lba,
        None => lba as int,
    }
}

/// How a sector read is served.
#[derive(Debug, Clone, Copy, PartialEq, Eq, Structural)]
pub enum ReadRoute {
    /// Try the block cache (which numbers sectors with 32 bits) for
    /// `cache_sector` first; on a miss read the one block at `abs_lba` from
    /// the device.
    CacheThenDevice { cache_sector: u32, abs_lba: u64 },
    /// Read `count` sectors from `abs_lba` on straight from the device (see
    /// `block_transfers`).
    Device { abs_lba: u64, count: u64 },
}

/// Most blocks one device transfer moves (its count is 8 bits wide).
pub const MAX_BLOCKS_PER_TRANSFER: u64 = 255;

/// The device transfers that move `count` sectors from `lba` on, in order:
/// runs of `MAX_BLOCKS_PER_TRANSFER` blocks, then the rest.
pub open spec fn spec_transfers(lba: int, count: int) -> Seq<(u64, u8)>
    decreases count,
{
    if count <= 0 {
        Seq::empty()
    } else {
        let n = if count < MAX_BLOCKS_PER_TRANSFER { count } else { MAX_BLOCKS_PER_TRANSFER as int };
        seq![(lba as u64, n as u8)] + spec_transfers(lba + n, count - n)
    }
}

/// Split a transfer of `count` sectors at absolute `abs_lba` into device
/// transfers (see `spec_transfers`).
pub fn block_transfers(abs_lba: u64, count: u64) -> (r: Vec<(u64, u8)>)
    requires
        abs_lba + count <= u64::MAX,
    ensures
        r@ == spec_transfers(abs_lba as int, count as int),
{
    let mut r: Vec<(u64, u8)> = Vec::new();
    let mut lba = abs_lba;
    let mut rem = count;
    while rem > 0
        invariant
            abs_lba + count <= u64::MAX,
            lba + rem == abs_lba + count,
            r@ + spec_transfers(lba as int, rem as int) == spec_transfers(abs_lba as int, count as int),
        decreases rem,
    {
        let n: u64 = if rem < MAX_BLOCKS_PER_TRANSFER {
            rem
        } else {
            MAX_BLOCKS_PER_TRANSFER
        };
        let ghost before = r@;
        r.push((lba, n as u8));
        assert(spec_transfers(lba as int, rem as int) == seq![(lba, n as u8)] + spec_transfers(
            lba + n,
            rem - n,
        ));
        assert(r@ + spec_transfers(lba + n, rem - n) =~= before + spec_transfers(
            lba as int,
            rem as int,
        ));
        lba = lba + n;
        rem = rem - n;
    }
    assert(r@ + spec_transfers(lba as int, rem as int) =~= r@);
    r
}

impl IoStack {
    /// A whole-device stack with L1 caching.
    pub fn new(device_id: usize) -> (s: Self)
        ensures
            s.device_id == device_id,
            s.partition is None,
            s.cache_level == PageCacheLevel::L1,
    {
        IoStack { device_id, partition: None, cache_level: PageCacheLevel::L1 }
    }

    /// A stack over one partition of a device.
    pub fn with_partition(device_id: usize, partition: PartitionInfo, cache: PageCacheLevel) -> (s: Self)
        ensures
            s.device_id == device_id,
            s.partition == Some(partition),
            s.cache_level == cache,
    {
        IoStack { device_id, partition: Some(partition), cache_level: cache }
    }

    /// Translate a partition-relative LBA to an absolute device LBA; without
    /// a partition the LBA passes through unchanged.
    pub fn translate_lba(&self, lba: u64) -> (r: u64)
        requires
            spec_translate(self.partition, lba) <= u64::MAX,
        ensures
            r == spec_translate(self.partition, lba),
    {
        match &self.partition {
            Some(p) => p.base_lba + lba,
            None => lba,
        }
    }

    /// Route a read of `count` sectors at partition-relative `lba` into a
    /// buffer of `buf_len` bytes: a single-sector read into a buffer of at
    /// least 512 bytes goes through the block cache when caching is on and
    /// the cache can number the sector; everything else reads the sectors
    /// from the device.
    pub fn read_route(&self, lba: u64, count: u64, buf_len: usize) -> (r: ReadRoute)
        requires
            spec_translate(self.partition, lba) <= u64::MAX,
        ensures
            ({
                let abs = spec_translate(self.partition, lba);
                &&& (self.cache_level != PageCacheLevel::Off && count == 1 && buf_len >= 512 && abs
                    < 0x1_0000_0000) ==> r == (ReadRoute::CacheThenDevice {
                    cache_sector: abs as u32,
                    abs_lba: abs as u64,
                })
                &&& !(self.cache_level != PageCacheLevel::Off && count == 1 && buf_len >= 512 && abs
                    < 0x1_0000_0000) ==> r == (ReadRoute::Device { abs_lba: abs as u64, count })
            }),
    {
        let abs_lba = self.translate_lba(lba);
        if self.cache_level != PageCacheLevel::Off && count == 1 && buf_len >= 512 && abs_lba
            < 0x1_0000_0000 {
            ReadRoute::CacheThenDevice { cache_sector: abs_lba as u32, abs_lba }
        } else {
            ReadRoute::Device { abs_lba, count }
        }
    }

    /// The absolute LBA of a write of sectors at partition-relative `lba`
    /// (the sectors are then moved as `block_transfers` splits them).
    pub fn write_route(&self, lba: u64) -> (r: u64)
        requires
            spec_translate(self.partition, lba) <= u64::MAX,
        ensures
            r == spec_translate(self.partition, lba),
    {
        self.translate_lba(lba)
    }
}

} // verus!
