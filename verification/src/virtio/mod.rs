//! VirtIO base: block-device constants and request header, split rings,
//! and the PCI transport.

pub mod vring;
pub mod transport;

use vstd::prelude::*;

verus! {

/// Block feature: maximum segment size.
pub const BLK_F_SIZE_MAX: u32 = 2;
/// Block feature: maximum number of segments.
pub const BLK_F_SEG_MAX: u32 = 4;
/// Block feature: block size.
pub const BLK_F_BLK_SIZE: u32 = 64;
/// Block feature: cache flush.
pub const BLK_F_FLUSH: u32 = 16384;
/// Block feature: discard.
pub const BLK_F_DISCARD: u32 = 8192;

/// Block features the driver accepts.
pub const BLK_ACCEPTED_FEATURES: u32 = 16454;

/// Block request: read.
pub const BLK_T_IN: u32 = 0;
/// Block request: write.
pub const BLK_T_OUT: u32 = 1;
/// Block request: flush.
pub const BLK_T_FLUSH: u32 = 4;

/// Block request header.
#[derive(Debug, Clone, Copy, PartialEq, Eq, Structural)]
pub struct VirtioBlkReq {
    pub type_: u32,
    pub reserved: u32,
    pub sector: u64,
}

/// The accepted feature set is exactly size-max, seg-max, block-size and
/// flush (discard is not accepted).
pub proof fn lemma_accepted_features()
    ensures
        BLK_ACCEPTED_FEATURES == BLK_F_SIZE_MAX | BLK_F_SEG_MAX | BLK_F_BLK_SIZE | BLK_F_FLUSH,
        BLK_ACCEPTED_FEATURES & BLK_F_DISCARD == 0,
{
    assert(2u32 | 4u32 | 64u32 | 16384u32 == 16454u32) by (bit_vector);
    assert(16454u32 & 8192u32 == 0u32) by (bit_vector);
}

} // verus!
