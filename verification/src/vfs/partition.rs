//! GPT partition records.

use vstd::prelude::*;

verus! {

/// Maximum number of NeoDOS partitions recorded per disk.
pub const MAX_PARTITIONS: usize = 8;

/// A partition: first LBA, length in sectors, and type GUID.
#[derive(Debug, Clone, Copy)]
pub struct PartitionInfo {
    pub base_lba: u64,
    pub sector_count: u64,
    pub partition_type: [u8; 16],
}

impl PartitionInfo {
    pub fn new(base_lba: u64, sector_count: u64, partition_type: [u8; 16]) -> (p: Self)
        ensures
            p == (PartitionInfo { base_lba, sector_count, partition_type }),
    {
        PartitionInfo { base_lba, sector_count, partition_type }
    }
}

/// A GPT entry as the GPT parser returns it: first and last LBA.
#[derive(Debug, Clone, Copy, PartialEq, Eq, Structural)]
pub struct GptEntry {
    pub start_lba: u64,
    pub end_lba: u64,
}

/// Turn the GPT entries that matched a partition type GUID into partition
/// records of that type: slot `i` of the result describes entry `i`
/// (length `end_lba - start_lba`), empty slots stay empty.
pub fn find_partitions_by_type(gpt_parts: &Vec<Option<GptEntry>>, type_guid: &[u8; 16]) -> (r: Vec<
    Option<PartitionInfo>,
>)
    requires
        gpt_parts@.len() <= MAX_PARTITIONS,
        forall|i: int|
            0 <= i < gpt_parts@.len() ==> (#[trigger] gpt_parts@[i] matches Some(e) ==> e.start_lba
                <= e.end_lba),
    ensures
        r@.len() == MAX_PARTITIONS,
        forall|i: int|
            0 <= i < MAX_PARTITIONS ==> #[trigger] r@[i] == (if i < gpt_parts@.len()
                && gpt_parts@[i] is Some {
                Some(
                    PartitionInfo {
                        base_lba: gpt_parts@[i]->0.start_lba,
                        sector_count: (gpt_parts@[i]->0.end_lba - gpt_parts@[i]->0.start_lba) as u64,
                        partition_type: *type_guid,
                    },
                )
            } else {
                None
            }),
{
    let mut r: Vec<Option<PartitionInfo>> = Vec::new();
    let mut i: usize = 0;
    while i < MAX_PARTITIONS
        invariant
            i <= MAX_PARTITIONS,
            r@.len() == i,
            gpt_parts@.len() <= MAX_PARTITIONS,
            forall|k: int|
                0 <= k < gpt_parts@.len() ==> (#[trigger] gpt_parts@[k] matches Some(e)
                    ==> e.start_lba <= e.end_lba),
            forall|k: int|
                0 <= k < i ==> #[trigger] r@[k] == (if k < gpt_parts@.len() && gpt_parts@[k] is Some {
                    Some(
                        PartitionInfo {
                            base_lba: gpt_parts@[k]->0.start_lba,
                            sector_count: (gpt_parts@[k]->0.end_lba - gpt_parts@[k]->0.start_lba) as u64,
                            partition_type: *type_guid,
                        },
                    )
                } else {
                    None
                }),
        decreases MAX_PARTITIONS - i,
    {
        if i < gpt_parts.len() {
            match gpt_parts[i] {
                Some(p) => {
                    r.push(
                        Some(
                            PartitionInfo {
                                base_lba: p.start_lba,
                                sector_count: p.end_lba - p.start_lba,
                                partition_type: *type_guid,
                            },
                        ),
                    );
                },
                None => {
                    r.push(None);
                },
            }
        } else {
            r.push(None);
        }
        i = i + 1;
    }
    r
}

} // verus!
