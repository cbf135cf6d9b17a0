use neodos::vfs::io::{block_transfers, IoStack, PageCacheLevel, ReadRoute};
use neodos::vfs::partition::{find_partitions_by_type, GptEntry, PartitionInfo, MAX_PARTITIONS};

#[test]
fn iostack_partition_offset() {
    let part = PartitionInfo::new(2048, 204800, [0; 16]);
    let stack = IoStack::with_partition(0, part, PageCacheLevel::Off);
    assert_eq!(stack.translate_lba(0), 2048);
    assert_eq!(stack.translate_lba(100), 2148);
    assert_eq!(stack.translate_lba(204800), 206848);
}

#[test]
fn iostack_no_partition() {
    let stack = IoStack::new(0);
    assert_eq!(stack.translate_lba(0), 0);
    assert_eq!(stack.translate_lba(100), 100);
    assert_eq!(stack.translate_lba(999999), 999999);
}

#[test]
fn iostack_cache_levels() {
    let part = PartitionInfo::new(0, 1000, [0; 16]);
    let stack_none = IoStack::with_partition(0, part, PageCacheLevel::Off);
    let stack_l1 = IoStack::with_partition(0, part, PageCacheLevel::L1);
    let stack_l2 = IoStack::with_partition(0, part, PageCacheLevel::L2);
    assert_eq!(stack_none.cache_level, PageCacheLevel::Off);
    assert_eq!(stack_l1.cache_level, PageCacheLevel::L1);
    assert_eq!(stack_l2.cache_level, PageCacheLevel::L2);
}

#[test]
fn iostack_partition_offset_correct() {
    let part = PartitionInfo::new(500, 1000, [0; 16]);
    let stack = IoStack::with_partition(0, part, PageCacheLevel::Off);
    assert_eq!(stack.translate_lba(0), 500);
    assert_eq!(stack.translate_lba(1), 501);
    assert_eq!(stack.translate_lba(999), 1499);
}

#[test]
fn new_stack_caches_at_l1() {
    let stack = IoStack::new(3);
    assert_eq!(stack.device_id, 3);
    assert!(stack.partition.is_none());
    assert_eq!(stack.cache_level, PageCacheLevel::L1);
    assert_eq!(stack.read_route(9, 1, 512), ReadRoute::CacheThenDevice { cache_sector: 9, abs_lba: 9 });
}

#[test]
fn single_sector_reads_go_through_the_cache() {
    let part = PartitionInfo::new(100, 1000, [0; 16]);
    let cached = IoStack::with_partition(0, part, PageCacheLevel::L1);
    assert_eq!(cached.read_route(5, 1, 512), ReadRoute::CacheThenDevice { cache_sector: 105, abs_lba: 105 });
    assert_eq!(cached.read_route(5, 1, 511), ReadRoute::Device { abs_lba: 105, count: 1 });
    assert_eq!(cached.read_route(5, 2, 1024), ReadRoute::Device { abs_lba: 105, count: 2 });
    let plain = IoStack::with_partition(0, part, PageCacheLevel::Off);
    assert_eq!(plain.read_route(5, 1, 512), ReadRoute::Device { abs_lba: 105, count: 1 });
}

#[test]
fn all_sectors_are_transferred() {
    let stack = IoStack::new(0);
    assert_eq!(stack.read_route(0, 256, 0), ReadRoute::Device { abs_lba: 0, count: 256 });
    assert_eq!(stack.write_route(7), 7);
    assert_eq!(block_transfers(7, 300), vec![(7, 255), (262, 45)]);
    assert_eq!(block_transfers(7, 255), vec![(7, 255)]);
    assert_eq!(block_transfers(7, 1), vec![(7, 1)]);
    assert!(block_transfers(7, 0).is_empty());
    assert_eq!(block_transfers(0, 600), vec![(0, 255), (255, 255), (510, 90)]);
}

#[test]
fn partitions_by_type() {
    let parts = vec![Some(GptEntry { start_lba: 2048, end_lba: 4096 }), None, Some(GptEntry { start_lba: 10, end_lba: 10 })];
    let guid = [7u8; 16];
    let r = find_partitions_by_type(&parts, &guid);
    assert_eq!(r.len(), MAX_PARTITIONS);
    let p0 = r[0].unwrap();
    assert_eq!(p0.base_lba, 2048);
    assert_eq!(p0.sector_count, 2048);
    assert_eq!(p0.partition_type, guid);
    assert!(r[1].is_none());
    assert_eq!(r[2].unwrap().sector_count, 0);
    assert!(r[3..].iter().all(|p| p.is_none()));
}

#[test]
fn sectors_past_the_cache_range_bypass_it() {
    let p = PartitionInfo::new(0x1_0000_0000, 0x10, [0; 16]);
    let stack = IoStack::with_partition(0, p, PageCacheLevel::L2);
    assert_eq!(stack.read_route(7, 1, 4096), ReadRoute::Device { abs_lba: 0x1_0000_0007, count: 1 });
    let low = IoStack::new(0);
    assert_eq!(
        low.read_route(0xFFFF_FFFF, 1, 512),
        ReadRoute::CacheThenDevice { cache_sector: 0xFFFF_FFFF, abs_lba: 0xFFFF_FFFF }
    );
}
