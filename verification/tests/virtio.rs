use neodos::virtio::transport::{
    enable_command, finalize_init, init_steps, negotiate_features, probe_matches, queue_pfn, read_config64,
    slot_empty, standard_init, InitStep, VirtioTransport, STATUS_ACK, STATUS_DRIVER, STATUS_DRIVER_OK,
    STATUS_FEATURES_OK,
};
use neodos::virtio::vring::{SplitVring, VringDesc};
use neodos::virtio::{
    VirtioBlkReq, BLK_ACCEPTED_FEATURES, BLK_F_BLK_SIZE, BLK_F_FLUSH, BLK_F_SEG_MAX,
    BLK_F_SIZE_MAX, BLK_T_FLUSH, BLK_T_IN, BLK_T_OUT,
};

#[test]
fn vio_virtqueue_layout() {
    assert_eq!(core::mem::size_of::<VringDesc>(), 16);
    assert_eq!(core::mem::size_of::<VirtioBlkReq>(), 16);
}

#[test]
fn vio_feature_constants() {
    assert_eq!(BLK_F_SIZE_MAX, 1 << 1);
    assert_eq!(BLK_F_SEG_MAX, 1 << 2);
    assert_eq!(BLK_F_BLK_SIZE, 1 << 6);
    assert_eq!(BLK_F_FLUSH, 1 << 14);
    assert_eq!(BLK_T_IN, 0);
    assert_eq!(BLK_T_OUT, 1);
    assert_eq!(BLK_T_FLUSH, 4);
}

#[test]
fn accepted_features_are_the_four_block_features() {
    assert_eq!(BLK_ACCEPTED_FEATURES, BLK_F_SIZE_MAX | BLK_F_SEG_MAX | BLK_F_BLK_SIZE | BLK_F_FLUSH);
    assert_eq!(negotiate_features(0xFFFF_FFFF, BLK_ACCEPTED_FEATURES), BLK_ACCEPTED_FEATURES);
    assert_eq!(negotiate_features(BLK_F_FLUSH | 1, BLK_ACCEPTED_FEATURES), BLK_F_FLUSH);
}

#[test]
fn config_words_combine_little_endian() {
    assert_eq!(read_config64(0x89AB_CDEF, 0x0123_4567), 0x0123_4567_89AB_CDEF);
}

#[test]
fn probe_and_slots() {
    assert!(probe_matches(0x1AF4, 0x1001, 0x1AF4, 0x1001));
    assert!(!probe_matches(0x1AF4, 0x1000, 0x1AF4, 0x1001));
    assert!(slot_empty(0xFFFF));
    assert!(!slot_empty(0x1AF4));
    assert_eq!(VirtioTransport::probe_at(0xC001), Some(VirtioTransport::Legacy { io_base: 0xC000 }));
    assert_eq!(VirtioTransport::probe_at(0xC000), None);
    assert_eq!(VirtioTransport::probe_at(0x0001), None);
    assert_eq!(enable_command(0x0100), 0x0107);
    assert_eq!(queue_pfn(0x0012_3000), 0x123);
    assert_eq!(standard_init(0xFF, 0x44, STATUS_ACK | STATUS_DRIVER | STATUS_FEATURES_OK), Ok(0x44));
    assert_eq!(standard_init(0x0F, 0x44, STATUS_ACK | STATUS_DRIVER | STATUS_FEATURES_OK), Ok(0x04));
    assert_eq!(standard_init(0xFF, 0x44, 0x80 | STATUS_FEATURES_OK), Err(()));
    assert_eq!(
        init_steps(),
        vec![
            InitStep::Reset,
            InitStep::WriteStatus(0x01),
            InitStep::WriteStatus(0x03),
            InitStep::NegotiateFeatures,
            InitStep::WriteStatus(0x0B),
            InitStep::CheckStatus,
        ]
    );
    assert_eq!(finalize_init(STATUS_ACK | STATUS_DRIVER | STATUS_FEATURES_OK), 0x0F);
    let t = VirtioTransport::Legacy { io_base: 0xC000 };
    assert!(!t.is_modern());
    assert_eq!(t.legacy_port(0x12), Some(0xC012));
    assert_eq!(t.notify_address(0), None);
    let m = VirtioTransport::Modern { common: 0, isr: 0, device_cfg: 0, notify: 0xFE00_0000, notify_off_multiplier: 4 };
    assert!(m.is_modern());
    assert_eq!(m.notify_address(3), Some(0xFE00_000C));
    assert_eq!(m.legacy_port(0), None);
}

#[test]
fn legacy_ring_layout() {
    assert_eq!(SplitVring::legacy_used_offset(128), 4096);
    assert_eq!(SplitVring::legacy_used_offset(8), 2048);
    assert_eq!(SplitVring::legacy_used_offset(0), 2048);
    assert_eq!(SplitVring::legacy_used_offset(256), 6144);
    assert_eq!(SplitVring::legacy_used_offset(910), 18432);
    let v = SplitVring::new(128, 0x10_0000, true);
    assert_eq!(v.desc_phys, 0x10_0000);
    assert_eq!(v.avail_phys, 0x10_0000 + 2048);
    assert_eq!(v.used_phys, 0x10_0000 + 4096);
    let m = SplitVring::new(8, 0x1000, false);
    assert_eq!(m.used_phys, 0x1000 + 128 + 4 + 16);
    assert_eq!(SplitVring::desc_words(0xABC, 512, 3, 2), (0xABC, 512 | (3 << 32) | (2 << 48)));
    assert_eq!(v.submit_slot(130), (2, 131));
    assert_eq!(v.submit_slot(u16::MAX), (u16::MAX % 128, 0));
}

#[test]
fn used_ring_polling_consumes_one_completion() {
    let mut v = SplitVring::new(8, 0x1000, false);
    assert!(!v.poll_completed(0));
    assert!(v.poll_completed(1));
    assert_eq!(v.last_used_idx, 1);
    assert!(!v.poll_completed(1));
}
