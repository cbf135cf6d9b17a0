use neodos::timers::apic::{
    apic_base_from_msr, apic_id, apic_timer_initial_count, calibrated_bus_khz,
    calibration_hpet_ticks, divider_value, ipi_broadcast_icr, ipi_delivery_pending, ipi_icr,
    is_apic_enabled, is_bsp, APIC_DIVIDE_1, APIC_DIVIDE_128, APIC_DIVIDE_16,
};
use neodos::timers::hpet::{
    acpi_checksum, find_ioapic, find_table, get_ecam_info, get_isa_overrides, hpet_base_address,
    hpet_comparator, hpet_init_check, read_hpet_fs_period, root_entries, root_table,
    scan_range_for_rsdp, sleep_elapsed, sleep_ticks, ticks_to_us, timer0_periodic_check,
    validate_rsdp, HpetInitError, RootTable, GENERAL_ENABLE_LEGACY, TIMER0_CONFIG,
};
use neodos::timers::{active, init, set_active, TimerSource, TimerState};

const QEMU_FS_PERIOD: u64 = 69_841_279;

fn with_checksum(mut b: Vec<u8>, at: usize, upto: usize) -> Vec<u8> {
    b[at] = 0;
    let sum: u32 = b[..upto].iter().map(|&x| x as u32).sum();
    b[at] = (256 - (sum % 256) as u32) as u8;
    b
}

fn madt(records: &[u8]) -> Vec<u8> {
    let mut b = vec![0u8; 44];
    b[0..4].copy_from_slice(b"APIC");
    let len = (44 + records.len()) as u32;
    b[4..8].copy_from_slice(&len.to_le_bytes());
    b.extend_from_slice(records);
    b
}

#[test]
fn checksums() {
    assert!(acpi_checksum(&[]));
    assert!(acpi_checksum(&[0x80, 0x80]));
    assert!(!acpi_checksum(&[1]));
    assert!(acpi_checksum(&[255, 1, 0]));
}

#[test]
fn rsdp_validation() {
    let mut b = vec![0u8; 36];
    b[..8].copy_from_slice(b"RSD PTR ");
    let v1 = with_checksum(b.clone(), 8, 20);
    assert!(validate_rsdp(&v1[..20]));
    let mut bad = v1.clone();
    bad[0] = b'X';
    assert!(!validate_rsdp(&bad[..20]));
    let mut v2 = b.clone();
    v2[15] = 2;
    let v2 = with_checksum(v2, 8, 20);
    let v2 = with_checksum(v2, 32, 36);
    assert!(validate_rsdp(&v2));
    let mut v2bad = v2.clone();
    v2bad[33] ^= 1;
    assert!(!validate_rsdp(&v2bad));
}

#[test]
fn madt_records() {
    let mut recs = vec![0u8, 8, 0, 0, 1, 0, 0, 0];
    recs.extend_from_slice(&[2, 10, 0, 0, 2, 0, 0, 0, 0, 0]);
    recs.extend_from_slice(&[1, 12, 1, 0]);
    recs.extend_from_slice(&0xFEC0_0000u32.to_le_bytes());
    recs.extend_from_slice(&0u32.to_le_bytes());
    recs.extend_from_slice(&[2, 10, 0, 9, 9, 0, 0, 0, 0x0D, 0]);
    let t = madt(&recs);
    assert_eq!(find_ioapic(&t), Some((0xFEC0_0000, 0)));
    assert_eq!(get_isa_overrides(&t), vec![(0, 2, 0), (9, 9, 0x0D)]);
    let empty = madt(&[]);
    assert_eq!(find_ioapic(&empty), None);
    assert!(get_isa_overrides(&empty).is_empty());
    let stop = madt(&[0, 1, 1, 12]);
    assert_eq!(find_ioapic(&stop), None);
}

#[test]
fn mcfg_ecam() {
    let mut b = vec![0u8; 60];
    b[4..8].copy_from_slice(&60u32.to_le_bytes());
    b[44..52].copy_from_slice(&0xB000_0000u64.to_le_bytes());
    b[52..54].copy_from_slice(&0u16.to_le_bytes());
    b[54] = 0;
    b[55] = 0xFF;
    assert_eq!(get_ecam_info(&b), Some((0xB000_0000, 0, 0, 0xFF)));
    let mut short = b.clone();
    short[4..8].copy_from_slice(&59u32.to_le_bytes());
    assert_eq!(get_ecam_info(&short), None);
    let mut zero = b.clone();
    zero[44..52].copy_from_slice(&[0; 8]);
    assert_eq!(get_ecam_info(&zero), None);
}

#[test]
fn hpet_arithmetic() {
    assert_eq!(read_hpet_fs_period((QEMU_FS_PERIOD << 32) | 0x8086_A201), QEMU_FS_PERIOD);
    assert_eq!(hpet_comparator(QEMU_FS_PERIOD), Some(14_318));
    assert_eq!(hpet_comparator(u64::MAX), None);
    assert_eq!(ticks_to_us(14_318_180, QEMU_FS_PERIOD), 1_000_000);
    assert_eq!(ticks_to_us(100, 0), 0);
    assert_eq!(sleep_ticks(1000, QEMU_FS_PERIOD), 14_318);
    assert!(sleep_elapsed(10, 20, 10));
    assert!(!sleep_elapsed(10, 19, 10));
    assert!(sleep_elapsed(u64::MAX - 4, 5, 10));
}

#[test]
fn apic_arithmetic() {
    assert_eq!(divider_value(APIC_DIVIDE_1), 1);
    assert_eq!(divider_value(APIC_DIVIDE_16), 16);
    assert_eq!(divider_value(APIC_DIVIDE_128), 128);
    assert_eq!(divider_value(0b0111), 16);
    assert!(is_apic_enabled(0xFEE0_0900));
    assert!(!is_apic_enabled(0xFEE0_0100));
    assert!(is_bsp(0xFEE0_0900));
    assert_eq!(apic_base_from_msr(0xFEE0_0900), 0xFEE0_0000);
    assert_eq!(apic_id(0x0300_0000), 3);
    assert_eq!(calibrated_bus_khz(0xFFFF_FFFF), 0);
    assert_eq!(calibrated_bus_khz(0xFFFF_FFFF - 6250), 100_000);
    assert_eq!(calibrated_bus_khz(0), 2_000_000);
    assert_eq!(calibration_hpet_ticks(14_318_180), 14_318);
    assert_eq!(apic_timer_initial_count(100_000), 6250);
    assert_eq!(ipi_icr(3, 0xF0), (0x0300_0000, 0xF0));
    assert_eq!(ipi_broadcast_icr(0xF0, true), 0xC00F0);
    assert_eq!(ipi_broadcast_icr(0xF0, false), 0x800F0);
    assert!(ipi_delivery_pending(0x1000));
    assert!(!ipi_delivery_pending(0x0FFF));
}

#[test]
fn active_timer_source() {
    let mut s = TimerState::new();
    assert_eq!(active(&s), TimerSource::Pit);
    set_active(&mut s, TimerSource::ApicTimer);
    assert_eq!(active(&s), TimerSource::ApicTimer);
    init(&mut s, true);
    assert_eq!(active(&s), TimerSource::Hpet);
    init(&mut s, false);
    assert_eq!(active(&s), TimerSource::Pit);
}

fn rsdp_v1(rsdt: u32) -> Vec<u8> {
    let mut b = vec![0u8; 20];
    b[..8].copy_from_slice(b"RSD PTR ");
    b[16..20].copy_from_slice(&rsdt.to_le_bytes());
    with_checksum(b, 8, 20)
}

#[test]
fn rsdp_scan_finds_first_aligned_candidate() {
    let mut mem = vec![0u8; 68];
    // A signature off the 16-byte grid is not looked at.
    mem[4..12].copy_from_slice(b"RSD PTR ");
    let r = rsdp_v1(0x7FE_0000);
    mem[32..52].copy_from_slice(&r);
    assert_eq!(scan_range_for_rsdp(&mem, 64), Some(32));
    // Below the limit the candidate's first 16 bytes do not fit.
    assert_eq!(scan_range_for_rsdp(&mem, 47), None);
    // A bad checksum is skipped.
    let mut bad = mem.clone();
    bad[40] ^= 0xFF;
    assert_eq!(scan_range_for_rsdp(&bad, 64), None);
    assert_eq!(scan_range_for_rsdp(&[0u8; 4], 0), None);
}

#[test]
fn root_table_choice() {
    let v1 = rsdp_v1(0x1234_5678);
    assert_eq!(root_table(&v1), RootTable { addr: 0x1234_5678, wide: false });
    let mut v2 = vec![0u8; 36];
    v2[..20].copy_from_slice(&v1);
    v2[15] = 2;
    v2[24..32].copy_from_slice(&0x1_0000_2000u64.to_le_bytes());
    assert_eq!(root_table(&v2), RootTable { addr: 0x1_0000_2000, wide: true });
    // ACPI 2.0 with no XSDT address falls back to the RSDT.
    v2[24..32].copy_from_slice(&0u64.to_le_bytes());
    assert_eq!(root_table(&v2), RootTable { addr: 0x1234_5678, wide: false });
}

fn sdt(sig: &[u8; 4], payload: &[u8]) -> Vec<u8> {
    let mut b = vec![0u8; 36];
    b[..4].copy_from_slice(sig);
    let len = (36 + payload.len()) as u32;
    b[4..8].copy_from_slice(&len.to_le_bytes());
    b.extend_from_slice(payload);
    b
}

#[test]
fn rsdt_and_xsdt_entries() {
    let mut p = Vec::new();
    p.extend_from_slice(&0x1000u32.to_le_bytes());
    p.extend_from_slice(&0x2000u32.to_le_bytes());
    p.extend_from_slice(&0x3000u32.to_le_bytes());
    let rsdt = sdt(b"RSDT", &p);
    assert_eq!(root_entries(&rsdt, false), Some(vec![0x1000, 0x2000, 0x3000]));
    assert_eq!(root_entries(&rsdt, true), None);
    let mut q = Vec::new();
    q.extend_from_slice(&0x1_0000_0000u64.to_le_bytes());
    q.extend_from_slice(&0x2000u64.to_le_bytes());
    q.extend_from_slice(&[1, 2, 3]);
    let xsdt = sdt(b"XSDT", &q);
    assert_eq!(root_entries(&xsdt, true), Some(vec![0x1_0000_0000, 0x2000]));
    assert_eq!(root_entries(&xsdt, false), None);
    assert_eq!(root_entries(&sdt(b"RSDT", &[]), false), Some(vec![]));
}

#[test]
fn table_by_signature() {
    let sigs = [*b"FACP", *b"APIC", *b"HPET", *b"APIC"];
    assert_eq!(find_table(&sigs, *b"APIC"), Some(1));
    assert_eq!(find_table(&sigs, *b"HPET"), Some(2));
    assert_eq!(find_table(&sigs, *b"MCFG"), None);
    assert_eq!(find_table(&[], *b"HPET"), None);
}

#[test]
fn hpet_table_and_init_checks() {
    let mut payload = vec![0u8; 20];
    payload[8..16].copy_from_slice(&0xFED0_0000u64.to_le_bytes());
    let table = sdt(b"HPET", &payload);
    assert_eq!(hpet_base_address(&table), 0xFED0_0000);

    assert_eq!(hpet_init_check(false, 0, 0), Err(HpetInitError::TableNotFound));
    assert_eq!(hpet_init_check(true, 0, 0), Err(HpetInitError::InvalidBase));
    assert_eq!(hpet_init_check(true, 0xFED0_0000, QEMU_FS_PERIOD), Ok(14_318));
    assert_eq!(hpet_init_check(true, 0xFED0_0000, u64::MAX), Err(HpetInitError::InvalidComparator));
    assert_eq!(timer0_periodic_check(0x30), Ok(()));
    assert_eq!(timer0_periodic_check(0x20), Err(HpetInitError::NotPeriodic));
    assert_eq!(TIMER0_CONFIG, 0b1100);
    assert_eq!(GENERAL_ENABLE_LEGACY, 0b11);
}
