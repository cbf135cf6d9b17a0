use neodos::watchdog::{
    init_watchdog, watchdog_check, watchdog_checks, watchdog_dump_writes, watchdog_expiries,
    watchdog_in_handler, watchdog_is_armed, watchdog_last_pet_hpet, watchdog_nmi_count,
    watchdog_pet, watchdog_record_dump_write, watchdog_recoveries, watchdog_stats_string,
    watchdog_trigger, Watchdog, WatchdogAction, FS_PER_SECOND, MAX_NMI_RECOVERIES,
    WATCHDOG_TIMEOUT_US,
};

/// A 14.31818 MHz HPET, as QEMU provides.
const QEMU_FS_PERIOD: u64 = 69_841_279;

fn armed(now: u64) -> Watchdog {
    let mut wd = Watchdog::new();
    assert!(init_watchdog(&mut wd, QEMU_FS_PERIOD, now));
    wd
}

#[test]
fn watchdog_pet_resets_counter() {
    let mut wd = armed(100);
    let before = watchdog_last_pet_hpet(&wd);
    watchdog_pet(&mut wd, 5000);
    let after = watchdog_last_pet_hpet(&wd);
    assert!(after >= before);
    assert_eq!(after, 5000);
}

#[test]
fn watchdog_stats_increment() {
    let mut wd = Watchdog::new();
    let before = watchdog_checks(&wd);
    watchdog_pet(&mut wd, 1);
    let after = watchdog_checks(&wd);
    assert!(after > before);
}

#[test]
fn watchdog_armed_state() {
    let wd = Watchdog::new();
    assert!(!watchdog_is_armed(&wd));
    assert!(!watchdog_in_handler(&wd));
    assert_eq!(watchdog_nmi_count(&wd), 0);
    assert_eq!(watchdog_dump_writes(&wd), 0);
    assert_eq!(watchdog_recoveries(&wd), 0);
    assert_eq!(watchdog_expiries(&wd), 0);
}

#[test]
fn watchdog_trigger_no_reentry() {
    let mut wd = armed(0);
    assert!(!wd.in_handler);
    wd.in_handler = true;
    let before = wd;
    assert_eq!(watchdog_trigger(&mut wd, 123), WatchdogAction::Ignored);
    assert!(wd.in_handler);
    assert_eq!(wd, before);
    wd.in_handler = false;
}

#[test]
fn watchdog_hang_detection_latency() {
    let wd = armed(0);
    let counter_hz = FS_PER_SECOND / QEMU_FS_PERIOD;
    let ticks_needed = (counter_hz * WATCHDOG_TIMEOUT_US) / 1_000_000;
    assert!(ticks_needed > 0);
    assert!(ticks_needed <= 0xFFFF_FFFF);
    assert_eq!(wd.timeout_ticks, ticks_needed);
    assert_eq!(wd.timeout_ticks, 71_590_895);
}

#[test]
fn no_hpet_leaves_the_watchdog_disarmed() {
    let mut wd = Watchdog::new();
    assert!(!init_watchdog(&mut wd, 0, 55));
    assert_eq!(wd, Watchdog::new());
    watchdog_pet(&mut wd, 10);
    assert_eq!(watchdog_checks(&wd), 1);
    assert_eq!(watchdog_last_pet_hpet(&wd), 0);
    assert!(!watchdog_check(&mut wd, u64::MAX));
}

#[test]
fn expiry_after_the_timeout_only() {
    let mut wd = armed(1000);
    let t = wd.timeout_ticks;
    assert!(!watchdog_check(&mut wd, 1000 + t - 1));
    assert_eq!(watchdog_expiries(&wd), 0);
    assert!(watchdog_check(&mut wd, 1000 + t));
    assert_eq!(watchdog_expiries(&wd), 1);
}

#[test]
fn pet_postpones_expiry() {
    let mut wd = armed(0);
    let t = wd.timeout_ticks;
    watchdog_pet(&mut wd, t - 1);
    assert!(!watchdog_check(&mut wd, t));
    assert!(watchdog_check(&mut wd, 2 * t - 1));
}

#[test]
fn elapsed_time_wraps_around_the_counter() {
    let mut wd = armed(u64::MAX - 10);
    let t = wd.timeout_ticks;
    assert!(!watchdog_check(&mut wd, 5));
    assert!(watchdog_check(&mut wd, t - 11));
}

#[test]
fn trigger_rearms_until_the_limit_then_resets() {
    let mut wd = armed(0);
    for i in 0..(MAX_NMI_RECOVERIES - 1) {
        assert_eq!(watchdog_trigger(&mut wd, 100 + i), WatchdogAction::Rearmed { event_id: i });
        assert!(!wd.in_handler);
        assert_eq!(wd.last_pet_hpet, 100 + i);
    }
    let last = MAX_NMI_RECOVERIES - 1;
    assert_eq!(watchdog_trigger(&mut wd, 999), WatchdogAction::Reset { event_id: last });
    assert!(wd.in_handler);
    assert_eq!(watchdog_nmi_count(&wd), MAX_NMI_RECOVERIES);
    assert_eq!(watchdog_recoveries(&wd), MAX_NMI_RECOVERIES);
    assert_eq!(watchdog_trigger(&mut wd, 1000), WatchdogAction::Ignored);
    assert!(!watchdog_check(&mut wd, u64::MAX));
}

#[test]
fn dump_writes_are_counted() {
    let mut wd = Watchdog::new();
    watchdog_record_dump_write(&mut wd);
    watchdog_record_dump_write(&mut wd);
    assert_eq!(watchdog_dump_writes(&wd), 2);
}

#[test]
fn stats_line() {
    let mut wd = armed(7);
    watchdog_pet(&mut wd, 9);
    assert_eq!(
        watchdog_stats_string(&wd, 12),
        "WDT Stats: armed=true in_handler=false nmi_count=0 dump_writes=0 recoveries=0 checks=1 expiries=0 last_pet_hpet=9 current_hpet=12"
    );
}

#[test]
fn every_pet_is_counted() {
    let mut wd = Watchdog::new();
    watchdog_pet(&mut wd, 7);
    assert_eq!(watchdog_checks(&wd), 1);
    assert_eq!(watchdog_last_pet_hpet(&wd), 0);
    let mut wd = armed(0);
    watchdog_pet(&mut wd, 7);
    assert_eq!(watchdog_checks(&wd), 1);
    assert_eq!(watchdog_last_pet_hpet(&wd), 7);
}
