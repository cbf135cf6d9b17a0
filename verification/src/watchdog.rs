//! HPET-based kernel hang detection.
//!
//! The timer tick pets the watchdog; the check that follows it reports an
//! expiry when the HPET counter has advanced by the timeout (5 s) since the
//! last pet. An expiry is handled like an NMI: the first
//! `MAX_NMI_RECOVERIES - 1` are recovered from (the watchdog is re-armed),
//! the next forces a system reset. Counter values are HPET readings taken
//! by the caller.

use vstd::prelude::*;
use vstd::string::*;
use crate::fmt::{push_bool, push_digits, spec_bool_text, spec_digits};

verus! {

/// Watchdog timeout in microseconds (5 s).
pub const WATCHDOG_TIMEOUT_US: u64 = 5_000_000;

/// Number of NMIs after which the watchdog forces a reset.
pub const MAX_NMI_RECOVERIES: u64 = 3;

/// Kernel-object type id of the watchdog statistics.
pub const WATCHDOG_KOBJ_ID: u64 = 0x5744_0000_0000_0001;

/// Femtoseconds per second.
pub const FS_PER_SECOND: u64 = 1_000_000_000_000_000;

/// The HPET tick count of the timeout for a counter period in femtoseconds.
pub open spec fn spec_timeout_ticks(fs_period: u64) -> int {
    ((FS_PER_SECOND / fs_period) * WATCHDOG_TIMEOUT_US) / 1_000_000
}

/// Whether the timeout computation for `fs_period` fits in 64 bits.
pub open spec fn timeout_fits(fs_period: u64) -> bool {
    fs_period == 0 || (FS_PER_SECOND / fs_period) * WATCHDOG_TIMEOUT_US <= u64::MAX
}

/// What handling an expiry led to.
#[derive(Debug, Clone, Copy, PartialEq, Eq, Structural)]
pub enum WatchdogAction {
    /// Already inside the handler: nothing done.
    Ignored,
    /// Event published and crash dump taken; the watchdog was re-armed.
    Rearmed { event_id: u64 },
    /// Event published and crash dump taken; the system must be reset.
    Reset { event_id: u64 },
}

/// Watchdog state and statistics.
#[derive(Debug, Clone, Copy, PartialEq, Eq, Structural)]
pub struct Watchdog {
    pub event_id: u64,
    pub nmi_count: u64,
    pub dump_writes: u64,
    pub recoveries: u64,
    pub last_pet_hpet: u64,
    pub armed: bool,
    pub in_handler: bool,
    pub timeout_ticks: u64,
    pub checks: u64,
    pub expiries: u64,
}

/// `a + 1`, wrapping.
pub open spec fn wrap_inc(a: u64) -> u64 {
    if a == u64::MAX {
        0
    } else {
        (a + 1) as u64
    }
}

/// `a - b`, wrapping.
pub open spec fn wrap_sub(a: u64, b: u64) -> u64 {
    if a >= b {
        (a - b) as u64
    } else {
        (a + 0x1_0000_0000_0000_0000 - b) as u64
    }
}

impl Watchdog {
    /// A disarmed watchdog with all counters at zero.
    pub fn new() -> (w: Self)
        ensures
            w == (Watchdog {
                event_id: 0,
                nmi_count: 0,
                dump_writes: 0,
                recoveries: 0,
                last_pet_hpet: 0,
                armed: false,
                in_handler: false,
                timeout_ticks: 0,
                checks: 0,
                expiries: 0,
            }),
    {
        Watchdog {
            event_id: 0,
            nmi_count: 0,
            dump_writes: 0,
            recoveries: 0,
            last_pet_hpet: 0,
            armed: false,
            in_handler: false,
            timeout_ticks: 0,
            checks: 0,
            expiries: 0,
        }
    }
}

/// Arm the watchdog for an HPET with the given counter period (fs), taking
/// `now` as the first pet. Without an HPET (`fs_period == 0`) the watchdog
/// stays disarmed. Returns whether it is armed.
pub fn init_watchdog(wd: &mut Watchdog, fs_period: u64, now: u64) -> (armed: bool)
    requires
        timeout_fits(fs_period),
    ensures
        armed == (fs_period != 0),
        fs_period == 0 ==> *final(wd) == *old(wd),
        fs_period != 0 ==> *final(wd) == (Watchdog {
            timeout_ticks: spec_timeout_ticks(fs_period) as u64,
            armed: true,
            last_pet_hpet: now,
            ..*old(wd)
        }),
{
    if fs_period == 0 {
        return false;
    }
    let counter_hz = FS_PER_SECOND / fs_period;
    let ticks_needed = (counter_hz * WATCHDOG_TIMEOUT_US) / 1_000_000;
    wd.timeout_ticks = ticks_needed;
    wd.armed = true;
    wd.last_pet_hpet = now;
    true
}

/// Pet the watchdog at HPET counter `now`: every pet is counted; an armed
/// watchdog also restarts its timeout from `now`.
pub fn watchdog_pet(wd: &mut Watchdog, now: u64)
    ensures
        !old(wd).armed ==> *final(wd) == (Watchdog { checks: wrap_inc(old(wd).checks), ..*old(wd) }),
        old(wd).armed ==> *final(wd) == (Watchdog {
            last_pet_hpet: now,
            checks: wrap_inc(old(wd).checks),
            ..*old(wd)
        }),
{
    wd.checks = wd.checks.wrapping_add(1);
    if wd.armed {
        wd.last_pet_hpet = now;
    }
}

/// Whether the watchdog has expired at HPET counter `now`: armed, not
/// already handling an expiry, and `now - last pet` (wrapping) has reached
/// the timeout. An expiry is counted.
pub fn watchdog_check(wd: &mut Watchdog, now: u64) -> (expired: bool)
    ensures
        expired == (old(wd).armed && !old(wd).in_handler && wrap_sub(now, old(wd).last_pet_hpet)
            >= old(wd).timeout_ticks),
        expired ==> *final(wd) == (Watchdog { expiries: wrap_inc(old(wd).expiries), ..*old(wd) }),
        !expired ==> *final(wd) == *old(wd),
{
    if !wd.armed {
        return false;
    }
    if wd.in_handler {
        return false;
    }
    let elapsed = now.wrapping_sub(wd.last_pet_hpet);
    if elapsed >= wd.timeout_ticks {
        wd.expiries = wd.expiries.wrapping_add(1);
        return true;
    }
    false
}

/// Handle a detected expiry at HPET counter `now`. Unless already in the
/// handler, this enters it, counts the NMI, takes the next event id and
/// counts a recovery; then, below `MAX_NMI_RECOVERIES` NMIs, re-arms (pet at
/// `now`, handler left), otherwise asks for a reset (the handler stays
/// entered). Publishing the event, the crash dump and the reset itself are
/// the caller's.
pub fn watchdog_trigger(wd: &mut Watchdog, now: u64) -> (action: WatchdogAction)
    ensures
        old(wd).in_handler ==> action == WatchdogAction::Ignored && *final(wd) == *old(wd),
        !old(wd).in_handler && wrap_inc(old(wd).nmi_count) < MAX_NMI_RECOVERIES ==> action
            == (WatchdogAction::Rearmed { event_id: old(wd).event_id }) && *final(wd) == (Watchdog {
            nmi_count: wrap_inc(old(wd).nmi_count),
            event_id: wrap_inc(old(wd).event_id),
            recoveries: wrap_inc(old(wd).recoveries),
            last_pet_hpet: now,
            in_handler: false,
            ..*old(wd)
        }),
        !old(wd).in_handler && wrap_inc(old(wd).nmi_count) >= MAX_NMI_RECOVERIES ==> action
            == (WatchdogAction::Reset { event_id: old(wd).event_id }) && *final(wd) == (Watchdog {
            nmi_count: wrap_inc(old(wd).nmi_count),
            event_id: wrap_inc(old(wd).event_id),
            recoveries: wrap_inc(old(wd).recoveries),
            in_handler: true,
            ..*old(wd)
        }),
{
    if wd.in_handler {
        return WatchdogAction::Ignored;
    }
    wd.in_handler = true;
    wd.nmi_count = wd.nmi_count.wrapping_add(1);
    let event_id = wd.event_id;
    wd.event_id = wd.event_id.wrapping_add(1);
    wd.recoveries = wd.recoveries.wrapping_add(1);
    if wd.nmi_count < MAX_NMI_RECOVERIES {
        wd.last_pet_hpet = now;
        wd.in_handler = false;
        WatchdogAction::Rearmed { event_id }
    } else {
        WatchdogAction::Reset { event_id }
    }
}

/// Count a crash dump successfully written to disk.
pub fn watchdog_record_dump_write(wd: &mut Watchdog)
    ensures
        *final(wd) == (Watchdog { dump_writes: wrap_inc(old(wd).dump_writes), ..*old(wd) }),
{
    wd.dump_writes = wd.dump_writes.wrapping_add(1);
}

/// Number of NMI-triggered watchdog events.
pub fn watchdog_nmi_count(wd: &Watchdog) -> (n: u64)
    ensures
        n == wd.nmi_count,
{
    wd.nmi_count
}

/// Number of crash dumps written to disk.
pub fn watchdog_dump_writes(wd: &Watchdog) -> (n: u64)
    ensures
        n == wd.dump_writes,
{
    wd.dump_writes
}

/// Number of recoveries.
pub fn watchdog_recoveries(wd: &Watchdog) -> (n: u64)
    ensures
        n == wd.recoveries,
{
    wd.recoveries
}

/// HPET counter value at the last pet.
pub fn watchdog_last_pet_hpet(wd: &Watchdog) -> (n: u64)
    ensures
        n == wd.last_pet_hpet,
{
    wd.last_pet_hpet
}

/// Number of pets counted.
pub fn watchdog_checks(wd: &Watchdog) -> (n: u64)
    ensures
        n == wd.checks,
{
    wd.checks
}

/// Number of expiries detected.
pub fn watchdog_expiries(wd: &Watchdog) -> (n: u64)
    ensures
        n == wd.expiries,
{
    wd.expiries
}

/// Whether the watchdog is armed.
pub fn watchdog_is_armed(wd: &Watchdog) -> (b: bool)
    ensures
        b == wd.armed,
{
    wd.armed
}

/// Whether an expiry is being handled.
pub fn watchdog_in_handler(wd: &Watchdog) -> (b: bool)
    ensures
        b == wd.in_handler,
{
    wd.in_handler
}

/// The statistics line shown for the watchdog kernel object, with
/// `current_hpet` the HPET counter read now.
pub open spec fn spec_stats_text(wd: Watchdog, current_hpet: u64) -> Seq<char> {
    "WDT Stats: armed="@ + spec_bool_text(wd.armed) + " in_handler="@ + spec_bool_text(
        wd.in_handler,
    ) + " nmi_count="@ + spec_digits(wd.nmi_count as nat, 10) + " dump_writes="@ + spec_digits(
        wd.dump_writes as nat,
        10,
    ) + " recoveries="@ + spec_digits(wd.recoveries as nat, 10) + " checks="@ + spec_digits(
        wd.checks as nat,
        10,
    ) + " expiries="@ + spec_digits(wd.expiries as nat, 10) + " last_pet_hpet="@ + spec_digits(
        wd.last_pet_hpet as nat,
        10,
    ) + " current_hpet="@ + spec_digits(current_hpet as nat, 10)
}

/// Format the watchdog statistics.
pub fn watchdog_stats_string(wd: &Watchdog, current_hpet: u64) -> (s: String)
    ensures
        s@ == spec_stats_text(*wd, current_hpet),
{
    let mut s = String::from_str("WDT Stats: armed=");
    push_bool(&mut s, wd.armed);
    s.append(" in_handler=");
    push_bool(&mut s, wd.in_handler);
    s.append(" nmi_count=");
    push_digits(&mut s, wd.nmi_count, 10);
    s.append(" dump_writes=");
    push_digits(&mut s, wd.dump_writes, 10);
    s.append(" recoveries=");
    push_digits(&mut s, wd.recoveries, 10);
    s.append(" checks=");
    push_digits(&mut s, wd.checks, 10);
    s.append(" expiries=");
    push_digits(&mut s, wd.expiries, 10);
    s.append(" last_pet_hpet=");
    push_digits(&mut s, wd.last_pet_hpet, 10);
    s.append(" current_hpet=");
    push_digits(&mut s, current_hpet, 10);
    s
}

/// Whether a check at HPET counter `now` reports an expiry.
pub open spec fn spec_expired(wd: Watchdog, now: u64) -> bool {
    wd.armed && !wd.in_handler && wrap_sub(now, wd.last_pet_hpet) >= wd.timeout_ticks
}

/// A pet restarts hang detection: after a pet at `pet_at` on an armed
/// watchdog outside the handler, a check at `now` expires exactly when
/// `now - pet_at` (wrapping) has reached the timeout; in particular a check
/// right after the pet does not expire (for a non-zero timeout).
pub proof fn lemma_pet_restarts_timeout(wd: Watchdog, pet_at: u64, now: u64)
    requires
        wd.armed,
        !wd.in_handler,
    ensures
        spec_expired(
            Watchdog { last_pet_hpet: pet_at, checks: wrap_inc(wd.checks), ..wd },
            now,
        ) == (wrap_sub(now, pet_at) >= wd.timeout_ticks),
        wd.timeout_ticks > 0 ==> !spec_expired(
            Watchdog { last_pet_hpet: pet_at, checks: wrap_inc(wd.checks), ..wd },
            pet_at,
        ),
{
}

/// For every HPET counter period the HPET specification allows (at most
/// 100 ns) down to the fastest counter a 32-bit comparator can time for
/// 5 s, the timeout is positive and fits in 32 bits.
pub proof fn lemma_timeout_in_comparator_range(fs_period: u64)
    requires
        1_164_154 <= fs_period <= 100_000_000,
    ensures
        timeout_fits(fs_period),
        0 < spec_timeout_ticks(fs_period) <= 0xFFFF_FFFF,
{
    let hz = FS_PER_SECOND / fs_period;
    assert(10_000_000 <= hz <= 858_993_240) by (nonlinear_arith)
        requires
            hz == FS_PER_SECOND / fs_period,
            1_164_154 <= fs_period <= 100_000_000,
    {
        assert(FS_PER_SECOND / fs_period <= FS_PER_SECOND / 1_164_154) by {
            vstd::arithmetic::div_mod::lemma_div_is_ordered_by_denominator(
                FS_PER_SECOND as int,
                1_164_154,
                fs_period as int,
            );
        }
        assert(FS_PER_SECOND / fs_period >= FS_PER_SECOND / 100_000_000) by {
            vstd::arithmetic::div_mod::lemma_div_is_ordered_by_denominator(
                FS_PER_SECOND as int,
                fs_period as int,
                100_000_000,
            );
        }
    }
    assert((hz * 5_000_000) / 1_000_000 == hz * 5) by (nonlinear_arith);
}

} // verus!
