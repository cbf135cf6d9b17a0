//! Timer subsystem: the active tick source (PIT, HPET or Local APIC
//! timer) and the HPET / APIC arithmetic and ACPI table parsing it needs.

pub mod hpet;
pub mod apic;

use vstd::prelude::*;

verus! {

/// Active timer source selected at boot.
#[derive(Debug, Clone, Copy, PartialEq, Eq, Structural)]
pub enum TimerSource {
    Pit,
    Hpet,
    ApicTimer,
}

impl TimerSource {
    /// The source's stored code (its `repr`): PIT 0, HPET 1, APIC timer 2.
    pub open spec fn spec_code(self) -> u8 {
        match self {
            TimerSource::Pit => 0,
            TimerSource::Hpet => 1,
            TimerSource::ApicTimer => 2,
        }
    }
}

/// Target tick interval in microseconds (1 ms at 1 kHz).
pub const TICK_INTERVAL_US: u64 = 1000;

/// The stored code of the active timer source.
#[derive(Debug, Clone, Copy, PartialEq, Eq, Structural)]
pub struct TimerState {
    pub active_code: u8,
}

impl TimerState {
    /// No source selected yet: the stored code is 0 (PIT).
    pub fn new() -> (s: Self)
        ensures
            s.active_code == 0,
    {
        TimerState { active_code: 0 }
    }
}

/// The source a stored code denotes; unknown codes read as PIT.
pub open spec fn spec_source_of(code: u8) -> TimerSource {
    if code == 1 {
        TimerSource::Hpet
    } else if code == 2 {
        TimerSource::ApicTimer
    } else {
        TimerSource::Pit
    }
}

/// Record `source` as the active timer source.
pub fn set_active(state: &mut TimerState, source: TimerSource)
    ensures
        final(state).active_code == source.spec_code(),
{
    state.active_code = match source {
        TimerSource::Pit => 0,
        TimerSource::Hpet => 1,
        TimerSource::ApicTimer => 2,
    };
}

/// The active timer source.
pub fn active(state: &TimerState) -> (s: TimerSource)
    ensures
        s == spec_source_of(state.active_code),
{
    match state.active_code {
        1 => TimerSource::Hpet,
        2 => TimerSource::ApicTimer,
        _ => TimerSource::Pit,
    }
}

/// Select the boot timer: the HPET when it initialised (`hpet_ok`),
/// otherwise the PIT.
pub fn init(state: &mut TimerState, hpet_ok: bool)
    ensures
        spec_source_of(final(state).active_code) == (if hpet_ok { TimerSource::Hpet } else { TimerSource::Pit }),
{
    if hpet_ok {
        set_active(state, TimerSource::Hpet);
    } else {
        set_active(state, TimerSource::Pit);
    }
}

/// Reading the active source back gives the source last set.
pub proof fn lemma_active_after_set(source: TimerSource)
    ensures
        spec_source_of(source.spec_code()) == source,
{
}

} // verus!
