//! Local APIC register encodings and timer arithmetic.

use vstd::prelude::*;
use crate::timers::TICK_INTERVAL_US;

verus! {

/// `IA32_APIC_BASE` enable bit.
pub const IA32_APIC_BASE_ENABLE: u64 = 0x800;

/// `IA32_APIC_BASE` bootstrap-processor bit.
pub const IA32_APIC_BASE_BSP: u64 = 0x100;

/// Divide-configuration encodings.
pub const APIC_DIVIDE_1: u32 = 0b1011;
pub const APIC_DIVIDE_2: u32 = 0b0000;
pub const APIC_DIVIDE_4: u32 = 0b0001;
pub const APIC_DIVIDE_8: u32 = 0b0010;
pub const APIC_DIVIDE_16: u32 = 0b0011;
pub const APIC_DIVIDE_32: u32 = 0b1000;
pub const APIC_DIVIDE_64: u32 = 0b1001;
pub const APIC_DIVIDE_128: u32 = 0b1010;

/// IPI vector for a per-CPU reschedule.
pub const IPI_RESCHEDULE: u8 = 0xF0;

/// Calibration window in microseconds.
pub const CALIBRATION_US: u64 = 1000;

/// The divisor a divide-configuration encoding selects (16 for unknown
/// encodings).
pub open spec fn spec_divider_value(div_reg: u32) -> u64 {
    if div_reg == APIC_DIVIDE_1 {
        1
    } else if div_reg == APIC_DIVIDE_2 {
        2
    } else if div_reg == APIC_DIVIDE_4 {
        4
    } else if div_reg == APIC_DIVIDE_8 {
        8
    } else if div_reg == APIC_DIVIDE_16 {
        16
    } else if div_reg == APIC_DIVIDE_32 {
        32
    } else if div_reg == APIC_DIVIDE_64 {
        64
    } else if div_reg == APIC_DIVIDE_128 {
        128
    } else {
        16
    }
}

/// The divisor a divide-configuration encoding selects.
pub fn divider_value(div_reg: u32) -> (d: u64)
    ensures
        d == spec_divider_value(div_reg),
{
    match div_reg {
        APIC_DIVIDE_1 => 1,
        APIC_DIVIDE_2 => 2,
        APIC_DIVIDE_4 => 4,
        APIC_DIVIDE_8 => 8,
        APIC_DIVIDE_16 => 16,
        APIC_DIVIDE_32 => 32,
        APIC_DIVIDE_64 => 64,
        APIC_DIVIDE_128 => 128,
        _ => 16,
    }
}

/// Whether the `IA32_APIC_BASE` MSR value has the APIC enabled.
pub fn is_apic_enabled(msr: u64) -> (b: bool)
    ensures
        b == (msr & IA32_APIC_BASE_ENABLE != 0),
{
    msr & IA32_APIC_BASE_ENABLE != 0
}

/// Whether the `IA32_APIC_BASE` MSR value marks the bootstrap processor.
pub fn is_bsp(msr: u64) -> (b: bool)
    ensures
        b == (msr & IA32_APIC_BASE_BSP != 0),
{
    msr & IA32_APIC_BASE_BSP != 0
}

/// The APIC MMIO base an `IA32_APIC_BASE` MSR value gives (4 KiB aligned).
pub fn apic_base_from_msr(msr: u64) -> (base: u64)
    ensures
        base == msr & 0xFFFF_FFFF_FFFF_F000,
        base % 4096 == 0,
{
    let b = msr & 0xFFFF_FFFF_FFFF_F000;
    assert(msr & 0xFFFF_FFFF_FFFF_F000 == (msr & 0xFFFF_FFFF_FFFF_F000) % 4096 * 0 + (msr
        & 0xFFFF_FFFF_FFFF_F000)) by (bit_vector);
    assert((msr & 0xFFFF_FFFF_FFFF_F000) % 4096 == 0) by (bit_vector);
    b
}

/// The APIC id held in bits 31:24 of the APIC ID register.
pub fn apic_id(id_reg: u32) -> (id: u32)
    ensures
        id == (id_reg >> 24) & 0xFF,
        id == id_reg / 0x100_0000,
{
    let id = (id_reg >> 24) & 0xFF;
    assert((id_reg >> 24) & 0xFF == id_reg / 0x100_0000) by (bit_vector);
    id
}

/// The bus frequency in kHz measured by calibration: the APIC counter
/// (divide by 16, started at `0xFFFF_FFFF`) read `remaining` after
/// `CALIBRATION_US`. Nothing elapsed means failure (0); an implausible
/// result above 10 GHz falls back to 2 GHz.
pub open spec fn spec_calibrated_bus_khz(remaining: u32) -> u64 {
    let elapsed = (0xFFFF_FFFFu32 - remaining) as u64;
    if elapsed == 0 {
        0
    } else if elapsed * 16_000 / (CALIBRATION_US as int) > 10_000_000 {
        2_000_000
    } else {
        (elapsed * 16_000 / (CALIBRATION_US as int)) as u64
    }
}

/// The bus frequency in kHz measured by calibration.
pub fn calibrated_bus_khz(remaining: u32) -> (khz: u64)
    ensures
        khz == spec_calibrated_bus_khz(remaining),
{
    let elapsed: u32 = 0xFFFF_FFFFu32.wrapping_sub(remaining);
    if elapsed == 0 {
        return 0;
    }
    let bus_khz = (elapsed as u64) * 16_000 / CALIBRATION_US;
    if bus_khz > 10_000_000 {
        return 2_000_000;
    }
    bus_khz
}

/// The HPET tick count of the calibration window, for an HPET running at
/// `hpet_hz`.
pub fn calibration_hpet_ticks(hpet_hz: u64) -> (t: u64)
    requires
        hpet_hz * CALIBRATION_US <= u64::MAX,
    ensures
        t == hpet_hz * CALIBRATION_US / 1_000_000,
{
    hpet_hz * CALIBRATION_US / 1_000_000
}

/// The initial count of the periodic APIC timer (divide by 16) for a
/// `TICK_INTERVAL_US` tick at a bus frequency of `bus_khz` (truncated to
/// the 32-bit register).
pub fn apic_timer_initial_count(bus_khz: u64) -> (count: u32)
    requires
        (bus_khz / 16) * TICK_INTERVAL_US <= u64::MAX,
    ensures
        count == ((bus_khz / 16) * TICK_INTERVAL_US / 1000) % 0x1_0000_0000,
{
    let counter_khz = bus_khz / divider_value(APIC_DIVIDE_16);
    let ticks = (counter_khz * TICK_INTERVAL_US) / 1000;
    (ticks % 0x1_0000_0000) as u32
}

/// The interrupt-command register values `(high, low)` of a fixed IPI with
/// `vector` to the APIC `apic_id`.
pub fn ipi_icr(apic_id: u32, vector: u8) -> (icr: (u32, u32))
    ensures
        icr.0 == (apic_id as u64 * 0x100_0000) % 0x1_0000_0000,
        icr.1 == vector as u32,
{
    let high = ((apic_id as u64) << 24) as u32;
    assert(((apic_id as u64) << 24) as u32 == (apic_id as u64 * 0x100_0000) % 0x1_0000_0000)
        by (bit_vector);
    (high, vector as u32)
}

/// The interrupt-command register low word of a broadcast IPI with
/// `vector`: to all CPUs including the sender, or excluding it.
pub fn ipi_broadcast_icr(vector: u8, include_self: bool) -> (low: u32)
    ensures
        include_self ==> low == vector as u32 + 0xC0000,
        !include_self ==> low == vector as u32 + 0x80000,
{
    let v = vector as u32;
    if include_self {
        assert(v | (0b11u32 << 18) == v + 0xC0000) by (bit_vector)
            requires
                v < 256,
        ;
        v | (0b11 << 18)
    } else {
        assert(v | (0b10u32 << 18) == v + 0x80000) by (bit_vector)
            requires
                v < 256,
        ;
        v | (0b10 << 18)
    }
}

/// Whether an interrupt-command register read still shows the IPI pending
/// delivery (bit 12).
pub fn ipi_delivery_pending(icr_low: u32) -> (b: bool)
    ensures
        b == (icr_low & 0x1000 != 0),
{
    icr_low & 0x1000 != 0
}

} // verus!
