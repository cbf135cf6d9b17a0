//! HPET arithmetic and the ACPI tables it is found through (RSDP, MADT,
//! MCFG), parsed from the table bytes.

use vstd::prelude::*;
use crate::timers::TICK_INTERVAL_US;

verus! {

/// Femtoseconds per second.
pub const FS_PER_SECOND: u64 = 1_000_000_000_000_000;

/// Size of an ACPI SDT header.
pub const SDT_HEADER_SIZE: u64 = 36;

/// Size of the fixed part of the MADT (header, local APIC address, flags).
pub const MADT_HEADER_SIZE: u64 = 44;

/// Size of the fixed part of the MCFG (header and 8 reserved bytes).
pub const MCFG_FIXED_SIZE: u64 = 44;

/// Size of one MCFG allocation entry.
pub const MCFG_ENTRY_SIZE: u64 = 16;

/// Sum of the bytes.
pub open spec fn byte_sum(s: Seq<u8>) -> int
    decreases s.len(),
{
    if s.len() == 0 {
        0
    } else {
        byte_sum(s.drop_last()) + s.last()
    }
}

/// An ACPI checksum holds when the bytes sum to 0 modulo 256.
pub open spec fn spec_checksum_ok(s: Seq<u8>) -> bool {
    byte_sum(s) % 256 == 0
}

/// Validate an ACPI table checksum: the bytes must sum to 0 (mod 256).
pub fn acpi_checksum(data: &[u8]) -> (ok: bool)
    ensures
        ok == spec_checksum_ok(data@),
{
    let mut sum: u8 = 0;
    let mut i: usize = 0;
    while i < data.len()
        invariant
            i <= data@.len(),
            sum as int == byte_sum(data@.subrange(0, i as int)) % 256,
        decreases data@.len() - i,
    {
        assert(data@.subrange(0, i + 1).drop_last() =~= data@.subrange(0, i as int));
        sum = sum.wrapping_add(data[i]);
        i = i + 1;
    }
    assert(data@.subrange(0, data@.len() as int) =~= data@);
    sum == 0
}

/// The RSDP signature `RSD PTR `.
pub open spec fn rsdp_signature() -> Seq<u8> {
    seq![82u8, 83, 68, 32, 80, 84, 82, 32]
}

/// Whether the bytes at a candidate RSDP form a valid one: the signature,
/// the checksum of the first 20 bytes, and for ACPI 2.0+ (revision at byte
/// 15 at least 2) the checksum of the first 36 bytes.
pub open spec fn spec_valid_rsdp(b: Seq<u8>) -> bool {
    &&& b.subrange(0, 8) == rsdp_signature()
    &&& spec_checksum_ok(b.subrange(0, 20))
    &&& (b[15] >= 2 ==> spec_checksum_ok(b.subrange(0, 36)))
}

/// Validate a candidate RSDP given its bytes (at least 20, and 36 when the
/// revision byte says ACPI 2.0+).
pub fn validate_rsdp(b: &[u8]) -> (ok: bool)
    requires
        b@.len() >= 20,
        b@[15] >= 2 ==> b@.len() >= 36,
    ensures
        ok == spec_valid_rsdp(b@),
{
    let sig: [u8; 8] = [82, 83, 68, 32, 80, 84, 82, 32];
    let mut i: usize = 0;
    while i < 8
        invariant
            b@.len() >= 20,
            sig@ == rsdp_signature(),
            i <= 8,
            forall|j: int| 0 <= j < i ==> b@[j] == rsdp_signature()[j],
        decreases 8 - i,
    {
        if b[i] != sig[i] {
            assert(b@.subrange(0, 8)[i as int] != rsdp_signature()[i as int]);
            return false;
        }
        i = i + 1;
    }
    assert(b@.subrange(0, 8) =~= rsdp_signature());
    let (first20, _) = b.split_at(20);
    if !acpi_checksum(first20) {
        return false;
    }
    if b[15] >= 2 {
        let (first36, _) = b.split_at(36);
        if !acpi_checksum(first36) {
            return false;
        }
    }
    true
}

/// Little-endian 16-bit value at `off`.
pub open spec fn le_u16(b: Seq<u8>, off: int) -> int {
    b[off] + 256 * b[off + 1]
}

/// Little-endian 32-bit value at `off`.
pub open spec fn le_u32(b: Seq<u8>, off: int) -> int {
    b[off] + 256 * b[off + 1] + 65536 * b[off + 2] + 16777216 * b[off + 3]
}

/// Little-endian 64-bit value at `off`.
pub open spec fn le_u64(b: Seq<u8>, off: int) -> int {
    le_u32(b, off) + 4294967296 * le_u32(b, off + 4)
}

fn read_u16(b: &[u8], off: usize) -> (v: u16)
    requires
        off + 2 <= b.len(),
    ensures
        v == le_u16(b@, off as int),
{
    b[off] as u16 + (b[off + 1] as u16) * 256
}

pub(crate) fn read_u32(b: &[u8], off: usize) -> (v: u32)
    requires
        off + 4 <= b.len(),
    ensures
        v == le_u32(b@, off as int),
{
    b[off] as u32 + (b[off + 1] as u32) * 256 + (b[off + 2] as u32) * 65536 + (b[off + 3] as u32)
        * 16777216
}

pub(crate) fn read_u64(b: &[u8], off: usize) -> (v: u64)
    requires
        off + 8 <= b.len(),
    ensures
        v == le_u64(b@, off as int),
{
    read_u32(b, off) as u64 + (read_u32(b, off + 4) as u64) * 4294967296
}

/// The length field of an SDT header.
pub open spec fn sdt_length(b: Seq<u8>) -> int {
    le_u32(b, 4)
}

/// Whether `b` holds a whole SDT as its header sizes it.
pub open spec fn whole_table(b: Seq<u8>) -> bool {
    b.len() >= SDT_HEADER_SIZE && sdt_length(b) <= b.len()
}

/// The first I/O APIC `(address, GSI base)` among the MADT records from
/// `off` to `total`. Each record is type, length, payload; a record shorter
/// than 2 bytes ends the scan, as does a record running past the table
/// bytes; an I/O APIC record (type 1, length at least 12) with a non-zero
/// address is the answer.
pub open spec fn spec_ioapic_from(b: Seq<u8>, total: int, off: int) -> Option<(u32, u32)>
    decreases total - off,
{
    if off < 0 || off + 2 > total || off + 2 > b.len() {
        None
    } else {
        let ty = b[off];
        let rl = b[off + 1] as int;
        if rl < 2 {
            None
        } else if ty == 1 && rl >= 12 {
            if off + 12 > b.len() {
                None
            } else if le_u32(b, off + 4) != 0 {
                Some((le_u32(b, off + 4) as u32, le_u32(b, off + 8) as u32))
            } else if off + rl + 2 > total {
                None
            } else {
                spec_ioapic_from(b, total, off + rl)
            }
        } else if off + rl + 2 > total {
            None
        } else {
            spec_ioapic_from(b, total, off + rl)
        }
    }
}

/// The first I/O APIC of a MADT.
pub open spec fn spec_find_ioapic(b: Seq<u8>) -> Option<(u32, u32)> {
    let total = sdt_length(b);
    if total <= MADT_HEADER_SIZE {
        None
    } else {
        spec_ioapic_from(b, total, MADT_HEADER_SIZE as int)
    }
}

/// Find the first I/O APIC `(address, GSI base)` in the MADT `madt`.
pub fn find_ioapic(madt: &[u8]) -> (r: Option<(u32, u32)>)
    requires
        whole_table(madt@),
    ensures
        r == spec_find_ioapic(madt@),
{
    let total_len = read_u32(madt, 4) as u64;
    if total_len <= MADT_HEADER_SIZE {
        return None;
    }
    let mut offset: u64 = MADT_HEADER_SIZE;
    while offset + 2 <= total_len
        invariant
            whole_table(madt@),
            total_len == sdt_length(madt@),
            MADT_HEADER_SIZE <= offset,
            offset <= total_len + 256,
            spec_ioapic_from(madt@, total_len as int, offset as int) == spec_find_ioapic(madt@),
        decreases total_len + 256 - offset,
    {
        let off = offset as usize;
        let entry_type = madt[off];
        let record_length = madt[off + 1] as u64;
        if record_length < 2 {
            return None;
        }
        if entry_type == 1 && record_length >= 12 {
            if madt.len() - off < 12 {
                return None;
            }
            let addr = read_u32(madt, off + 4);
            if addr != 0 {
                return Some((addr, read_u32(madt, off + 8)));
            }
        }
        offset = offset + record_length;
    }
    None
}

/// The ISA interrupt source overrides `(source IRQ, GSI, flags)` among the
/// MADT records from `off` to `total`, in table order (type 2 records of
/// length at least 10; the scan ends as for `spec_ioapic_from`).
pub open spec fn spec_overrides_from(b: Seq<u8>, total: int, off: int) -> Seq<(u8, u32, u16)>
    decreases total - off,
{
    if off < 0 || off + 2 > total || off + 2 > b.len() {
        Seq::empty()
    } else {
        let ty = b[off];
        let rl = b[off + 1] as int;
        if rl < 2 {
            Seq::empty()
        } else if ty == 2 && rl >= 10 {
            if off + 10 > b.len() {
                Seq::empty()
            } else if off + rl + 2 > total {
                seq![(b[off + 3], le_u32(b, off + 4) as u32, le_u16(b, off + 8) as u16)]
            } else {
                seq![(b[off + 3], le_u32(b, off + 4) as u32, le_u16(b, off + 8) as u16)]
                    + spec_overrides_from(b, total, off + rl)
            }
        } else if off + rl + 2 > total {
            Seq::empty()
        } else {
            spec_overrides_from(b, total, off + rl)
        }
    }
}

/// All ISA interrupt source overrides of a MADT.
pub open spec fn spec_isa_overrides(b: Seq<u8>) -> Seq<(u8, u32, u16)> {
    let total = sdt_length(b);
    if total <= MADT_HEADER_SIZE {
        Seq::empty()
    } else {
        spec_overrides_from(b, total, MADT_HEADER_SIZE as int)
    }
}

/// All ISA interrupt source overrides `(source IRQ, GSI, flags)` of the
/// MADT `madt`, in table order.
pub fn get_isa_overrides(madt: &[u8]) -> (r: Vec<(u8, u32, u16)>)
    requires
        whole_table(madt@),
    ensures
        r@ == spec_isa_overrides(madt@),
{
    let mut overrides: Vec<(u8, u32, u16)> = Vec::new();
    let total_len = read_u32(madt, 4) as u64;
    if total_len <= MADT_HEADER_SIZE {
        return overrides;
    }
    let mut offset: u64 = MADT_HEADER_SIZE;
    while offset + 2 <= total_len
        invariant
            whole_table(madt@),
            total_len == sdt_length(madt@),
            MADT_HEADER_SIZE <= offset,
            offset <= total_len + 256,
            overrides@ + spec_overrides_from(madt@, total_len as int, offset as int)
                == spec_isa_overrides(madt@),
        decreases total_len + 256 - offset,
    {
        let off = offset as usize;
        let entry_type = madt[off];
        let record_length = madt[off + 1] as u64;
        if record_length < 2 {
            assert(overrides@ =~= overrides@ + Seq::<(u8, u32, u16)>::empty());
            return overrides;
        }
        if entry_type == 2 && record_length >= 10 {
            if madt.len() - off < 10 {
                assert(overrides@ =~= overrides@ + Seq::<(u8, u32, u16)>::empty());
                return overrides;
            }
            let item = (madt[off + 3], read_u32(madt, off + 4), read_u16(madt, off + 8));
            let ghost before = overrides@;
            overrides.push(item);
            assert(overrides@ + spec_overrides_from(
                madt@,
                total_len as int,
                (offset + record_length) as int,
            ) =~= before + spec_overrides_from(madt@, total_len as int, offset as int));
        }
        offset = offset + record_length;
    }
    assert(overrides@ =~= overrides@ + Seq::<(u8, u32, u16)>::empty());
    overrides
}

/// The first PCIe ECAM allocation of an MCFG:
/// `(base address, segment group, start bus, end bus)`, when the table has
/// room for one entry and its base address is not 0.
pub open spec fn spec_ecam_info(b: Seq<u8>) -> Option<(u64, u16, u8, u8)> {
    let len = sdt_length(b);
    let data_avail = if len >= SDT_HEADER_SIZE { len - SDT_HEADER_SIZE } else { 0 };
    let entries = if data_avail >= 8 { data_avail - 8 } else { 0 };
    if entries < MCFG_ENTRY_SIZE {
        None
    } else if le_u64(b, 44) == 0 {
        None
    } else {
        Some((le_u64(b, 44) as u64, le_u16(b, 52) as u16, b[54], b[55]))
    }
}

/// Extract the first ECAM allocation from the MCFG `mcfg`.
pub fn get_ecam_info(mcfg: &[u8]) -> (r: Option<(u64, u16, u8, u8)>)
    requires
        whole_table(mcfg@),
    ensures
        r == spec_ecam_info(mcfg@),
{
    let length = read_u32(mcfg, 4);
    let data_avail = length.saturating_sub(36);
    let entries_bytes = data_avail.saturating_sub(8);
    if entries_bytes < 16 {
        return None;
    }
    let base_addr = read_u64(mcfg, 44);
    if base_addr == 0 {
        return None;
    }
    Some((base_addr, read_u16(mcfg, 52), mcfg[54], mcfg[55]))
}

/// The counter period in femtoseconds: bits 63:32 of the capabilities
/// register.
pub fn read_hpet_fs_period(cap: u64) -> (period: u64)
    ensures
        period == cap / 0x1_0000_0000,
{
    let p = cap >> 32;
    assert(cap >> 32 == cap / 0x1_0000_0000) by (bit_vector);
    p
}

/// The comparator value for a `TICK_INTERVAL_US` tick at the given counter
/// period.
pub open spec fn spec_tick_comparator(fs_period: u64) -> int {
    ((FS_PER_SECOND / fs_period) * TICK_INTERVAL_US) / 1_000_000
}

/// The timer-0 comparator value with which `init_hpet` programs a 1 kHz
/// tick, or `None` when the counter period gives an unusable value (zero or
/// above 32 bits), in which case the HPET is not used.
pub fn hpet_comparator(fs_period: u64) -> (r: Option<u64>)
    requires
        fs_period > 0,
    ensures
        r is Some <==> 0 < spec_tick_comparator(fs_period) <= 0xFFFF_FFFF,
        r matches Some(t) ==> t == spec_tick_comparator(fs_period),
{
    let counter_hz = FS_PER_SECOND / fs_period;
    let ticks_needed = (counter_hz * TICK_INTERVAL_US) / 1_000_000;
    if ticks_needed == 0 || ticks_needed > 0xFFFF_FFFF {
        None
    } else {
        Some(ticks_needed)
    }
}

/// Convert HPET counter ticks to microseconds (0 without an HPET).
pub fn ticks_to_us(ticks: u64, fs_period: u64) -> (us: u64)
    requires
        ticks * fs_period <= u64::MAX,
    ensures
        fs_period == 0 ==> us == 0,
        fs_period != 0 ==> us == (ticks * fs_period) / 1_000_000_000,
{
    if fs_period == 0 {
        return 0;
    }
    (ticks * fs_period) / 1_000_000_000
}

/// The HPET tick count a busy-wait of `us` microseconds waits for.
pub fn sleep_ticks(us: u64, fs_period: u64) -> (t: u64)
    requires
        fs_period > 0,
        (FS_PER_SECOND / fs_period) * us <= u64::MAX,
    ensures
        t == ((FS_PER_SECOND / fs_period) * us) / 1_000_000,
{
    let counter_hz = FS_PER_SECOND / fs_period;
    (counter_hz * us) / 1_000_000
}

/// Whether a busy-wait that started at counter `start` is over at counter
/// `now` (the counter may wrap).
pub fn sleep_elapsed(start: u64, now: u64, ticks_needed: u64) -> (done: bool)
    ensures
        done == ((if now >= start { now - start } else { now + 0x1_0000_0000_0000_0000 - start })
            >= ticks_needed),
{
    now.wrapping_sub(start) >= ticks_needed
}


/// Whether the bytes at `off` of a scanned region hold an RSDP candidate:
/// the `RSD PTR ` signature and a valid checksum over the first 20 bytes.
pub open spec fn spec_rsdp_candidate(mem: Seq<u8>, off: int) -> bool {
    &&& mem.subrange(off, off + 8) == rsdp_signature()
    &&& spec_checksum_ok(mem.subrange(off, off + 20))
}

/// The offset of the first RSDP candidate at a 16-byte step from `off`
/// whose first 16 bytes lie below `limit`.
pub open spec fn spec_rsdp_scan(mem: Seq<u8>, limit: int, off: int) -> Option<int>
    decreases limit - off,
{
    if off < 0 || off + 16 > limit {
        None
    } else if spec_rsdp_candidate(mem, off) {
        Some(off)
    } else {
        spec_rsdp_scan(mem, limit, off + 16)
    }
}

fn rsdp_candidate(mem: &[u8], off: usize) -> (ok: bool)
    requires
        off + 20 <= mem@.len(),
    ensures
        ok == spec_rsdp_candidate(mem@, off as int),
{
    let sig: [u8; 8] = [82, 83, 68, 32, 80, 84, 82, 32];
    let mut i: usize = 0;
    while i < 8
        invariant
            off + 20 <= mem.len(),
            sig@ == rsdp_signature(),
            i <= 8,
            forall|j: int| 0 <= j < i ==> mem@[off + j] == rsdp_signature()[j],
        decreases 8 - i,
    {
        if mem[off + i] != sig[i] {
            assert(mem@.subrange(off as int, off + 8)[i as int] != rsdp_signature()[i as int]);
            return false;
        }
        i = i + 1;
    }
    assert(mem@.subrange(off as int, off + 8) =~= rsdp_signature());
    let (_, tail) = mem.split_at(off);
    let (first20, _) = tail.split_at(20);
    assert(first20@ =~= mem@.subrange(off as int, off + 20));
    acpi_checksum(first20)
}

/// Scan a memory region for the RSDP: the region's bytes are `mem`, the
/// scan covers 16-byte steps whose first 16 bytes lie below `limit`, and a
/// candidate's 20 checksummed bytes must be readable (`mem` reaches 4 bytes
/// past `limit`). Returns the offset of the first candidate.
pub fn scan_range_for_rsdp(mem: &[u8], limit: usize) -> (r: Option<usize>)
    requires
        limit + 4 <= mem@.len(),
    ensures
        r is None <==> spec_rsdp_scan(mem@, limit as int, 0) is None,
        r matches Some(o) ==> spec_rsdp_scan(mem@, limit as int, 0) == Some(o as int),
{
    let mut off: usize = 0;
    while off <= limit && limit - off >= 16
        invariant
            limit + 4 <= mem.len(),
            off <= limit + 16,
            off % 16 == 0,
            spec_rsdp_scan(mem@, limit as int, off as int) == spec_rsdp_scan(mem@, limit as int, 0),
        decreases limit + 16 - off,
    {
        if rsdp_candidate(mem, off) {
            return Some(off);
        }
        off = off + 16;
    }
    None
}

/// The root system description table an RSDP points to: the XSDT (64-bit
/// entries) when the RSDP is ACPI 2.0+ and gives a non-zero XSDT address,
/// else the RSDT (32-bit entries).
#[derive(Clone, Copy, Debug, PartialEq, Eq, Structural)]
pub struct RootTable {
    pub addr: u64,
    /// 64-bit entries (XSDT).
    pub wide: bool,
}

/// The root table an RSDP's bytes select.
pub open spec fn spec_root_table(b: Seq<u8>) -> RootTable {
    if b[15] >= 2 && le_u64(b, 24) != 0 {
        RootTable { addr: le_u64(b, 24) as u64, wide: true }
    } else {
        RootTable { addr: le_u32(b, 16) as u64, wide: false }
    }
}

/// Choose the RSDT or XSDT from the RSDP's bytes.
pub fn root_table(rsdp: &[u8]) -> (r: RootTable)
    requires
        rsdp@.len() >= 20,
        rsdp@[15] >= 2 ==> rsdp@.len() >= 36,
    ensures
        r == spec_root_table(rsdp@),
{
    if rsdp[15] >= 2 {
        let xsdt = read_u64(rsdp, 24);
        if xsdt != 0 {
            return RootTable { addr: xsdt, wide: true };
        }
    }
    RootTable { addr: read_u32(rsdp, 16) as u64, wide: false }
}

/// The signature `RSDT` or `XSDT`.
pub open spec fn root_signature(wide: bool) -> Seq<u8> {
    if wide {
        seq![88u8, 83, 68, 84]
    } else {
        seq![82u8, 83, 68, 84]
    }
}

/// Width in bytes of a root-table entry.
pub open spec fn entry_width(wide: bool) -> int {
    if wide {
        8
    } else {
        4
    }
}

/// The table addresses a root table lists: `(length - 36) / width` entries
/// after the header, little-endian.
pub open spec fn spec_root_entries(b: Seq<u8>, wide: bool) -> Seq<u64> {
    Seq::new(
        ((sdt_length(b) - SDT_HEADER_SIZE) / entry_width(wide)) as nat,
        |i: int|
            if wide {
                le_u64(b, SDT_HEADER_SIZE + 8 * i) as u64
            } else {
                le_u32(b, SDT_HEADER_SIZE + 4 * i) as u64
            },
    )
}

/// The table addresses listed by a root table, or `None` when its
/// signature is not the expected `RSDT`/`XSDT`.
pub fn root_entries(table: &[u8], wide: bool) -> (r: Option<Vec<u64>>)
    requires
        whole_table(table@),
        sdt_length(table@) >= SDT_HEADER_SIZE,
    ensures
        table@.subrange(0, 4) != root_signature(wide) ==> r is None,
        table@.subrange(0, 4) == root_signature(wide) ==> (r matches Some(v) && v@
            == spec_root_entries(table@, wide)),
{
    let sig: [u8; 4] = if wide {
        [88, 83, 68, 84]
    } else {
        [82, 83, 68, 84]
    };
    assert(sig@ == root_signature(wide));
    let mut k: usize = 0;
    while k < 4
        invariant
            table@.len() >= 36,
            sig@ == root_signature(wide),
            k <= 4,
            forall|j: int| 0 <= j < k ==> table@[j] == root_signature(wide)[j],
        decreases 4 - k,
    {
        if table[k] != sig[k] {
            assert(table@.subrange(0, 4)[k as int] != root_signature(wide)[k as int]);
            return None;
        }
        k = k + 1;
    }
    assert(table@.subrange(0, 4) =~= root_signature(wide));
    let length = read_u32(table, 4) as usize;
    let width: usize = if wide {
        8
    } else {
        4
    };
    let count = (length - 36) / width;
    let mut entries: Vec<u64> = Vec::new();
    let mut i: usize = 0;
    while i < count
        invariant
            whole_table(table@),
            length == sdt_length(table@),
            length >= 36,
            width == entry_width(wide),
            count == (length - 36) as int / width as int,
            i <= count,
            entries@.len() == i,
            forall|j: int| 0 <= j < i ==> entries@[j] == spec_root_entries(table@, wide)[j],
        decreases count - i,
    {
        assert(36 + width * i + width <= length) by (nonlinear_arith)
            requires
                i < count,
                count == (length - 36) as int / width as int,
                width > 0,
                length >= 36,
        ;
        let off = 36 + width * i;
        let e: u64 = if wide {
            read_u64(table, off)
        } else {
            read_u32(table, off) as u64
        };
        entries.push(e);
        i = i + 1;
    }
    assert(entries@ =~= spec_root_entries(table@, wide));
    Some(entries)
}

/// Find the first listed table with signature `target` (`HPET`, `APIC`,
/// `MCFG`), given the signatures of the listed tables in order.
pub fn find_table(sigs: &[[u8; 4]], target: [u8; 4]) -> (r: Option<usize>)
    ensures
        r matches Some(i) ==> i < sigs@.len() && sigs@[i as int] == target && forall|j: int|
            0 <= j < i ==> sigs@[j] != target,
        r is None ==> forall|j: int| 0 <= j < sigs@.len() ==> sigs@[j] != target,
{
    let mut i: usize = 0;
    while i < sigs.len()
        invariant
            i <= sigs@.len(),
            forall|j: int| 0 <= j < i ==> sigs@[j] != target,
        decreases sigs@.len() - i,
    {
        let s = sigs[i];
        if s[0] == target[0] && s[1] == target[1] && s[2] == target[2] && s[3] == target[3] {
            assert(s@ =~= target@);
            return Some(i);
        }
        assert(s != target) by {
            if s == target {
                assert(s@[0] == target@[0]);
            }
        }
        i = i + 1;
    }
    None
}

/// The HPET MMIO base address: the address of the generic address
/// structure that follows the table header and the hardware id.
pub fn hpet_base_address(table: &[u8]) -> (base: u64)
    requires
        table@.len() >= 52,
    ensures
        base == le_u64(table@, 44),
{
    read_u64(table, 44)
}

/// Timer 0 configuration bit: the timer can run periodically.
pub const TIMER_PERIODIC_CAPABLE: u64 = 16;

/// Timer 0 configuration that `init_hpet` writes: interrupt enable and
/// periodic mode.
pub const TIMER0_CONFIG: u64 = 12;

/// General configuration that starts the counter with legacy replacement
/// routing (timer 0 on IRQ0).
pub const GENERAL_ENABLE_LEGACY: u64 = 3;

/// Why the HPET was not brought up.
#[derive(Clone, Copy, Debug, PartialEq, Eq, Structural)]
pub enum HpetInitError {
    /// No ACPI HPET table.
    TableNotFound,
    /// The table gives base address 0.
    InvalidBase,
    /// The counter period gives no usable 1 kHz comparator.
    InvalidComparator,
    /// Timer 0 cannot run periodically.
    NotPeriodic,
}

/// The first half of `init_hpet`'s checks, on what the ACPI table and the
/// capabilities register gave: the comparator to program, or the error.
pub fn hpet_init_check(found: bool, base: u64, fs_period: u64) -> (r: Result<u64, HpetInitError>)
    requires
        found && base != 0 ==> fs_period > 0,
    ensures
        !found ==> r == Err::<u64, HpetInitError>(HpetInitError::TableNotFound),
        found && base == 0 ==> r == Err::<u64, HpetInitError>(HpetInitError::InvalidBase),
        found && base != 0 ==> (r is Ok <==> 0 < spec_tick_comparator(fs_period) <= 0xFFFF_FFFF),
        found && base != 0 && r is Err ==> r == Err::<u64, HpetInitError>(
            HpetInitError::InvalidComparator,
        ),
        r matches Ok(t) ==> t == spec_tick_comparator(fs_period),
{
    if !found {
        return Err(HpetInitError::TableNotFound);
    }
    if base == 0 {
        return Err(HpetInitError::InvalidBase);
    }
    match hpet_comparator(fs_period) {
        Some(t) => Ok(t),
        None => Err(HpetInitError::InvalidComparator),
    }
}

/// The second half: timer 0's configuration register must advertise
/// periodic mode.
pub fn timer0_periodic_check(timer0_cfg: u64) -> (r: Result<(), HpetInitError>)
    ensures
        r is Ok <==> timer0_cfg & TIMER_PERIODIC_CAPABLE != 0,
        r is Err ==> r == Err::<(), HpetInitError>(HpetInitError::NotPeriodic),
{
    if timer0_cfg & TIMER_PERIODIC_CAPABLE == 0 {
        Err(HpetInitError::NotPeriodic)
    } else {
        Ok(())
    }
}

} // verus!
