//! VirtIO PCI transport: legacy I/O BAR or modern MMIO common config.

use vstd::prelude::*;

verus! {

/// Status: acknowledged.
pub const STATUS_ACK: u8 = 0x01;
/// Status: driver loaded.
pub const STATUS_DRIVER: u8 = 0x02;
/// Status: driver ready.
pub const STATUS_DRIVER_OK: u8 = 0x04;
/// Status: features accepted.
pub const STATUS_FEATURES_OK: u8 = 0x08;
/// Status: device failure.
pub const STATUS_FAILED: u8 = 0x80;

/// PCI vendor id of VirtIO devices.
pub const VIRTIO_VENDOR: u16 = 0x1AF4;

/// Legacy register offsets (I/O BAR).
pub const LEGACY_HOST_FEATURES: u16 = 0x00;
pub const LEGACY_GUEST_FEATURES: u16 = 0x04;
pub const LEGACY_QUEUE_PFN: u16 = 0x08;
pub const LEGACY_QUEUE_NUM: u16 = 0x0C;
pub const LEGACY_QUEUE_SEL: u16 = 0x0E;
pub const LEGACY_QUEUE_NOTIFY: u16 = 0x10;
pub const LEGACY_STATUS: u16 = 0x12;
pub const LEGACY_DEVICE_CFG: u16 = 0x14;

/// How the device's registers are reached.
#[derive(Debug, Clone, Copy, PartialEq, Eq, Structural)]
pub enum VirtioTransport {
    Legacy { io_base: u16 },
    Modern { common: u64, isr: u64, device_cfg: u64, notify: u64, notify_off_multiplier: u32 },
}

impl VirtioTransport {
    /// The transport a device's BAR0 offers: an I/O BAR (bit 0 set) with a
    /// non-zero port base gives the legacy transport; memory BARs are not
    /// supported.
    pub fn probe_at(bar0: u32) -> (t: Option<Self>)
        ensures
            (bar0 % 2 == 1 && bar0 % 0x10000 / 4 != 0) ==> t == Some(
                VirtioTransport::Legacy { io_base: ((bar0 % 0x10000 / 4) * 4) as u16 },
            ),
            !(bar0 % 2 == 1 && bar0 % 0x10000 / 4 != 0) ==> t is None,
    {
        if bar0 & 1 != 0 {
            let io_base = (bar0 & 0xFFFC) as u16;
            assert(bar0 & 1 != 0 <==> bar0 % 2 == 1) by (bit_vector);
            assert(bar0 & 0xFFFC == (bar0 % 0x10000 / 4) * 4) by (bit_vector);
            if io_base == 0 {
                return None;
            }
            return Some(VirtioTransport::Legacy { io_base });
        }
        assert(bar0 & 1 == 0 ==> bar0 % 2 == 0) by (bit_vector);
        None
    }

    /// Whether the modern (MMIO) transport is used.
    pub fn is_modern(&self) -> (b: bool)
        ensures
            b == (self is Modern),
    {
        match self {
            VirtioTransport::Modern { .. } => true,
            VirtioTransport::Legacy { .. } => false,
        }
    }

    /// The I/O port of a legacy register.
    pub fn legacy_port(&self, reg: u16) -> (port: Option<u16>)
        ensures
            self matches VirtioTransport::Legacy { io_base } ==> port == Some(
                ((io_base + reg) % 0x10000) as u16,
            ),
            self is Modern ==> port is None,
    {
        match self {
            VirtioTransport::Legacy { io_base } => Some(io_base.wrapping_add(reg)),
            VirtioTransport::Modern { .. } => None,
        }
    }

    /// The doorbell address of queue `queue_idx` (modern) or `None` for the
    /// legacy transport, which rings through its notify port.
    pub fn notify_address(&self, queue_idx: u16) -> (addr: Option<u64>)
        requires
            self is Modern ==> queue_idx * self->notify_off_multiplier <= u32::MAX && self->notify
                + queue_idx * self->notify_off_multiplier <= u64::MAX,
        ensures
            self is Modern ==> addr == Some(
                (self->notify + queue_idx * self->notify_off_multiplier) as u64,
            ),
            self is Legacy ==> addr is None,
    {
        match self {
            VirtioTransport::Modern { notify, notify_off_multiplier, .. } => {
                let off = (queue_idx as u32) * *notify_off_multiplier;
                Some(*notify + off as u64)
            },
            VirtioTransport::Legacy { .. } => None,
        }
    }
}

/// The PCI command register value that enables I/O, memory and bus
/// mastering.
pub fn enable_command(cmd_old: u16) -> (cmd: u16)
    ensures
        cmd == cmd_old | 7,
{
    cmd_old | 0x07
}

/// Feature negotiation: the guest accepts the host features it knows.
pub fn negotiate_features(host: u32, accepted: u32) -> (guest: u32)
    ensures
        guest == host & accepted,
        guest & !accepted == 0,
{
    let g = host & accepted;
    assert((host & accepted) & !accepted == 0) by (bit_vector);
    g
}

/// A 64-bit config value from its two 32-bit halves.
pub fn read_config64(lo: u32, hi: u32) -> (v: u64)
    ensures
        v == hi * 0x1_0000_0000 + lo,
{
    let r = (hi as u64) << 32 | lo as u64;
    let h = hi as u64;
    let l = lo as u64;
    assert((h << 32) | l == h * 0x1_0000_0000 + l) by (bit_vector)
        requires
            h < 0x1_0000_0000,
            l < 0x1_0000_0000,
    ;
    r
}

/// The legacy queue PFN register value for a descriptor table address.
pub fn queue_pfn(desc_phys: u64) -> (pfn: u32)
    ensures
        pfn == (desc_phys / 4096) % 0x1_0000_0000,
{
    let p = desc_phys >> 12;
    assert(desc_phys >> 12 == desc_phys / 4096) by (bit_vector);
    (p % 0x1_0000_0000) as u32
}

/// One step of the standard device initialisation.
#[derive(Debug, Clone, Copy, PartialEq, Eq, Structural)]
pub enum InitStep {
    /// Write status 0 and wait (up to 1000 reads) for the device to read 0.
    Reset,
    /// Write this device status.
    WriteStatus(u8),
    /// Read the host features and write back the accepted ones
    /// (`negotiate_features`).
    NegotiateFeatures,
    /// Read the status back and decide (`standard_init`).
    CheckStatus,
}

/// The steps of the standard initialisation, in order: reset,
/// acknowledge, driver, feature negotiation, features-ok, then the status
/// check. Driver-ok follows on success (`finalize_init`).
pub open spec fn spec_init_steps() -> Seq<InitStep> {
    seq![
        InitStep::Reset,
        InitStep::WriteStatus(STATUS_ACK),
        InitStep::WriteStatus(STATUS_ACK | STATUS_DRIVER),
        InitStep::NegotiateFeatures,
        InitStep::WriteStatus(STATUS_ACK | STATUS_DRIVER | STATUS_FEATURES_OK),
        InitStep::CheckStatus,
    ]
}

/// The steps of the standard initialisation (see `spec_init_steps`).
pub fn init_steps() -> (steps: Vec<InitStep>)
    ensures
        steps@ == spec_init_steps(),
{
    let steps = vec![
        InitStep::Reset,
        InitStep::WriteStatus(STATUS_ACK),
        InitStep::WriteStatus(STATUS_ACK | STATUS_DRIVER),
        InitStep::NegotiateFeatures,
        InitStep::WriteStatus(STATUS_ACK | STATUS_DRIVER | STATUS_FEATURES_OK),
        InitStep::CheckStatus,
    ];
    assert(steps@ =~= spec_init_steps());
    steps
}

/// The outcome of the standard initialisation, given the host features
/// read during negotiation and the status read back after features-ok:
/// an error when the device reports failure, otherwise the negotiated
/// features (the host's features that are `accepted`).
pub fn standard_init(host_features: u32, accepted: u32, status_after_features_ok: u8) -> (r: Result<u32, ()>)
    ensures
        status_after_features_ok & STATUS_FAILED != 0 ==> r is Err,
        status_after_features_ok & STATUS_FAILED == 0 ==> r == Ok::<u32, ()>(host_features & accepted),
{
    let guest = negotiate_features(host_features, accepted);
    if status_after_features_ok & STATUS_FAILED != 0 {
        return Err(());
    }
    Ok(guest)
}

/// The status that completes initialisation: the current status with
/// driver-ok added.
pub fn finalize_init(status: u8) -> (s: u8)
    ensures
        s == status | STATUS_DRIVER_OK,
{
    status | STATUS_DRIVER_OK
}

/// Whether a PCI function with the given vendor and device id is the
/// VirtIO device looked for.
pub fn probe_matches(vendor: u16, device: u16, want_vendor: u16, want_device: u16) -> (b: bool)
    ensures
        b == (vendor == want_vendor && device == want_device),
{
    vendor == want_vendor && device == want_device
}

/// Whether a vendor id read from PCI config space means "no function"
/// (all ones or zero).
pub fn slot_empty(vendor: u16) -> (b: bool)
    ensures
        b == (vendor == 0xFFFF || vendor == 0),
{
    vendor == 0xFFFF || vendor == 0
}

} // verus!
