//! Verified core of the NeoDOS kernel: the syscall ABI (numbers, error
//! codes, permission and dispatch tables), the deferred work queues, the
//! trace ring, the URN namespace parser, the VFS mount table and I/O stack,
//! the console cursor, the VirtIO ring layout, the ACPI table parsers and
//! the watchdog state machine.

pub mod syscall;
pub mod work_queue;
pub mod trace;
pub mod urn;
pub mod vfs;
pub mod fmt;
pub mod watchdog;
pub mod timers;
pub mod vga;
pub mod virtio;
pub mod usermode;
pub mod tsr;
