//! Virtual filesystem layer: partitions, the unified I/O stack, the mount
//! table and the K:\ kernel-object drive.

pub mod partition;
pub mod io;

pub mod mount;
pub mod kdrive;
