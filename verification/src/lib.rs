//! Engine for writing a disk image onto a raw block device and confirming the
//! write by comparing SHA-256 digests of the image and of what the device
//! holds.
//!
//! The engine never touches a file itself. Its jobs decide what is read and
//! written next and keep the counters and the digests; whoever owns the
//! handles performs each read and write and reports back what happened.

pub mod device;
pub mod digest;
pub mod flash;
pub mod memory;
pub mod menu;
pub mod progress;
pub mod targ;
pub mod verify;
