//! How a device is opened and flushed on each family of operating systems.
//!
//! Nothing here opens or flushes anything: these functions say what the
//! owner of the handles has to do.

use vstd::prelude::*;

verus! {

/// The families of operating systems that differ in how a raw device is
/// reached.
#[derive(Clone, Copy, Debug, PartialEq, Eq, Structural)]
pub enum Platform {
    /// Linux and macOS.
    Unix,
    /// Windows.
    Windows,
}

/// How a handle is to be opened.
#[derive(Clone, Copy, Debug, PartialEq, Eq, Structural)]
pub struct OpenPlan {
    /// Open for reading.
    pub read: bool,
    /// Open for writing. The destination is neither created nor truncated.
    pub write: bool,
    /// Ask the system to bypass its cache, so that reads come from the
    /// medium itself.
    pub unbuffered: bool,
}

/// What has to be done so that pending writes reach the medium.
#[derive(Clone, Copy, Debug, PartialEq, Eq, Structural)]
pub enum FlushAction {
    /// Run the system's `sync` command and go on whatever it reports.
    RunSync,
    /// Nothing: closing the handle has flushed it.
    Nothing,
}

/// The plan for reading a device back.
pub open spec fn device_read_plan(platform: Platform) -> OpenPlan {
    OpenPlan { read: true, write: false, unbuffered: platform == Platform::Windows }
}

/// The flush that goes before reading a device back.
pub open spec fn flush_action(platform: Platform) -> FlushAction {
    match platform {
        Platform::Unix => FlushAction::RunSync,
        Platform::Windows => FlushAction::Nothing,
    }
}

/// How the device is opened for verification: read-only everywhere, and
/// without the system's cache on Windows.
pub fn open_device(platform: Platform) -> (plan: OpenPlan)
    ensures
        plan == device_read_plan(platform),
{
    match platform {
        Platform::Unix => OpenPlan { read: true, write: false, unbuffered: false },
        Platform::Windows => OpenPlan { read: true, write: false, unbuffered: true },
    }
}

/// How the image is opened, for flashing and for verification alike:
/// read-only, through the system's cache.
pub fn open_image() -> (plan: OpenPlan)
    ensures
        plan == (OpenPlan { read: true, write: false, unbuffered: false }),
{
    OpenPlan { read: true, write: false, unbuffered: false }
}

/// How the device is opened for flashing: write-only, on every platform.
pub fn open_target() -> (plan: OpenPlan)
    ensures
        plan == (OpenPlan { read: false, write: true, unbuffered: false }),
{
    OpenPlan { read: false, write: true, unbuffered: false }
}

/// What to do before verification so that the device is read from the medium
/// and not from pending writes: `sync` on Unix, nothing on Windows.
pub fn flush_system(platform: Platform) -> (action: FlushAction)
    ensures
        action == flush_action(platform),
{
    match platform {
        Platform::Unix => FlushAction::RunSync,
        Platform::Windows => FlushAction::Nothing,
    }
}

} // verus!
