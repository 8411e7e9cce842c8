//! Fatal, unrecoverable failures of device and swapchain setup.

use vstd::prelude::*;

verus! {

/// Setup failures that are surfaced to the caller for process termination:
/// no suitable adapter, a failed logical-device open, or a failed swapchain
/// construction. Recoverable surface staleness is not an error; it is
/// handled by the frame scheduler.
#[derive(Clone, Copy, PartialEq, Eq, Structural, Debug)]
pub enum FatalError {
    NoSuitableDevice,
    DeviceCreationFailed,
    SwapchainCreationFailed,
}

} // verus!
