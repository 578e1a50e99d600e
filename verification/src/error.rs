use vstd::prelude::*;

verus! {

/// Errors generated by this library.
#[derive(Debug, Clone, Copy, PartialEq, Eq, Structural)]
pub enum Error {
    /// A transport-level operation failed.
    DeviceError,
    /// The device could not be found, or the user does not have
    /// permission to access it.
    DeviceNotFound,
    /// Timeout while communicating with the device.
    Timeout,
    /// Attempted an action that requires a stopped device while it is
    /// running.
    Running,
    /// Attempted an action that requires a running device while it is
    /// stopped.
    NotRunning,
    /// Requested channel index does not exist on the device.
    InvalidChannel,
    /// The requested bitrate cannot be reached within an acceptable
    /// tolerance; carries the bitrate that was asked for.
    InvalidBitrate(u32),
}

} // verus!
