//! What can go wrong.

use vstd::prelude::*;

verus! {

/// Why no instance could be made.
#[derive(Debug, PartialEq, Eq)]
pub struct InstanceError {
    /// The reason in words.
    pub message: String,
}

impl InstanceError {
    /// An error with the given reason.
    pub fn new(message: String) -> (r: Self)
        ensures
            r.message == message,
    {
        InstanceError { message }
    }
}

/// Why the device could not do something.
#[derive(Clone, Copy, Debug, PartialEq, Eq, Structural)]
pub enum DeviceError {
    /// There was no memory left.
    OutOfMemory,
}

/// Why the surface could not do something.
#[derive(Clone, Copy, Debug, PartialEq, Eq, Structural)]
pub enum SurfaceError {
    /// The device could not.
    Device(DeviceError),
}

} // verus!
