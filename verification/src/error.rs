//! The errors that the nodes report.

use crate::decoder::DecodeError;
use crate::tensor::ConversionError;
use vstd::prelude::*;

verus! {

/// A failure of the capture device.
#[derive(Clone, Copy, Debug, PartialEq, Eq, Structural)]
pub enum CaptureError {
    /// The device is absent or busy, or access to it was denied.
    DeviceOpen,
    /// The device was opened, but it does not deliver frames.
    DeviceNotReady,
    /// A frame could not be read, or what was read is no frame.
    FrameRead,
    /// The device could not be released.
    DeviceRelease,
}

/// An operation that the state of the node does not allow.
#[derive(Clone, Copy, Debug, PartialEq, Eq, Structural)]
pub enum LifecycleMisuse {
    /// Initialization of a node that has left the state `Uninitialized`.
    AlreadyInitialized,
    /// Update of a node that has failed or is shut down.
    NotReady,
    /// Shutdown of a node that holds no device.
    NoActiveDevice,
    /// Shutdown of a node that is shut down.
    AlreadyShutDown,
    /// A call while an operation is under way, or a reply that answers nothing.
    OutOfTurn,
}

/// Why an operation of a node failed.
#[derive(Clone, Copy, Debug, PartialEq, Eq, Structural)]
pub enum NodeError {
    Capture(CaptureError),
    Decode(DecodeError),
    Conversion(ConversionError),
    /// The value could not be handed to the output channel.
    Channel,
    Lifecycle(LifecycleMisuse),
}

} // verus!
