//! The network side: datagram layout, channel health, the jitter buffers
//! with their fixed-rate consumer, and the command encoding.

use vstd::prelude::*;

pub mod command;
pub mod filter;
pub mod packet;
pub mod resync;
pub mod status;

verus! {

/// What can go wrong while talking to the amplifier.
#[derive(Debug, Clone, Copy, PartialEq, Eq, Structural)]
pub enum NapseError {
    /// No amplifier answered during discovery.
    DeviceNotFound,
    /// A datagram did not hold one word for every channel.
    FailedToReadAllChannels,
}

impl NapseError {
    /// The text shown to the operator for this error.
    pub fn message(&self) -> (text: &'static str)
        ensures
            text@ == match *self {
                NapseError::DeviceNotFound => "Napse device not found"@,
                NapseError::FailedToReadAllChannels =>
                    "Failed to read all the channels of the Napse device"@,
            },
    {
        match self {
            NapseError::DeviceNotFound => "Napse device not found",
            NapseError::FailedToReadAllChannels =>
                "Failed to read all the channels of the Napse device",
        }
    }
}

} // verus!
