use vstd::prelude::*;

verus! {

/// What can go wrong while bringing up the camera or handling its frames.
#[derive(Clone, Copy, Debug, PartialEq, Eq, Structural)]
pub enum ThermalError {
    /// A control or bulk transfer failed or timed out.
    TransportError,
    /// A polling phase ran out of attempts before its condition held.
    ProtocolTimeout,
    /// No attached device has the requested vendor and product identifiers.
    DeviceNotFound,
    /// An interface could not be claimed.
    InterfaceClaimFailed,
    /// A raw buffer is too short to decode a whole frame.
    TruncatedFrame,
    /// The external streaming library returned a failure code.
    ExternalLibraryError,
}

impl ThermalError {
    /// A short description of the error.
    pub fn message(&self) -> (r: String)
        ensures
            r@.len() > 0,
    {
        let s = match self {
            ThermalError::TransportError => "USB transfer failed",
            ThermalError::ProtocolTimeout => "device did not reach the expected state in time",
            ThermalError::DeviceNotFound => "device not found",
            ThermalError::InterfaceClaimFailed => "failed to claim interface",
            ThermalError::TruncatedFrame => "frame buffer too short",
            ThermalError::ExternalLibraryError => "streaming library call failed",
        };
        proof {
            reveal_strlit("USB transfer failed");
            reveal_strlit("device did not reach the expected state in time");
            reveal_strlit("device not found");
            reveal_strlit("failed to claim interface");
            reveal_strlit("frame buffer too short");
            reveal_strlit("streaming library call failed");
        }
        s.to_string()
    }
}

} // verus!
