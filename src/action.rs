use vstd::prelude::*;

use crate::error::ThermalError;

verus! {

/// Timeout of a vendor or class control transfer that sends data, in milliseconds.
pub const CONTROL_TIMEOUT_MS: u64 = 1000;

/// Timeout of one status-byte read, in milliseconds.
pub const STATUS_TIMEOUT_MS: u64 = 100;

/// Pause between two status-byte polls, in milliseconds.
pub const POLL_INTERVAL_MS: u64 = 100;

/// One transfer or configuration step that the owner of the device handle is
/// asked to perform next.
#[derive(Clone, Copy, Debug)]
pub enum DeviceAction {
    /// Detach any kernel driver from `interface` and claim it.
    ClaimInterface { interface: u8 },
    /// Vendor-class, interface-recipient, host-to-device control transfer.
    VendorOut { request: u8, value: u16, index: u16, payload: [u8; 8] },
    /// Vendor-class, interface-recipient, device-to-host control transfer of one byte.
    ReadStatus { request: u8, value: u16, index: u16 },
    /// Class-specific, interface-recipient, host-to-device control transfer.
    ClassOut { request: u8, value: u16, index: u16, block: [u8; 26] },
    /// Class-specific, interface-recipient, device-to-host control transfer of a block.
    ClassIn { request: u8, value: u16, index: u16 },
    /// Select an alternate setting of an interface.
    SetAlternate { interface: u8, setting: u8 },
    /// Nothing is left to do: the sequence succeeded.
    Finished,
    /// Nothing is left to do: the sequence failed with `error`.
    Abort { error: ThermalError },
}

/// The `bmRequestType` byte of the control transfer that `a` asks for, if it
/// asks for one: vendor or class request, to the interface, in the direction of
/// the data.
pub open spec fn request_type_spec(a: DeviceAction) -> Option<u8> {
    match a {
        DeviceAction::VendorOut { .. } => Some(0x41u8),
        DeviceAction::ReadStatus { .. } => Some(0xc1u8),
        DeviceAction::ClassOut { .. } => Some(0x21u8),
        DeviceAction::ClassIn { .. } => Some(0xa1u8),
        _ => None,
    }
}

impl DeviceAction {
    /// The `bmRequestType` byte of the control transfer that this action asks
    /// for, or `None` for an action that is no control transfer.
    pub fn request_type(&self) -> (r: Option<u8>)
        ensures
            r == request_type_spec(*self),
    {
        let (direction, kind) = match self {
            DeviceAction::VendorOut { .. } => (rusb::Direction::Out, rusb::RequestType::Vendor),
            DeviceAction::ReadStatus { .. } => (rusb::Direction::In, rusb::RequestType::Vendor),
            DeviceAction::ClassOut { .. } => (rusb::Direction::Out, rusb::RequestType::Class),
            DeviceAction::ClassIn { .. } => (rusb::Direction::In, rusb::RequestType::Class),
            _ => {
                return None;
            },
        };
        let r = rusb::request_type(direction, kind, rusb::Recipient::Interface);
        assert(0x00u8 | 0x40u8 | 0x01u8 == 0x41u8) by (bit_vector);
        assert(0x80u8 | 0x40u8 | 0x01u8 == 0xc1u8) by (bit_vector);
        assert(0x00u8 | 0x20u8 | 0x01u8 == 0x21u8) by (bit_vector);
        assert(0x80u8 | 0x20u8 | 0x01u8 == 0xa1u8) by (bit_vector);
        Some(r)
    }
}

} // verus!
