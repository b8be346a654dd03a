use vstd::prelude::*;

verus! {

/// Vendor identifier of the camera.
pub const DEFAULT_VENDOR_ID: u16 = 0x0bda;

/// Product identifier of the camera.
pub const DEFAULT_PRODUCT_ID: u16 = 0x5830;

/// The identity by which a camera is found among the attached USB devices.
#[derive(Clone, Copy, Debug, PartialEq, Eq, Structural)]
pub struct ThermalDevice {
    pub vendor_id: u16,
    pub product_id: u16,
}

impl ThermalDevice {
    /// The device with the given vendor and product identifiers.
    pub fn new(vendor_id: u16, product_id: u16) -> (r: Self)
        ensures
            r.vendor_id == vendor_id,
            r.product_id == product_id,
    {
        ThermalDevice { vendor_id, product_id }
    }

    /// The camera this library was written for.
    pub fn camera() -> (r: Self)
        ensures
            r.vendor_id == DEFAULT_VENDOR_ID,
            r.product_id == DEFAULT_PRODUCT_ID,
    {
        ThermalDevice { vendor_id: DEFAULT_VENDOR_ID, product_id: DEFAULT_PRODUCT_ID }
    }

    /// Whether a device with the given identifiers is this one.
    pub fn matches(&self, vendor_id: u16, product_id: u16) -> (r: bool)
        ensures
            r == (self.vendor_id == vendor_id && self.product_id == product_id),
    {
        self.vendor_id == vendor_id && self.product_id == product_id
    }
}

/// A frame delivered by the external streaming library, with its payload
/// copied out of the library's buffer.
pub struct UvcFrame {
    pub data: Vec<u8>,
    pub width: u32,
    pub height: u32,
    pub frame_format: u32,
    pub step: usize,
    pub sequence: u32,
}

impl UvcFrame {
    /// The payload to forward to the frame pipeline, unchanged.
    pub fn into_payload(self) -> (r: Vec<u8>)
        ensures
            r@ == self.data@,
    {
        self.data
    }
}

} // verus!
