use vstd::prelude::*;

verus! {

#[verifier::external_type_specification]
pub struct ExDirection(rusb::Direction);

#[verifier::external_type_specification]
pub struct ExRequestType(rusb::RequestType);

#[verifier::external_type_specification]
pub struct ExRecipient(rusb::Recipient);

/// The direction bit of `bmRequestType`.
pub open spec fn direction_bits(d: rusb::Direction) -> u8 {
    match d {
        rusb::Direction::Out => 0x00,
        rusb::Direction::In => 0x80,
    }
}

/// The type bits (5 and 6) of `bmRequestType`.
pub open spec fn request_type_bits(t: rusb::RequestType) -> u8 {
    match t {
        rusb::RequestType::Standard => 0x00,
        rusb::RequestType::Class => 0x20,
        rusb::RequestType::Vendor => 0x40,
        rusb::RequestType::Reserved => 0x60,
    }
}

/// The recipient bits (0 and 1) of `bmRequestType`.
pub open spec fn recipient_bits(r: rusb::Recipient) -> u8 {
    match r {
        rusb::Recipient::Device => 0x00,
        rusb::Recipient::Interface => 0x01,
        rusb::Recipient::Endpoint => 0x02,
        rusb::Recipient::Other => 0x03,
    }
}

/// Relies on rusb::request_type: the `bmRequestType` byte is the bitwise or of
/// the libusb direction, request type and recipient constants.
pub assume_specification[ rusb::request_type ](
    direction: rusb::Direction,
    request_type: rusb::RequestType,
    recipient: rusb::Recipient,
) -> (r: u8)
    ensures
        r == direction_bits(direction) | request_type_bits(request_type) | recipient_bits(recipient),
;

} // verus!
