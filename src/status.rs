use vstd::prelude::*;

verus! {

/// Bit 0 of the status byte: set while the device is busy.
pub const STATUS_BUSY_BIT: u8 = 0x01;

/// Bits 2 to 7 of the status byte.
pub const STATUS_HIGH_BITS: u8 = 0xfc;

/// Bit 7 of the status byte.
pub const STATUS_TOP_BIT: u8 = 0x80;

/// Whether the busy bit (bit 0) of the status byte is clear.
pub open spec fn not_busy(s: u8) -> bool {
    s % 2 == 0
}

/// Whether bit 7 of the status byte is set.
pub open spec fn top_bit_set(s: u8) -> bool {
    s / 128 == 1
}

/// Whether any of bits 2 to 7 of the status byte is set.
pub open spec fn any_high_bit_set(s: u8) -> bool {
    s / 4 != 0
}

/// The acknowledgment condition polled for after the handshake: not busy, and
/// bit 7 set or any of bits 2 to 7 set.
pub open spec fn handshake_ack_spec(s: u8) -> bool {
    not_busy(s) && (top_bit_set(s) || any_high_bit_set(s))
}

/// The readiness condition polled for after the stream start: not busy.
pub open spec fn ready_spec(s: u8) -> bool {
    not_busy(s)
}

/// Whether a status byte read after the handshake acknowledges it.
pub fn is_handshake_ack(s: u8) -> (r: bool)
    ensures
        r == handshake_ack_spec(s),
{
    let r = (s & STATUS_BUSY_BIT) == 0 && ((s & STATUS_TOP_BIT) != 0 || (s & STATUS_HIGH_BITS) != 0);
    proof {
        assert(((s & 1u8) == 0) == (s % 2 == 0)) by (bit_vector);
        assert(((s & 0x80u8) != 0) == (s / 128 == 1)) by (bit_vector);
        assert(((s & 0xfcu8) != 0) == (s / 4 != 0)) by (bit_vector);
    }
    r
}

/// Whether a status byte read after the stream start says the device is ready.
pub fn is_ready(s: u8) -> (r: bool)
    ensures
        r == ready_spec(s),
{
    let r = (s & STATUS_BUSY_BIT) == 0;
    proof {
        assert(((s & 1u8) == 0) == (s % 2 == 0)) by (bit_vector);
    }
    r
}

} // verus!
