use vstd::prelude::*;

use crate::action::DeviceAction;
use crate::error::ThermalError;
use crate::status::{handshake_ack_spec, is_handshake_ack, is_ready, ready_spec};

verus! {

/// Interface that carries the vendor commands.
pub const CONTROL_INTERFACE: u8 = 0;

/// Vendor request that carries an 8-byte command.
pub const VENDOR_COMMAND_REQUEST: u8 = 0x45;

/// Vendor request that reads the status byte.
pub const STATUS_REQUEST: u8 = 0x44;

/// `wValue` of both vendor requests.
pub const VENDOR_VALUE: u16 = 0x78;

/// `wIndex` of the vendor command request.
pub const VENDOR_COMMAND_INDEX: u16 = 0x1d00;

/// `wIndex` of the status request.
pub const STATUS_INDEX: u16 = 0x0200;

/// First byte of the handshake command.
pub const HANDSHAKE_MAGIC_0: u8 = 0x05;

/// Second byte of the handshake command.
pub const HANDSHAKE_MAGIC_1: u8 = 0x53;

/// First byte of the command that starts 16-bit linear capture.
pub const STREAM_START_MAGIC_0: u8 = 0x0a;

/// Second byte of the command that starts 16-bit linear capture.
pub const STREAM_START_MAGIC_1: u8 = 0x01;

/// Most status polls made in one polling phase.
pub const MAX_POLLS: u32 = 1000;

/// The 8-byte payload that starts with the two given bytes and is zero after them.
pub open spec fn command_payload(b0: u8, b1: u8) -> Seq<u8> {
    seq![b0, b1, 0u8, 0u8, 0u8, 0u8, 0u8, 0u8]
}

pub open spec fn handshake_payload_spec() -> Seq<u8> {
    command_payload(HANDSHAKE_MAGIC_0, HANDSHAKE_MAGIC_1)
}

pub open spec fn stream_start_payload_spec() -> Seq<u8> {
    command_payload(STREAM_START_MAGIC_0, STREAM_START_MAGIC_1)
}

fn command(b0: u8, b1: u8) -> (r: [u8; 8])
    ensures
        r@ == command_payload(b0, b1),
{
    let r: [u8; 8] = [b0, b1, 0, 0, 0, 0, 0, 0];
    assert(r@ =~= command_payload(b0, b1));
    r
}

/// The handshake command.
pub fn handshake_payload() -> (r: [u8; 8])
    ensures
        r@ == handshake_payload_spec(),
{
    command(HANDSHAKE_MAGIC_0, HANDSHAKE_MAGIC_1)
}

/// The command that selects 16-bit linear capture and starts the stream.
pub fn stream_start_payload() -> (r: [u8; 8])
    ensures
        r@ == stream_start_payload_spec(),
{
    command(STREAM_START_MAGIC_0, STREAM_START_MAGIC_1)
}

/// Where the unlock sequence stands. `polls` counts the status reads made so far
/// in the current polling phase.
#[derive(Clone, Copy, Debug, PartialEq, Eq, Structural)]
pub enum UnlockState {
    Idle,
    Claimed,
    HandshakeSent { polls: u32 },
    HandshakeAcked,
    StreamStartSent { polls: u32 },
    DeviceReady,
    Failed { error: ThermalError },
}

/// Whether `a` is the vendor command transfer that sends `payload`.
pub open spec fn is_vendor_command(a: DeviceAction, payload: Seq<u8>) -> bool {
    match a {
        DeviceAction::VendorOut { request, value, index, payload: p } =>
            request == VENDOR_COMMAND_REQUEST && value == VENDOR_VALUE && index == VENDOR_COMMAND_INDEX
                && p@ == payload,
        _ => false,
    }
}

/// Whether `a` is the action that state `s` asks for.
pub open spec fn unlock_action_spec(s: UnlockState, a: DeviceAction) -> bool {
    match s {
        UnlockState::Idle => a == DeviceAction::ClaimInterface { interface: CONTROL_INTERFACE },
        UnlockState::Claimed => is_vendor_command(a, handshake_payload_spec()),
        UnlockState::HandshakeAcked => is_vendor_command(a, stream_start_payload_spec()),
        UnlockState::HandshakeSent { .. } | UnlockState::StreamStartSent { .. } => a
            == DeviceAction::ReadStatus { request: STATUS_REQUEST, value: VENDOR_VALUE, index: STATUS_INDEX },
        UnlockState::DeviceReady => a == DeviceAction::Finished,
        UnlockState::Failed { error } => a == DeviceAction::Abort { error },
    }
}

/// The state after the requested claim or command has completed (`ok`) or failed.
pub open spec fn after_done_spec(s: UnlockState, ok: bool) -> UnlockState {
    match s {
        UnlockState::Idle => if ok {
            UnlockState::Claimed
        } else {
            UnlockState::Failed { error: ThermalError::InterfaceClaimFailed }
        },
        UnlockState::Claimed => if ok {
            UnlockState::HandshakeSent { polls: 0 }
        } else {
            UnlockState::Failed { error: ThermalError::TransportError }
        },
        UnlockState::HandshakeAcked => if ok {
            UnlockState::StreamStartSent { polls: 0 }
        } else {
            UnlockState::Failed { error: ThermalError::TransportError }
        },
        _ => s,
    }
}

/// Whether a status read (`None` when the read failed) satisfies `pred`.
pub open spec fn read_satisfies(status: Option<u8>, ack: bool) -> bool {
    match status {
        Some(b) => if ack { handshake_ack_spec(b) } else { ready_spec(b) },
        None => false,
    }
}

/// The state after a status read; `None` stands for a failed read.
pub open spec fn after_status_spec(s: UnlockState, status: Option<u8>) -> UnlockState {
    match s {
        UnlockState::HandshakeSent { polls } => if read_satisfies(status, true) {
            UnlockState::HandshakeAcked
        } else if polls + 1 >= MAX_POLLS {
            UnlockState::Failed { error: ThermalError::ProtocolTimeout }
        } else {
            UnlockState::HandshakeSent { polls: (polls + 1) as u32 }
        },
        UnlockState::StreamStartSent { polls } => if read_satisfies(status, false) {
            UnlockState::DeviceReady
        } else if polls + 1 >= MAX_POLLS {
            UnlockState::Failed { error: ThermalError::ProtocolTimeout }
        } else {
            UnlockState::StreamStartSent { polls: (polls + 1) as u32 }
        },
        _ => s,
    }
}

impl UnlockState {
    /// Every polling phase has made fewer than `MAX_POLLS` reads.
    pub open spec fn wf(self) -> bool {
        match self {
            UnlockState::HandshakeSent { polls } => polls < MAX_POLLS,
            UnlockState::StreamStartSent { polls } => polls < MAX_POLLS,
            _ => true,
        }
    }

    /// The state before anything has been done.
    pub fn new() -> (r: Self)
        ensures
            r == UnlockState::Idle,
            r.wf(),
    {
        UnlockState::Idle
    }

    /// The action that this state asks of the owner of the device handle.
    pub fn next_action(&self) -> (r: DeviceAction)
        ensures
            unlock_action_spec(*self, r),
    {
        match self {
            UnlockState::Idle => DeviceAction::ClaimInterface { interface: CONTROL_INTERFACE },
            UnlockState::Claimed => DeviceAction::VendorOut {
                request: VENDOR_COMMAND_REQUEST,
                value: VENDOR_VALUE,
                index: VENDOR_COMMAND_INDEX,
                payload: handshake_payload(),
            },
            UnlockState::HandshakeAcked => DeviceAction::VendorOut {
                request: VENDOR_COMMAND_REQUEST,
                value: VENDOR_VALUE,
                index: VENDOR_COMMAND_INDEX,
                payload: stream_start_payload(),
            },
            UnlockState::HandshakeSent { .. } | UnlockState::StreamStartSent { .. } => DeviceAction::ReadStatus {
                request: STATUS_REQUEST,
                value: VENDOR_VALUE,
                index: STATUS_INDEX,
            },
            UnlockState::DeviceReady => DeviceAction::Finished,
            UnlockState::Failed { error } => DeviceAction::Abort { error: *error },
        }
    }

    /// The state after the requested claim or vendor command completed (`ok`)
    /// or failed.
    pub fn on_done(self, ok: bool) -> (r: Self)
        requires
            self.wf(),
        ensures
            r == after_done_spec(self, ok),
            r.wf(),
    {
        match self {
            UnlockState::Idle => if ok {
                UnlockState::Claimed
            } else {
                UnlockState::Failed { error: ThermalError::InterfaceClaimFailed }
            },
            UnlockState::Claimed => if ok {
                UnlockState::HandshakeSent { polls: 0 }
            } else {
                UnlockState::Failed { error: ThermalError::TransportError }
            },
            UnlockState::HandshakeAcked => if ok {
                UnlockState::StreamStartSent { polls: 0 }
            } else {
                UnlockState::Failed { error: ThermalError::TransportError }
            },
            _ => self,
        }
    }

    /// The state after a status read; `None` stands for a read that failed,
    /// which counts as a poll whose condition did not hold.
    pub fn on_status(self, status: Option<u8>) -> (r: Self)
        requires
            self.wf(),
        ensures
            r == after_status_spec(self, status),
            r.wf(),
    {
        match self {
            UnlockState::HandshakeSent { polls } => {
                let hit = match status {
                    Some(b) => is_handshake_ack(b),
                    None => false,
                };
                if hit {
                    UnlockState::HandshakeAcked
                } else if polls + 1 >= MAX_POLLS {
                    UnlockState::Failed { error: ThermalError::ProtocolTimeout }
                } else {
                    UnlockState::HandshakeSent { polls: polls + 1 }
                }
            },
            UnlockState::StreamStartSent { polls } => {
                let hit = match status {
                    Some(b) => is_ready(b),
                    None => false,
                };
                if hit {
                    UnlockState::DeviceReady
                } else if polls + 1 >= MAX_POLLS {
                    UnlockState::Failed { error: ThermalError::ProtocolTimeout }
                } else {
                    UnlockState::StreamStartSent { polls: polls + 1 }
                }
            },
            _ => self,
        }
    }

    /// Whether the sequence has ended, in success or failure.
    pub fn is_terminal(&self) -> (r: bool)
        ensures
            r == (*self is DeviceReady || *self is Failed),
    {
        matches!(self, UnlockState::DeviceReady | UnlockState::Failed { .. })
    }
}

/// The state after a run of status reads, applied in order.
pub open spec fn after_statuses(s: UnlockState, reads: Seq<Option<u8>>) -> UnlockState
    decreases reads.len(),
{
    if reads.len() == 0 {
        s
    } else {
        after_statuses(after_status_spec(s, reads[0]), reads.drop_first())
    }
}

/// Whether no read in `reads` satisfies the condition of the phase (`ack` for
/// the handshake acknowledgment, otherwise readiness).
pub open spec fn none_satisfies(reads: Seq<Option<u8>>, ack: bool) -> bool {
    forall|i: int| 0 <= i < reads.len() ==> !read_satisfies(#[trigger] reads[i], ack)
}

/// A polling phase never goes past `MAX_POLLS` reads: once the reads left to a
/// phase have all missed its condition, the sequence has failed with a protocol
/// timeout, and further reads leave it there. A fresh phase has `MAX_POLLS` reads.
pub proof fn lemma_polling_bounded(s: UnlockState, reads: Seq<Option<u8>>)
    requires
        s.wf(),
        s is HandshakeSent || s is StreamStartSent,
        none_satisfies(reads, s is HandshakeSent),
        reads.len() >= MAX_POLLS - poll_count(s),
    ensures
        after_statuses(s, reads) == (UnlockState::Failed { error: ThermalError::ProtocolTimeout }),
    decreases reads.len(),
{
    let next = after_status_spec(s, reads[0]);
    assert(!read_satisfies(reads[0], s is HandshakeSent));
    let rest = reads.drop_first();
    if next is Failed {
        lemma_failed_stays(next, rest);
    } else {
        assert(none_satisfies(rest, next is HandshakeSent)) by {
            assert forall|i: int| 0 <= i < rest.len() implies !read_satisfies(#[trigger] rest[i], next is HandshakeSent) by {
                assert(rest[i] == reads[i + 1]);
            }
        }
        lemma_polling_bounded(next, rest);
    }
}

/// Reads made in the current polling phase.
pub open spec fn poll_count(s: UnlockState) -> int {
    match s {
        UnlockState::HandshakeSent { polls } => polls as int,
        UnlockState::StreamStartSent { polls } => polls as int,
        _ => 0,
    }
}

proof fn lemma_failed_stays(s: UnlockState, reads: Seq<Option<u8>>)
    requires
        s is Failed,
    ensures
        after_statuses(s, reads) == s,
    decreases reads.len(),
{
    if reads.len() > 0 {
        lemma_failed_stays(after_status_spec(s, reads[0]), reads.drop_first());
    }
}

} // verus!
