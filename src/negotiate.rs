use vstd::prelude::*;

use crate::action::DeviceAction;
use crate::error::ThermalError;

verus! {

/// Interface that carries the video stream.
pub const STREAMING_INTERFACE: u8 = 1;

/// Alternate setting of the streaming interface that starts the data flow.
pub const STREAMING_ALTERNATE: u8 = 1;

/// Class request that sets the current value of a control.
pub const SET_CUR: u8 = 0x01;

/// Class request that reads the current value of a control.
pub const GET_CUR: u8 = 0x81;

/// `wValue` of the probe control.
pub const PROBE_CONTROL: u16 = 0x0100;

/// `wValue` of the commit control.
pub const COMMIT_CONTROL: u16 = 0x0200;

/// `wIndex` of the probe and commit requests: the streaming interface.
pub const STREAM_CONTROL_INDEX: u16 = 0x0001;

/// Bytes of a stream control block.
pub const STREAM_CONTROL_LEN: usize = 26;

/// Format index proposed to the device.
pub const PROPOSED_FORMAT_INDEX: u8 = 1;

/// Frame index proposed to the device.
pub const PROPOSED_FRAME_INDEX: u8 = 1;

/// Frame interval proposed to the device, in 100 ns units: 25 frames a second.
pub const PROPOSED_FRAME_INTERVAL: u32 = 400000;

/// The little-endian 16-bit value at byte `o` of `b`.
pub open spec fn le16(b: Seq<u8>, o: int) -> int {
    b[o] + 256 * b[o + 1]
}

/// The little-endian 32-bit value at byte `o` of `b`.
pub open spec fn le32(b: Seq<u8>, o: int) -> int {
    le16(b, o) + 65536 * le16(b, o + 2)
}

/// The block proposed in the probe step: format and frame index set, a frame
/// interval of 25 frames a second, everything else zero.
pub open spec fn proposal_spec() -> Seq<u8> {
    seq![0u8, 0, 1, 1, 0x80, 0x1a, 0x06, 0, 0, 0, 0, 0, 0, 0, 0, 0, 0, 0, 0, 0, 0, 0, 0, 0, 0, 0]
}

/// The stream control block proposed to the device.
pub fn probe_proposal() -> (r: [u8; 26])
    ensures
        r@ == proposal_spec(),
        r@[2] == PROPOSED_FORMAT_INDEX,
        r@[3] == PROPOSED_FRAME_INDEX,
        le32(r@, 4) == PROPOSED_FRAME_INTERVAL,
{
    let mut r: [u8; 26] = [0; 26];
    r[2] = PROPOSED_FORMAT_INDEX;
    r[3] = PROPOSED_FRAME_INDEX;
    r[4] = 0x80;
    r[5] = 0x1a;
    r[6] = 0x06;
    assert(r@ =~= proposal_spec());
    r
}

/// The fields of a stream control block.
#[derive(Clone, Copy, Debug, PartialEq, Eq, Structural)]
pub struct UvcStreamCtrl {
    pub hint: u16,
    pub format_index: u8,
    pub frame_index: u8,
    pub dw_frame_interval: u32,
    pub w_key_frame_rate: u16,
    pub w_p_frame_rate: u16,
    pub w_comp_quality: u16,
    pub w_comp_window_size: u16,
    pub w_delay: u16,
    pub dw_max_video_frame_size: u32,
    pub dw_max_payload_transfer_size: u32,
    pub dw_clock_frequency: u32,
    pub frame_format: u8,
    pub b_interface_number: u8,
}

fn read_le16(b: &[u8; 26], o: usize) -> (r: u16)
    requires
        o + 1 < 26,
    ensures
        r == le16(b@, o as int),
{
    (b[o] as u16) + 256 * (b[o + 1] as u16)
}

fn read_le32(b: &[u8; 26], o: usize) -> (r: u32)
    requires
        o + 3 < 26,
    ensures
        r == le32(b@, o as int),
{
    (read_le16(b, o) as u32) + 65536 * (read_le16(b, o + 2) as u32)
}

impl UvcStreamCtrl {
    /// The block with every field zero.
    pub open spec fn zeroed_spec() -> Self {
        UvcStreamCtrl {
            hint: 0,
            format_index: 0,
            frame_index: 0,
            dw_frame_interval: 0,
            w_key_frame_rate: 0,
            w_p_frame_rate: 0,
            w_comp_quality: 0,
            w_comp_window_size: 0,
            w_delay: 0,
            dw_max_video_frame_size: 0,
            dw_max_payload_transfer_size: 0,
            dw_clock_frequency: 0,
            frame_format: 0,
            b_interface_number: 0,
        }
    }

    /// A block with every field zero.
    pub fn zeroed() -> (r: Self)
        ensures
            r == Self::zeroed_spec(),
    {
        UvcStreamCtrl {
            hint: 0,
            format_index: 0,
            frame_index: 0,
            dw_frame_interval: 0,
            w_key_frame_rate: 0,
            w_p_frame_rate: 0,
            w_comp_quality: 0,
            w_comp_window_size: 0,
            w_delay: 0,
            dw_max_video_frame_size: 0,
            dw_max_payload_transfer_size: 0,
            dw_clock_frequency: 0,
            frame_format: 0,
            b_interface_number: 0,
        }
    }

    /// Reads the fields of a 26-byte probe or commit block, as it travels on the
    /// wire, for the streaming interface `interface`. The block carries no clock
    /// frequency or frame format: those come out zero.
    pub fn from_probe_bytes(b: &[u8; 26], interface: u8) -> (r: Self)
        ensures
            r.hint == le16(b@, 0),
            r.format_index == b@[2],
            r.frame_index == b@[3],
            r.dw_frame_interval == le32(b@, 4),
            r.w_key_frame_rate == le16(b@, 8),
            r.w_p_frame_rate == le16(b@, 10),
            r.w_comp_quality == le16(b@, 12),
            r.w_comp_window_size == le16(b@, 14),
            r.w_delay == le16(b@, 16),
            r.dw_max_video_frame_size == le32(b@, 18),
            r.dw_max_payload_transfer_size == le32(b@, 22),
            r.dw_clock_frequency == 0,
            r.frame_format == 0,
            r.b_interface_number == interface,
    {
        UvcStreamCtrl {
            hint: read_le16(b, 0),
            format_index: b[2],
            frame_index: b[3],
            dw_frame_interval: read_le32(b, 4),
            w_key_frame_rate: read_le16(b, 8),
            w_p_frame_rate: read_le16(b, 10),
            w_comp_quality: read_le16(b, 12),
            w_comp_window_size: read_le16(b, 14),
            w_delay: read_le16(b, 16),
            dw_max_video_frame_size: read_le32(b, 18),
            dw_max_payload_transfer_size: read_le32(b, 22),
            dw_clock_frequency: 0,
            frame_format: 0,
            b_interface_number: interface,
        }
    }
}

impl Default for UvcStreamCtrl {
    fn default() -> (r: Self)
        ensures
            r == UvcStreamCtrl::zeroed_spec(),
    {
        UvcStreamCtrl::zeroed()
    }
}

/// Where the probe and commit exchange stands.
#[derive(Clone, Copy, Debug)]
pub enum StreamSetupState {
    Start,
    Claimed,
    ProbeSet,
    ProbeGot { block: [u8; 26] },
    Committed,
    Streaming,
    Failed { error: ThermalError },
}

/// Whether `a` is a class-specific write of `block` to `control`.
pub open spec fn is_class_write(a: DeviceAction, control: u16, block: Seq<u8>) -> bool {
    match a {
        DeviceAction::ClassOut { request, value, index, block: b } =>
            request == SET_CUR && value == control && index == STREAM_CONTROL_INDEX && b@ == block,
        _ => false,
    }
}

/// Whether `a` is the action that state `s` asks for.
pub open spec fn setup_action_spec(s: StreamSetupState, a: DeviceAction) -> bool {
    match s {
        StreamSetupState::Start => a == DeviceAction::ClaimInterface { interface: STREAMING_INTERFACE },
        StreamSetupState::Claimed => is_class_write(a, PROBE_CONTROL, proposal_spec()),
        StreamSetupState::ProbeSet => a
            == DeviceAction::ClassIn { request: GET_CUR, value: PROBE_CONTROL, index: STREAM_CONTROL_INDEX },
        StreamSetupState::ProbeGot { block } => is_class_write(a, COMMIT_CONTROL, block@),
        StreamSetupState::Committed => a
            == DeviceAction::SetAlternate { interface: STREAMING_INTERFACE, setting: STREAMING_ALTERNATE },
        StreamSetupState::Streaming => a == DeviceAction::Finished,
        StreamSetupState::Failed { error } => a == DeviceAction::Abort { error },
    }
}

/// The state after the requested claim, write or alternate setting completed
/// (`ok`) or failed.
pub open spec fn setup_after_done_spec(s: StreamSetupState, ok: bool) -> StreamSetupState {
    match s {
        StreamSetupState::Start => if ok {
            StreamSetupState::Claimed
        } else {
            StreamSetupState::Failed { error: ThermalError::InterfaceClaimFailed }
        },
        StreamSetupState::Claimed => if ok {
            StreamSetupState::ProbeSet
        } else {
            StreamSetupState::Failed { error: ThermalError::TransportError }
        },
        StreamSetupState::ProbeGot { .. } => if ok {
            StreamSetupState::Committed
        } else {
            StreamSetupState::Failed { error: ThermalError::TransportError }
        },
        StreamSetupState::Committed => if ok {
            StreamSetupState::Streaming
        } else {
            StreamSetupState::Failed { error: ThermalError::TransportError }
        },
        _ => s,
    }
}

/// The state after the probe read returned a block (`None` when it failed).
pub open spec fn setup_after_block_spec(s: StreamSetupState, got: Option<[u8; 26]>) -> StreamSetupState {
    match s {
        StreamSetupState::ProbeSet => match got {
            Some(block) => StreamSetupState::ProbeGot { block },
            None => StreamSetupState::Failed { error: ThermalError::TransportError },
        },
        _ => s,
    }
}

impl StreamSetupState {
    /// The state before the streaming interface is claimed.
    pub fn new() -> (r: Self)
        ensures
            r is Start,
    {
        StreamSetupState::Start
    }

    /// The action that this state asks of the owner of the device handle.
    pub fn next_action(&self) -> (r: DeviceAction)
        ensures
            setup_action_spec(*self, r),
    {
        match self {
            StreamSetupState::Start => DeviceAction::ClaimInterface { interface: STREAMING_INTERFACE },
            StreamSetupState::Claimed => DeviceAction::ClassOut {
                request: SET_CUR,
                value: PROBE_CONTROL,
                index: STREAM_CONTROL_INDEX,
                block: probe_proposal(),
            },
            StreamSetupState::ProbeSet => DeviceAction::ClassIn {
                request: GET_CUR,
                value: PROBE_CONTROL,
                index: STREAM_CONTROL_INDEX,
            },
            StreamSetupState::ProbeGot { block } => DeviceAction::ClassOut {
                request: SET_CUR,
                value: COMMIT_CONTROL,
                index: STREAM_CONTROL_INDEX,
                block: *block,
            },
            StreamSetupState::Committed => DeviceAction::SetAlternate {
                interface: STREAMING_INTERFACE,
                setting: STREAMING_ALTERNATE,
            },
            StreamSetupState::Streaming => DeviceAction::Finished,
            StreamSetupState::Failed { error } => DeviceAction::Abort { error: *error },
        }
    }

    /// The state after the requested claim, write or alternate setting
    /// completed (`ok`) or failed. Every failure is final.
    pub fn on_done(self, ok: bool) -> (r: Self)
        ensures
            r == setup_after_done_spec(self, ok),
    {
        match self {
            StreamSetupState::Start => if ok {
                StreamSetupState::Claimed
            } else {
                StreamSetupState::Failed { error: ThermalError::InterfaceClaimFailed }
            },
            StreamSetupState::Claimed => if ok {
                StreamSetupState::ProbeSet
            } else {
                StreamSetupState::Failed { error: ThermalError::TransportError }
            },
            StreamSetupState::ProbeGot { .. } => if ok {
                StreamSetupState::Committed
            } else {
                StreamSetupState::Failed { error: ThermalError::TransportError }
            },
            StreamSetupState::Committed => if ok {
                StreamSetupState::Streaming
            } else {
                StreamSetupState::Failed { error: ThermalError::TransportError }
            },
            _ => self,
        }
    }

    /// The state after the probe read returned `got` (`None` when it failed).
    /// The block read is kept exactly as the device returned it.
    pub fn on_block(self, got: Option<[u8; 26]>) -> (r: Self)
        ensures
            r == setup_after_block_spec(self, got),
    {
        match self {
            StreamSetupState::ProbeSet => match got {
                Some(block) => StreamSetupState::ProbeGot { block },
                None => StreamSetupState::Failed { error: ThermalError::TransportError },
            },
            _ => self,
        }
    }

    /// Whether the exchange has ended, in success or failure.
    pub fn is_terminal(&self) -> (r: bool)
        ensures
            r == (*self is Streaming || *self is Failed),
    {
        matches!(self, StreamSetupState::Streaming | StreamSetupState::Failed { .. })
    }
}

/// The block committed is the one the probe read returned, byte for byte,
/// whatever was proposed: after the read, the next action writes exactly those
/// bytes to the commit control.
pub proof fn lemma_commit_is_probe_result(got: [u8; 26], a: DeviceAction)
    requires
        setup_action_spec(setup_after_block_spec(StreamSetupState::ProbeSet, Some(got)), a),
    ensures
        is_class_write(a, COMMIT_CONTROL, got@),
{
}

} // verus!
