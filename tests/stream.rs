use thermoscope::acquire::{ReadStep, UVCStream, FRAME_BYTES};
use thermoscope::action::DeviceAction;
use thermoscope::device::{ThermalDevice, UvcFrame};
use thermoscope::error::ThermalError;
use thermoscope::negotiate::{probe_proposal, StreamSetupState, UvcStreamCtrl};

#[test]
fn proposal_layout() {
    let p = probe_proposal();
    let c = UvcStreamCtrl::from_probe_bytes(&p, 1);
    assert_eq!(c.format_index, 1);
    assert_eq!(c.frame_index, 1);
    assert_eq!(c.dw_frame_interval, 400000);
    assert_eq!(c.dw_max_video_frame_size, 0);
    assert_eq!(c.b_interface_number, 1);
    assert_eq!(c.hint, 0);
}

#[test]
fn control_block_fields_decode_little_endian() {
    let mut b = [0u8; 26];
    b[0] = 0x01;
    b[1] = 0x02;
    b[18] = 0x00;
    b[19] = 0x80;
    b[20] = 0x01;
    b[22] = 0x00;
    b[23] = 0x0c;
    let c = UvcStreamCtrl::from_probe_bytes(&b, 1);
    assert_eq!(c.hint, 0x0201);
    assert_eq!(c.dw_max_video_frame_size, 98304);
    assert_eq!(c.dw_max_payload_transfer_size, 3072);
    assert_eq!(UvcStreamCtrl::zeroed().dw_frame_interval, 0);
}

#[test]
fn commit_sends_block_from_probe_read() {
    let mut s = StreamSetupState::new();
    assert!(matches!(s.next_action(), DeviceAction::ClaimInterface { interface: 1 }));
    s = s.on_done(true);
    match s.next_action() {
        DeviceAction::ClassOut { request, value, index, block } => {
            assert_eq!((request, value, index), (0x01, 0x0100, 0x0001));
            assert_eq!(block, probe_proposal());
        }
        other => panic!("unexpected action {:?}", other),
    }
    s = s.on_done(true);
    assert!(matches!(
        s.next_action(),
        DeviceAction::ClassIn { request: 0x81, value: 0x0100, index: 0x0001 }
    ));
    let mut got = probe_proposal();
    got[4] = 0x15;
    got[5] = 0x16;
    got[18] = 0x00;
    got[19] = 0x80;
    got[20] = 0x01;
    got[24] = 0x7f;
    s = s.on_block(Some(got));
    match s.next_action() {
        DeviceAction::ClassOut { request, value, index, block } => {
            assert_eq!((request, value, index), (0x01, 0x0200, 0x0001));
            assert_eq!(block, got);
            assert_ne!(block, probe_proposal());
        }
        other => panic!("unexpected action {:?}", other),
    }
    s = s.on_done(true);
    assert!(matches!(s.next_action(), DeviceAction::SetAlternate { interface: 1, setting: 1 }));
    s = s.on_done(true);
    assert!(s.is_terminal());
    assert!(matches!(s.next_action(), DeviceAction::Finished));
}

#[test]
fn probe_read_failure_is_fatal() {
    let s = StreamSetupState::new().on_done(true).on_done(true).on_block(None);
    assert!(s.is_terminal());
    assert!(matches!(s.next_action(), DeviceAction::Abort { error: ThermalError::TransportError }));
}

#[test]
fn streaming_claim_failure_is_fatal() {
    let s = StreamSetupState::new().on_done(false);
    assert!(matches!(s.next_action(), DeviceAction::Abort { error: ThermalError::InterfaceClaimFailed }));
}

#[test]
fn empty_primary_read_falls_back_to_secondary() {
    let st = UVCStream::new();
    assert_eq!(st.frame_size(), FRAME_BYTES);
    assert_eq!(st.endpoint_count(), 2);
    assert_eq!(st.read_step(0, None), ReadStep::ReadEndpoint { endpoint: 0x81 });
    assert_eq!(st.read_step(1, Some(0)), ReadStep::ReadEndpoint { endpoint: 0x82 });
    assert_eq!(st.read_step(1, None), ReadStep::ReadEndpoint { endpoint: 0x82 });
    assert_eq!(st.read_step(2, Some(0)), ReadStep::NoData);
    assert_eq!(st.read_step(2, None), ReadStep::NoData);
}

#[test]
fn short_read_is_delivered() {
    let st = UVCStream::new();
    assert_eq!(st.read_step(1, Some(512)), ReadStep::Delivered { len: 512 });
    assert_eq!(st.read_step(2, Some(98304)), ReadStep::Delivered { len: 98304 });
    let buf: Vec<u8> = (0..16u8).collect();
    let f = st.take_frame(buf, 5);
    assert_eq!(f, vec![0, 1, 2, 3, 4]);
}

#[test]
fn extra_endpoints_are_tried_in_order() {
    let st = UVCStream::with_endpoints(8, vec![0x83, 0x81, 0x82]);
    assert_eq!(st.read_step(0, None), ReadStep::ReadEndpoint { endpoint: 0x83 });
    assert_eq!(st.read_step(2, Some(0)), ReadStep::ReadEndpoint { endpoint: 0x82 });
    assert_eq!(st.read_step(3, None), ReadStep::NoData);
}

#[test]
fn device_identity() {
    let d = ThermalDevice::camera();
    assert_eq!((d.vendor_id, d.product_id), (0x0bda, 0x5830));
    assert!(d.matches(0x0bda, 0x5830));
    assert!(!d.matches(0x0bda, 0x5831));
    assert_eq!(ThermalDevice::new(1, 2), ThermalDevice { vendor_id: 1, product_id: 2 });
}

#[test]
fn handed_off_payload_is_unchanged() {
    let f = UvcFrame { data: vec![9, 8, 7], width: 256, height: 192, frame_format: 4, step: 512, sequence: 3 };
    assert_eq!(f.into_payload(), vec![9, 8, 7]);
}

#[test]
fn default_control_block_is_zero() {
    assert_eq!(UvcStreamCtrl::default(), UvcStreamCtrl::zeroed());
    assert_eq!(UvcStreamCtrl::default().format_index, 0);
}

#[test]
fn control_request_types() {
    let vendor_out = DeviceAction::VendorOut { request: 0x45, value: 0x78, index: 0x1d00, payload: [0; 8] };
    let status = DeviceAction::ReadStatus { request: 0x44, value: 0x78, index: 0x0200 };
    let class_out = DeviceAction::ClassOut { request: 0x01, value: 0x0100, index: 1, block: [0; 26] };
    let class_in = DeviceAction::ClassIn { request: 0x81, value: 0x0100, index: 1 };
    assert_eq!(vendor_out.request_type(), Some(0x41));
    assert_eq!(status.request_type(), Some(0xc1));
    assert_eq!(class_out.request_type(), Some(0x21));
    assert_eq!(class_in.request_type(), Some(0xa1));
    assert_eq!(DeviceAction::Finished.request_type(), None);
    assert_eq!(DeviceAction::ClaimInterface { interface: 0 }.request_type(), None);
}
