//! Tests of the completion bridge, the message codec, the error table and
//! the capability region.

use iousbhost::bridge::AsyncCompletionBridge;
use iousbhost::bridge::AsyncDataCompletionBridge;
use iousbhost::bridge::BridgePoll;
use iousbhost::bridge::Status;
use iousbhost::capabilities::Capabilities;
use iousbhost::capabilities::CapabilityDescriptor;
use iousbhost::errors::UsbError;
use iousbhost::message::make_doorbell;
use iousbhost::message::make_response;
use iousbhost::message::make_transfer_completion;
use iousbhost::message::doorbell_device;
use iousbhost::message::doorbell_endpoint;
use iousbhost::message::doorbell_stream;
use iousbhost::message::DeviceRequest;
use iousbhost::message::Message;
use iousbhost::requests::HostTime;
use iousbhost::requests::IsochronousFrame;
use iousbhost::requests::IsochronousTransaction;
use iousbhost::types::AbortOption;
use iousbhost::types::DescriptorType;
use iousbhost::types::HostObjectInitOptions;
use iousbhost::types::IsochronousTransactionOptions;
use iousbhost::types::DeviceCapabilityType;
use iousbhost::types::DeviceSpeed;
use iousbhost::types::LinkState;
use iousbhost::types::MessageStatus;
use iousbhost::types::MessageType;

#[test]
fn bridge_single_resolution() {
    let mut bridge = AsyncCompletionBridge::new();
    // The first poll registers the native callback and suspends.
    assert!(matches!(bridge.poll(), BridgePoll::Register));
    // Before the callback fires, further polls stay pending.
    assert!(matches!(bridge.poll(), BridgePoll::Pending));
    assert!(!bridge.is_resolved());
    // The simulated native callback fires once.
    assert!(bridge.complete(Status::Success).is_ok());
    // The next poll resolves with success.
    assert!(matches!(bridge.poll(), BridgePoll::Ready(Status::Success)));
    assert!(bridge.is_resolved());
    // No further poll changes the result.
    assert!(matches!(bridge.poll(), BridgePoll::Ready(Status::Success)));
    assert!(matches!(bridge.poll(), BridgePoll::Ready(Status::Success)));
}

#[test]
fn bridge_rejects_a_second_completion() {
    let mut bridge = AsyncCompletionBridge::new();
    assert!(matches!(bridge.poll(), BridgePoll::Register));
    assert!(bridge.complete(Status::Failed(UsbError::Aborted)).is_ok());
    assert_eq!(bridge.complete(Status::Success), Err(UsbError::AlreadyInSet));
    // The recorded outcome stands.
    assert!(matches!(
        bridge.poll(),
        BridgePoll::Ready(Status::Failed(UsbError::Aborted))
    ));
}

#[test]
fn bridge_completion_before_first_poll_resolves_immediately() {
    let mut bridge = AsyncCompletionBridge::new();
    assert!(bridge.complete(Status::Success).is_ok());
    assert!(matches!(bridge.poll(), BridgePoll::Ready(Status::Success)));
}

#[test]
fn data_bridge_keeps_its_buffer_until_resolution() {
    let mut bridge = AsyncDataCompletionBridge::new(vec![1, 2, 3]);
    assert!(matches!(bridge.poll(), BridgePoll::Register));
    assert!(bridge.complete(Status::Success).is_ok());
    assert!(matches!(bridge.poll(), BridgePoll::Ready(Status::Success)));
    assert_eq!(bridge.take_buffer(), vec![1, 2, 3]);
}

#[test]
fn message_field_accessors() {
    let m = Message::new(0x1234_5678, 0xAABB_CCDD, 0x1122_3344_5566_7788);
    assert_eq!(m.control(), 0x1234_5678);
    assert_eq!(m.data_0(), 0xAABB_CCDD);
    assert_eq!(m.data_1(), 0x1122_3344_5566_7788);
    assert_eq!(m.data(), (0xAABB_CCDD, 0x1122_3344_5566_7788));
    assert_eq!(m.message_type(), 0x78 & 0x3f);
    assert_eq!(m.status(), (0x1234_5678 >> 8) & 0xf);
    assert_eq!(m.root_port(), 0xD);
    assert_eq!(m.device_address(), 0xDD);
    assert_eq!(m.endpoint_address(), 0xCC);
    assert_eq!(m.stream_id(), 0xAABB);
}

#[test]
fn response_packs_type_and_status() {
    let r = make_response(20, 5, 7, 9);
    assert_eq!(r.message_type(), 20);
    assert_eq!(r.status(), 5);
    assert_eq!(r.data_0(), 7);
    assert_eq!(r.data_1(), 9);
}

#[test]
fn transfer_completion_packs_every_field() {
    let c = make_transfer_completion(1, 5, 0x81, 4096, 42);
    assert_eq!(c.message_type(), 61);
    assert_eq!(c.status(), 1);
    assert_eq!(c.completion_device_address(), 5);
    assert_eq!(c.completion_endpoint_address(), 0x81);
    assert_eq!(c.transfer_length(), 4096);
    assert_eq!(c.data_1(), 42);
}

#[test]
fn doorbell_packs_and_decodes() {
    let d = make_doorbell(9, 0x82, 300);
    assert_eq!(doorbell_device(d), 9);
    assert_eq!(doorbell_endpoint(d), 0x82);
    assert_eq!(doorbell_stream(d), 300);
    assert_eq!(d, 9 | (0x82 << 8) | (300 << 16));
}

#[test]
fn device_request_holds_its_fields() {
    let r = DeviceRequest::new(0x80, 6, 0x0100, 0, 18);
    assert_eq!(r.request_type(), 0x80);
    assert_eq!(r.request(), 6);
    assert_eq!(r.value(), 0x0100);
    assert_eq!(r.index(), 0);
    assert_eq!(r.length(), 18);
}

#[test]
fn error_codes_round_trip() {
    assert_eq!(UsbError::from(1), UsbError::InvalidAddress);
    assert_eq!(UsbError::from(14), UsbError::Aborted);
    assert_eq!(UsbError::from(49), UsbError::OperationTimedOut);
    assert_eq!(UsbError::from(50), UsbError::Unknown);
    assert_eq!(UsbError::from(0), UsbError::Unknown);
    assert_eq!(UsbError::from(-7), UsbError::Unknown);
    for code in 1..=49 {
        assert_eq!(UsbError::from(code).kern_return(), code);
    }
}

#[test]
fn enum_conversions_round_trip() {
    assert!(matches!(DeviceSpeed::from(4), DeviceSpeed::Super));
    assert_eq!(DeviceSpeed::Super.value(), 4);
    assert!(matches!(DeviceSpeed::from(9), DeviceSpeed::Other(9)));
    assert!(matches!(LinkState::from(15), LinkState::Resume));
    assert!(matches!(LinkState::from(12), LinkState::Other(12)));
    assert!(matches!(DescriptorType::from(5), DescriptorType::Endpoint));
    assert_eq!(DescriptorType::Endpoint.value(), 5);
    assert!(matches!(DescriptorType::from(99), DescriptorType::Other(99)));
    assert!(matches!(DeviceCapabilityType::from(3), DeviceCapabilityType::SuperSpeed));
    assert_eq!(MessageStatus::NoResources.value(), 6);
    assert_eq!(MessageStatus::Other(77).value(), 77);
}

/// A BOS region: the container record, a USB 2.0 extension, a SuperSpeed
/// capability, a container identifier and a platform capability.
fn bos_region() -> Vec<u8> {
    let mut region = Vec::new();
    region.extend_from_slice(&[5, 15, 78, 0, 5]);
    region.extend_from_slice(&[7, 16, 2, 0x02, 0, 0, 0]);
    region.extend_from_slice(&[10, 16, 3, 0x02, 0x0C, 0x00, 1, 10, 0x20, 0x00]);
    let mut container = vec![20, 16, 4, 0];
    container.extend((0..16).map(|b| b as u8));
    region.extend_from_slice(&container);
    let mut platform = vec![20, 16, 5, 0];
    platform.extend((16..32).map(|b| b as u8));
    region.extend_from_slice(&platform);
    // SuperSpeedPlus capability: one sublink speed attribute word.
    region.extend_from_slice(&[16, 16, 10, 0, 0, 0, 0, 0, 0, 0, 0, 0, 0x10, 0x27, 0, 0]);
    assert_eq!(region.len(), 78);
    region
}

#[test]
fn capability_walker_yields_each_record() {
    let region = bos_region();
    let bos = CapabilityDescriptor::parse(&region, 0).expect("container record");
    assert_eq!(bos.total_length(), 78);
    assert_eq!(bos.capability_count(), 5);
    let mut walker = bos.capabilities(&region);
    let kinds: [u8; 5] = [2, 3, 4, 5, 10];
    for kind in kinds {
        let cap = walker.next().expect("capability record");
        assert_eq!(cap.capability_type, kind);
    }
    assert!(walker.next().is_none());
}

#[test]
fn capability_walker_filters_by_kind() {
    let region = bos_region();
    let bos = CapabilityDescriptor::parse(&region, 0).expect("container record");
    let mut walker = bos.capabilities_with_type(&region, 3);
    let cap = walker.next().expect("superspeed capability");
    assert_eq!(cap.capability_type, 3);
    assert!(matches!(cap.device_capability_type(), DeviceCapabilityType::SuperSpeed));
    assert!(walker.next().is_none());
}

#[test]
fn typed_capability_lookups() {
    let region = bos_region();
    let bos = CapabilityDescriptor::parse(&region, 0).expect("container record");
    let ext = bos
        .usb_20_extension_device_capability_descriptor(&region)
        .expect("usb 2.0 extension");
    assert_eq!(ext.attributes(), 2);
    let ss = bos.super_speed_device_capability_descriptor(&region).expect("superspeed capability");
    assert_eq!(ss.speeds_supported(), 0x000C);
    assert_eq!(ss.functionality_support(), 1);
    assert_eq!(ss.dev_exit_lat(), (10, 0x0020));
    let id = bos.container_id_descriptor(&region).expect("container identifier");
    assert_eq!(id.container_id().as_slice(), &(0..16).map(|b| b as u8).collect::<Vec<u8>>()[..]);
    let ssp = bos.super_speed_plus_capability_descriptor(&region).expect("superspeed plus");
    assert_eq!(ssp.sublink_speed_attributes().as_slice(), &[10000]);
}

#[test]
fn platform_capability_uuid_search() {
    let region = bos_region();
    let bos = CapabilityDescriptor::parse(&region, 0).expect("container record");
    let wanted: Vec<u8> = (16..32).map(|b| b as u8).collect();
    let p = bos
        .platform_capability_descriptor(&region, Some(&wanted))
        .expect("platform capability");
    assert_eq!(p.platform_capability_uuid().as_slice(), &wanted[..]);
    let other: Vec<u8> = vec![0; 16];
    assert!(bos.platform_capability_descriptor(&region, Some(&other)).is_none());
    assert!(bos.platform_capability_descriptor(&region, None).is_some());
}

#[test]
fn capability_walk_survives_malformed_tail() {
    // The container followed by one capability and a zero-length record.
    let mut region = vec![5, 15, 14, 0, 1];
    region.extend_from_slice(&[7, 16, 2, 0, 0, 0, 0]);
    region.extend_from_slice(&[0, 0]);
    let bos = CapabilityDescriptor::parse(&region, 0).expect("container record");
    let mut walker: Capabilities = bos.capabilities(&region);
    assert!(walker.next().is_some());
    assert!(walker.next().is_none());
}

#[test]
fn billboard_capability_parses_alternate_modes() {
    // A BOS container followed by one billboard capability with two
    // alternate-mode entries.
    let mut region: Vec<u8> = vec![5, 15, 57, 0, 1];
    let mut billboard: Vec<u8> = vec![52, 16, 13, 3, 2, 1];
    billboard.extend_from_slice(&[0xF4, 0x01]); // 500 mW VCONN
    billboard.extend_from_slice(&[0u8; 32]);
    billboard.extend_from_slice(&[0x21, 0x01, 9, 0]); // bcdVersion 1.21
    billboard.extend_from_slice(&[0x01, 0xFF, 1, 4]); // SVID 0xFF01, mode 1
    billboard.extend_from_slice(&[0x5E, 0x04, 2, 5]); // SVID 0x045E, mode 2
    assert_eq!(billboard.len(), 52);
    region.extend_from_slice(&billboard);
    let bos = iousbhost::capabilities::CapabilityDescriptor::parse(&region, 0)
        .expect("container record");
    let b = bos.billboard_descriptor(&region).expect("billboard capability");
    assert_eq!(b.additional_info_url(), 3);
    assert_eq!(b.alternate_modes_count(), 2);
    assert_eq!(b.preferred_alternate_mode(), 1);
    assert_eq!(b.connection_power(), 500);
    assert_eq!(b.bcd_version(), 0x0121);
    assert_eq!(b.additional_failure_info(), 9);
    assert_eq!(b.configured().len(), 32);
    let modes = b.alt_configurations();
    assert_eq!(modes.len(), 2);
    assert_eq!(modes[0].svid(), 0xFF01);
    assert_eq!(modes[0].altenate_mode(), 1);
    assert_eq!(modes[0].alternate_mode_setting(), 4);
    assert_eq!(modes[1].svid(), 0x045E);
    assert_eq!(modes[1].altenate_mode(), 2);
    assert_eq!(modes[1].alternate_mode_setting(), 5);
}

#[test]
fn billboard_too_short_for_its_modes_is_rejected() {
    // The record counts two alternate modes but declares too few bytes.
    let mut region: Vec<u8> = vec![48, 16, 13, 0, 2, 0];
    region.extend_from_slice(&[0; 42]);
    assert!(iousbhost::capabilities::DeviceCapabilityBillboard::parse(&region, 0).is_none());
}

#[test]
fn message_type_values() {
    assert_eq!(MessageType::ControllerCapabilities.value(), 0);
    assert_eq!(MessageType::DeviceCreate.value(), 32);
    assert_eq!(MessageType::EndpointSetNextTransfer.value(), 46);
    assert_eq!(MessageType::TransferComplete.value(), 61);
}

#[test]
fn status_encodes_kernel_return_codes() {
    assert_eq!(Status::Success.kern_return(), 0);
    assert_eq!(Status::Failed(UsbError::Aborted).kern_return(), 14);
}

#[test]
fn option_enums_encode_their_codes() {
    assert_eq!(AbortOption::Asynchronous.value(), 0);
    assert_eq!(AbortOption::Synchronous.value(), 1);
    assert_eq!(HostObjectInitOptions::NoOptions.value(), 0);
    assert_eq!(HostObjectInitOptions::DeviceCapture.value(), 1);
    assert_eq!(IsochronousTransactionOptions::NoOptions.value(), 0);
    assert_eq!(IsochronousTransactionOptions::Wrap.value(), 1);
}

#[test]
fn isochronous_records_hold_their_fields() {
    let frame = IsochronousFrame::new(Status::Success, 1024, 512, HostTime::new(77));
    assert_eq!(frame.request_count, 1024);
    assert_eq!(frame.complete_count, 512);
    assert_eq!(frame.timestamp.ticks, 77);
    let txn = IsochronousTransaction::new(
        Status::Failed(UsbError::Aborted),
        2048,
        64,
        0,
        HostTime::new(78),
        IsochronousTransactionOptions::Wrap,
    );
    assert_eq!(txn.offset, 64);
    assert_eq!(txn.options, IsochronousTransactionOptions::Wrap);
}
