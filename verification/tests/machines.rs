//! Tests of the four lifecycle state machines and the controller
//! interface.

use iousbhost::controller::ControllerStateMachine;
use iousbhost::device::DeviceStateMachine;
use iousbhost::endpoint::EndpointStateMachine;
use iousbhost::errors::UsbError;
use iousbhost::interface::ControllerInterface;
use iousbhost::message::make_doorbell;
use iousbhost::message::Message;
use iousbhost::port::PortStateMachine;
use iousbhost::types::ControllerState;
use iousbhost::types::DeviceSpeed;
use iousbhost::types::DeviceState;
use iousbhost::types::EndpointState;
use iousbhost::types::LinkState;
use iousbhost::types::MessageStatus;
use iousbhost::types::PortState;
use iousbhost::types::PortStatus;

fn command(message_type: u32, data0: u32, data1: u64) -> Message {
    Message::new(message_type, data0, data1)
}

#[test]
fn controller_lifecycle() {
    let mut csm = ControllerStateMachine::new();
    assert!(matches!(csm.controller_state(), ControllerState::Off));
    // Power on, start, pause, power off.
    assert!(csm.respond(&command(16, 0, 0), MessageStatus::Success, None).is_ok());
    assert!(matches!(csm.controller_state(), ControllerState::Paused));
    assert!(csm.respond(&command(18, 0, 0), MessageStatus::Success, None).is_ok());
    assert!(matches!(csm.controller_state(), ControllerState::Active));
    assert!(csm.respond(&command(19, 0, 0), MessageStatus::Success, None).is_ok());
    assert!(matches!(csm.controller_state(), ControllerState::Paused));
    assert!(csm.respond(&command(17, 0, 0), MessageStatus::Success, None).is_ok());
    assert!(matches!(csm.controller_state(), ControllerState::Off));
}

#[test]
fn controller_off_is_terminal() {
    let mut csm = ControllerStateMachine::new();
    assert!(csm.respond(&command(16, 0, 0), MessageStatus::Success, None).is_ok());
    assert!(csm.respond(&command(17, 0, 0), MessageStatus::Success, None).is_ok());
    // A power-off response on the off machine is refused as terminal.
    assert_eq!(
        csm.respond(&command(17, 0, 0), MessageStatus::Success, None),
        Err(UsbError::InvalidObject)
    );
    assert!(matches!(csm.controller_state(), ControllerState::Off));
    // So is every other command but power-on.
    assert_eq!(
        csm.respond(&command(18, 0, 0), MessageStatus::Success, None),
        Err(UsbError::InvalidObject)
    );
}

#[test]
fn controller_power_on_while_active_is_illegal() {
    let mut csm = ControllerStateMachine::new();
    assert!(csm.respond(&command(16, 0, 0), MessageStatus::Success, None).is_ok());
    assert!(csm.respond(&command(18, 0, 0), MessageStatus::Success, None).is_ok());
    assert_eq!(
        csm.respond(&command(16, 0, 0), MessageStatus::Success, None),
        Err(UsbError::Failure)
    );
    assert!(matches!(csm.controller_state(), ControllerState::Active));
}

#[test]
fn controller_unknown_command_is_rejected() {
    let mut csm = ControllerStateMachine::new();
    assert_eq!(csm.inspect_command(&command(32, 0, 0)), Err(UsbError::InvalidArgument));
    assert_eq!(
        csm.respond(&command(32, 0, 0), MessageStatus::Success, None),
        Err(UsbError::InvalidArgument)
    );
}

#[test]
fn controller_failure_status_keeps_the_state() {
    let mut csm = ControllerStateMachine::new();
    assert!(csm.respond(&command(16, 0, 0), MessageStatus::Timeout, None).is_ok());
    assert!(matches!(csm.controller_state(), ControllerState::Off));
    let sent = csm.sent_messages();
    assert_eq!(sent.len(), 1);
    // The response carries the command type and the failure status.
    assert_eq!(sent[0].message_type(), 16);
    assert_eq!(sent[0].status(), 5);
}

#[test]
fn controller_frame_number_response_carries_frame_and_timestamp() {
    let mut csm = ControllerStateMachine::new();
    assert!(csm.respond(&command(16, 0, 0), MessageStatus::Success, None).is_ok());
    assert!(csm.respond(&command(18, 0, 0), MessageStatus::Success, None).is_ok());
    // The frame query needs its frame/timestamp pair, and only it does.
    assert_eq!(
        csm.respond(&command(20, 0, 0), MessageStatus::Success, None),
        Err(UsbError::InvalidArgument)
    );
    assert_eq!(
        csm.respond(&command(18, 0, 0), MessageStatus::Success, Some((1, 2))),
        Err(UsbError::InvalidArgument)
    );
    assert!(csm.respond(&command(20, 0, 0), MessageStatus::Success, Some((700, 123456))).is_ok());
    let sent = csm.sent_messages();
    let n = sent.len();
    assert_eq!(sent[n - 2].message_type(), 20);
    assert_eq!(sent[n - 2].data_1(), 700);
    assert_eq!(sent[n - 1].message_type(), 10);
    assert_eq!(sent[n - 1].data_1(), 123456);
}

#[test]
fn controller_enqueue_updated_emits_both_updates() {
    let mut csm = ControllerStateMachine::new();
    assert_eq!(csm.enqueue_updated(7, 9), Err(UsbError::InvalidObject));
    assert!(csm.respond(&command(16, 0, 0), MessageStatus::Success, None).is_ok());
    assert!(csm.enqueue_updated(7, 9).is_ok());
    let sent = csm.sent_messages();
    let n = sent.len();
    assert_eq!(sent[n - 2].message_type(), 9);
    assert_eq!(sent[n - 2].data_1(), 7);
    assert_eq!(sent[n - 1].message_type(), 10);
    assert_eq!(sent[n - 1].data_1(), 9);
}

#[test]
fn port_lifecycle_and_status_bits() {
    let mut port = PortStateMachine::new();
    assert!(matches!(port.port_state(), PortState::Off));
    assert!(port.respond(&command(24, 0, 0), MessageStatus::Success).is_ok());
    assert!(matches!(port.port_state(), PortState::Powered));
    assert!(port.powered());
    assert!(port.respond(&command(28, 0, 0), MessageStatus::Success).is_ok());
    assert!(matches!(port.port_state(), PortState::Active));
    assert!(port.respond(&command(27, 0, 0), MessageStatus::Success).is_ok());
    assert!(matches!(port.port_state(), PortState::Suspended));
    assert!(port.respond(&command(26, 0, 0), MessageStatus::Success).is_ok());
    assert!(matches!(port.port_state(), PortState::Active));
    assert!(port.respond(&command(29, 0, 0), MessageStatus::Success).is_ok());
    assert!(matches!(port.port_state(), PortState::Powered));
    port.set_connected(true);
    port.set_overcurrent(false);
    // powered (1) + connected (4) + link Disabled (4 << 4).
    assert_eq!(port.port_status_raw(), 1 + 4 + 64);
}

#[test]
fn port_off_is_terminal_and_power_on_while_active_illegal() {
    let mut port = PortStateMachine::new();
    assert_eq!(port.respond(&command(25, 0, 0), MessageStatus::Success), Err(UsbError::InvalidObject));
    assert!(matches!(port.port_state(), PortState::Off));
    assert!(port.respond(&command(24, 0, 0), MessageStatus::Success).is_ok());
    assert!(port.respond(&command(28, 0, 0), MessageStatus::Success).is_ok());
    assert_eq!(port.respond(&command(24, 0, 0), MessageStatus::Success), Err(UsbError::Failure));
    assert!(matches!(port.port_state(), PortState::Active));
}

#[test]
fn port_link_state_update_recomputes_the_state() {
    let mut port = PortStateMachine::new();
    assert!(port.respond(&command(24, 0, 0), MessageStatus::Success).is_ok());
    assert!(port.respond(&command(28, 0, 0), MessageStatus::Success).is_ok());
    // Loss of link to U3 while active suspends the port.
    assert!(port.update_link_state(LinkState::U3, DeviceSpeed::Super, false).is_ok());
    assert!(matches!(port.port_state(), PortState::Suspended));
    assert!(matches!(port.link_state(), LinkState::U3));
    assert!(matches!(port.speed(), DeviceSpeed::Super));
    // Link recovery to U0 while suspended resumes it.
    assert!(port.update_link_state(LinkState::U0, DeviceSpeed::Super, false).is_ok());
    assert!(matches!(port.port_state(), PortState::Active));
    // An inhibited update only records the fields.
    assert!(port.update_link_state(LinkState::U3, DeviceSpeed::Super, true).is_ok());
    assert!(matches!(port.port_state(), PortState::Active));
    assert!(matches!(port.link_state(), LinkState::U3));
}

#[test]
fn device_lifecycle() {
    let create = command(32, 0, 0xABCD);
    let mut dev = DeviceStateMachine::new(&create);
    assert!(matches!(dev.device_state(), DeviceState::Paused));
    assert_eq!(dev.complete_route(), 0xABCD);
    assert_eq!(dev.device_address(), 0);
    assert!(dev.respond(&create, MessageStatus::Success, Some(7)).is_ok());
    assert!(matches!(dev.device_state(), DeviceState::Active));
    assert_eq!(dev.device_address(), 7);
    assert!(dev.respond(&command(35, 0, 0), MessageStatus::Success, None).is_ok());
    assert!(matches!(dev.device_state(), DeviceState::Paused));
    assert!(dev.respond(&command(34, 0, 0), MessageStatus::Success, None).is_ok());
    assert!(matches!(dev.device_state(), DeviceState::Active));
    assert!(dev.respond(&command(33, 0, 0), MessageStatus::Success, None).is_ok());
    assert!(matches!(dev.device_state(), DeviceState::Destroyed));
}

#[test]
fn device_destroyed_is_terminal_and_create_while_active_illegal() {
    let create = command(32, 0, 0);
    let mut dev = DeviceStateMachine::new(&create);
    assert!(dev.respond(&create, MessageStatus::Success, None).is_ok());
    // A create response while active is an illegal transition.
    assert_eq!(dev.respond(&create, MessageStatus::Success, None), Err(UsbError::Failure));
    assert!(matches!(dev.device_state(), DeviceState::Active));
    assert!(dev.respond(&command(33, 0, 0), MessageStatus::Success, None).is_ok());
    // A destroy response on the destroyed machine is refused as terminal.
    assert_eq!(
        dev.respond(&command(33, 0, 0), MessageStatus::Success, None),
        Err(UsbError::InvalidObject)
    );
    assert!(matches!(dev.device_state(), DeviceState::Destroyed));
    assert_eq!(dev.inspect_command(&command(34, 0, 0)), Err(UsbError::InvalidObject));
}

#[test]
fn device_response_carries_the_address() {
    let create = command(32, 0, 0);
    let mut dev = DeviceStateMachine::new(&create);
    assert!(dev.respond(&create, MessageStatus::Success, Some(9)).is_ok());
    let sent = dev.sent_messages();
    assert_eq!(sent.len(), 1);
    assert_eq!(sent[0].message_type(), 32);
    assert_eq!(sent[0].status(), 1);
    assert_eq!(sent[0].data_0(), 9);
}

#[test]
fn device_rejects_address_outside_its_field() {
    let create = command(32, 0, 0);
    let mut dev = DeviceStateMachine::new(&create);
    assert_eq!(
        dev.respond(&create, MessageStatus::Success, Some(256)),
        Err(UsbError::InvalidArgument)
    );
    // An address accompanies only the create response.
    assert!(dev.respond(&create, MessageStatus::Success, Some(5)).is_ok());
    assert_eq!(
        dev.respond(&command(35, 0, 0), MessageStatus::Success, Some(5)),
        Err(UsbError::InvalidArgument)
    );
}

fn endpoint_create() -> Message {
    // Device address 2, endpoint address 0x81.
    Message::new(40, 2 | (0x81 << 8), 0)
}

#[test]
fn endpoint_lifecycle() {
    let create = endpoint_create();
    let mut ep = EndpointStateMachine::new(&create);
    assert!(matches!(ep.endpoint_state(), EndpointState::Paused));
    assert_eq!(ep.device_address(), 2);
    assert_eq!(ep.endpoint_address(), 0x81);
    assert!(ep.respond(&create, MessageStatus::Success).is_ok());
    assert!(matches!(ep.endpoint_state(), EndpointState::Active));
    assert!(ep.respond(&Message::new(43, 0, 0), MessageStatus::Success).is_ok());
    assert!(matches!(ep.endpoint_state(), EndpointState::Paused));
    assert!(ep.respond(&Message::new(44, 0, 0), MessageStatus::Success).is_ok());
    assert!(matches!(ep.endpoint_state(), EndpointState::Paused));
    assert!(ep.respond(&Message::new(41, 0, 0), MessageStatus::Success).is_ok());
    assert!(matches!(ep.endpoint_state(), EndpointState::Destroyed));
}

#[test]
fn endpoint_destroyed_is_terminal_and_create_while_active_illegal() {
    let create = endpoint_create();
    let mut ep = EndpointStateMachine::new(&create);
    assert!(ep.respond(&create, MessageStatus::Success).is_ok());
    assert_eq!(ep.respond(&create, MessageStatus::Success), Err(UsbError::Failure));
    assert!(matches!(ep.endpoint_state(), EndpointState::Active));
    assert!(ep.respond(&Message::new(41, 0, 0), MessageStatus::Success).is_ok());
    assert_eq!(
        ep.respond(&Message::new(41, 0, 0), MessageStatus::Success),
        Err(UsbError::InvalidObject)
    );
    assert!(matches!(ep.endpoint_state(), EndpointState::Destroyed));
}

#[test]
fn endpoint_failed_transfer_halts_and_reset_recovers() {
    let create = endpoint_create();
    let mut ep = EndpointStateMachine::new(&create);
    assert!(ep.respond(&create, MessageStatus::Success).is_ok());
    // A failed set-next-transfer response halts the endpoint.
    assert!(ep.respond(&Message::new(46, 0, 0), MessageStatus::StallError).is_ok());
    assert!(matches!(ep.endpoint_state(), EndpointState::Halted));
    // Reset clears the halt back to paused.
    assert!(ep.respond(&Message::new(45, 0, 1), MessageStatus::Success).is_ok());
    assert!(matches!(ep.endpoint_state(), EndpointState::Paused));
}

#[test]
fn doorbell_round_trip_through_completion() {
    let create = endpoint_create();
    let mut ep = EndpointStateMachine::new(&create);
    assert!(ep.respond(&create, MessageStatus::Success).is_ok());
    let transfer = Message::new(46, 0, 0xDEAD);
    assert!(ep.respond(&transfer, MessageStatus::Success).is_ok());
    // The doorbell for this device/endpoint finds the pending transfer.
    let doorbell = make_doorbell(2, 0x81, 0);
    assert!(ep.process_doorbell(doorbell).is_ok());
    // Enqueue the completion and read it back.
    assert!(
        ep.enqueue_transfer_completion_for_message(&transfer, MessageStatus::Success, 128).is_ok()
    );
    let m = ep.current_transfer_message().expect("completion message");
    assert_eq!(m.transfer_length(), 128);
    assert_eq!(m.status(), 1);
    assert_eq!(m.message_type(), 61);
    assert_eq!(m.completion_device_address(), 2);
    assert_eq!(m.completion_endpoint_address(), 0x81);
    assert_eq!(m.data_1(), 0xDEAD);
    // The pending-transfer slot is now empty.
    assert!(ep.current_transfer_message().is_none());
}

#[test]
fn doorbell_rejects_mismatched_addresses() {
    let create = endpoint_create();
    let mut ep = EndpointStateMachine::new(&create);
    assert!(ep.respond(&create, MessageStatus::Success).is_ok());
    assert!(ep.respond(&Message::new(46, 0, 0), MessageStatus::Success).is_ok());
    assert_eq!(
        ep.process_doorbell(make_doorbell(3, 0x81, 0)),
        Err(UsbError::InvalidArgument)
    );
    assert_eq!(
        ep.process_doorbell(make_doorbell(2, 0x82, 0)),
        Err(UsbError::InvalidArgument)
    );
    // A matching doorbell with a stream identifier still routes here.
    assert!(ep.process_doorbell(make_doorbell(2, 0x81, 17)).is_ok());
}

#[test]
fn doorbell_without_pending_transfer_fails() {
    let create = endpoint_create();
    let mut ep = EndpointStateMachine::new(&create);
    assert!(ep.respond(&create, MessageStatus::Success).is_ok());
    assert_eq!(ep.process_doorbell(make_doorbell(2, 0x81, 0)), Err(UsbError::InvalidValue));
}

#[test]
fn completion_length_must_fit_its_field() {
    let create = endpoint_create();
    let mut ep = EndpointStateMachine::new(&create);
    assert!(ep.respond(&create, MessageStatus::Success).is_ok());
    let transfer = Message::new(46, 0, 0);
    assert_eq!(
        ep.enqueue_transfer_completion_for_message(
            &transfer,
            MessageStatus::Success,
            0x1000_0000
        ),
        Err(UsbError::InvalidArgument)
    );
}

#[test]
fn failed_completion_halts_the_endpoint() {
    let create = endpoint_create();
    let mut ep = EndpointStateMachine::new(&create);
    assert!(ep.respond(&create, MessageStatus::Success).is_ok());
    let transfer = Message::new(46, 0, 0);
    assert!(
        ep.enqueue_transfer_completion_for_message(&transfer, MessageStatus::StallError, 0).is_ok()
    );
    assert!(matches!(ep.endpoint_state(), EndpointState::Halted));
    let m = ep.current_transfer_message().expect("completion message");
    assert_eq!(m.status(), 11);
}

#[test]
fn interface_routes_port_commands() {
    let ci = ControllerInterface::new(4, 8);
    // A port command addresses its port through the root-port field.
    assert_eq!(ci.port_state_machine_for_command(&Message::new(24, 2, 0)), Ok(2));
    assert_eq!(
        ci.port_state_machine_for_command(&Message::new(24, 9, 0)),
        Err(UsbError::InvalidValue)
    );
    assert_eq!(
        ci.port_state_machine_for_command(&Message::new(32, 0, 0)),
        Err(UsbError::InvalidArgument)
    );
    assert_eq!(ci.port_state_machine_for_port(3), Ok(3));
    assert_eq!(ci.port_state_machine_for_port(4), Err(UsbError::InvalidValue));
}

#[test]
fn interface_drives_its_port_machines() {
    let mut ci = ControllerInterface::new(2, 8);
    let cmd = Message::new(24, 1, 0);
    let index = ci.port_state_machine_for_command(&cmd).expect("port index");
    assert!(ci.port_respond(index, &cmd, MessageStatus::Success).is_ok());
    assert!(matches!(ci.port(1).expect("port machine").port_state(), PortState::Powered));
    assert!(matches!(ci.port(0).expect("port machine").port_state(), PortState::Off));
    assert!(ci.port_update_link_state(1, LinkState::RxDetect, DeviceSpeed::High, true).is_ok());
    assert!(matches!(ci.port(1).expect("port machine").link_state(), LinkState::RxDetect));
    assert!(ci.port(2).is_none());
}

#[test]
fn interface_capability_messages() {
    let ci = ControllerInterface::new(3, 8);
    let caps = ci.capabilities().expect("controller capabilities");
    assert_eq!(caps.message_type(), 0);
    assert_eq!(caps.data_0(), 3);
    let port_caps = ci.port_capabilities(2).expect("port capabilities");
    assert_eq!(port_caps.message_type(), 1);
    assert_eq!(port_caps.data_0(), 2);
    assert!(ci.port_capabilities(3).is_none());
}

#[test]
fn interrupt_queue_orders_and_bounds() {
    let mut ci = ControllerInterface::new(1, 4);
    let a = Message::new(8, 0, 1);
    let b = Message::new(8, 0, 2);
    assert!(ci.enqueue_interrupts(&a, None, Some(2)).is_ok());
    // An expedited interrupt goes to the front.
    assert!(ci.enqueue_interrupts(&b, Some(true), None).is_ok());
    let pending = ci.pending_interrupts();
    assert_eq!(pending.len(), 3);
    assert_eq!(pending[0].data_1(), 2);
    assert_eq!(pending[1].data_1(), 1);
    assert_eq!(pending[2].data_1(), 1);
    // The queue refuses what would exceed its capacity.
    assert_eq!(ci.enqueue_interrupts(&a, None, Some(2)), Err(UsbError::ResourceShortage));
    assert_eq!(ci.enqueue_interrupts(&a, None, Some(0)), Err(UsbError::InvalidArgument));
    assert!(ci.enqueue_interrupts(&a, None, Some(1)).is_ok());
    // Delivery drains oldest first.
    assert_eq!(ci.next_interrupt().expect("interrupt").data_1(), 2);
    assert_eq!(ci.next_interrupt().expect("interrupt").data_1(), 1);
}

#[test]
fn interface_controller_machine_responds() {
    let mut ci = ControllerInterface::new(1, 4);
    assert!(ci.controller_respond(&Message::new(16, 0, 0), MessageStatus::Success, None).is_ok());
    assert!(matches!(
        ci.controller_state_machine().controller_state(),
        ControllerState::Paused
    ));
    ci.set_interrupt_rate_hz(1000);
    assert_eq!(ci.interupt_rate_hz(), 1000);
}

#[test]
fn link_update_rejects_out_of_range_values() {
    let mut port = PortStateMachine::new();
    assert_eq!(
        port.update_link_state(LinkState::U0, DeviceSpeed::Super, false),
        Err(UsbError::InvalidObject)
    );
    assert!(port.respond(&command(24, 0, 0), MessageStatus::Success).is_ok());
    assert_eq!(
        port.update_link_state(LinkState::Other(20), DeviceSpeed::Super, false),
        Err(UsbError::InvalidArgument)
    );
    assert_eq!(
        port.update_link_state(LinkState::U0, DeviceSpeed::Other(8), false),
        Err(UsbError::InvalidArgument)
    );
}

#[test]
fn empty_interrupt_queue_delivers_nothing() {
    let mut ci = ControllerInterface::new(1, 2);
    assert!(ci.next_interrupt().is_none());
    assert_eq!(ci.pending_interrupts().len(), 0);
}

#[test]
fn port_status_decodes_single_flags() {
    let mut port = PortStateMachine::new();
    assert!(port.respond(&command(24, 0, 0), MessageStatus::Success).is_ok());
    assert!(port.update_link_state(LinkState::U0, DeviceSpeed::Unspecified, true).is_ok());
    // With only the powered flag set the bitmap decodes to its name.
    assert!(matches!(port.port_status(), PortStatus::Powered));
    port.set_connected(true);
    // A combined bitmap has no single name.
    assert!(matches!(port.port_status(), PortStatus::Other(5)));
}
