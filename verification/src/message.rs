//! The fixed-layout command/response record exchanged over the
//! host-controller channel, and the bit-exact packing of its sub-fields.
//!
//! A message is 16 bytes: `{control: u32, data0: u32, data1: u64}`.
//! `control` holds the message type in bits 0..6 and the status code in
//! bits 8..12; transfer completions additionally hold the device address in
//! bits 16..24 and the endpoint address in bits 24..32 of `control`, and the
//! transfer length in bits 0..28 of `data0`. Commands address their target
//! through `data0`: root port in bits 0..4, device address in bits 0..8,
//! endpoint address in bits 8..16 and stream identifier in bits 16..32.
//! A doorbell value packs device, endpoint and stream the same way.

use vstd::prelude::*;

verus! {

// Message type codes carried in bits 0..6 of `control`.
pub const MSG_CONTROLLER_CAPABILITIES: u32 = 0;
pub const MSG_PORT_CAPABILITIES: u32 = 1;
pub const MSG_PORT_EVENT: u32 = 8;
pub const MSG_FRAME_NUMBER_UPDATE: u32 = 9;
pub const MSG_FRAME_TIMESTAMP_UPDATE: u32 = 10;
pub const MSG_CONTROLLER_POWER_ON: u32 = 16;
pub const MSG_CONTROLLER_POWER_OFF: u32 = 17;
pub const MSG_CONTROLLER_START: u32 = 18;
pub const MSG_CONTROLLER_PAUSE: u32 = 19;
pub const MSG_CONTROLLER_FRAME_NUMBER: u32 = 20;
pub const MSG_PORT_POWER_ON: u32 = 24;
pub const MSG_PORT_POWER_OFF: u32 = 25;
pub const MSG_PORT_RESUME: u32 = 26;
pub const MSG_PORT_SUSPEND: u32 = 27;
pub const MSG_PORT_RESET: u32 = 28;
pub const MSG_PORT_DISABLE: u32 = 29;
pub const MSG_PORT_STATUS: u32 = 30;
pub const MSG_DEVICE_CREATE: u32 = 32;
pub const MSG_DEVICE_DESTROY: u32 = 33;
pub const MSG_DEVICE_START: u32 = 34;
pub const MSG_DEVICE_PAUSE: u32 = 35;
pub const MSG_DEVICE_UPDATE: u32 = 36;
pub const MSG_ENDPOINT_CREATE: u32 = 40;
pub const MSG_ENDPOINT_DESTROY: u32 = 41;
pub const MSG_ENDPOINT_PAUSE: u32 = 43;
pub const MSG_ENDPOINT_UPDATE: u32 = 44;
pub const MSG_ENDPOINT_RESET: u32 = 45;
pub const MSG_ENDPOINT_SET_NEXT_TRANSFER: u32 = 46;
pub const MSG_COMMAND_MAX: u32 = 55;
pub const MSG_SETUP_TRANSFER: u32 = 56;
pub const MSG_NORMAL_TRANSFER: u32 = 57;
pub const MSG_STATUS_TRANSFER: u32 = 58;
pub const MSG_ISOCHRONOUS_TRANSFER: u32 = 59;
pub const MSG_LINK: u32 = 60;
pub const MSG_TRANSFER_COMPLETE: u32 = 61;

/// The largest transfer length a completion message can carry (28 bits).
pub const TRANSFER_LENGTH_MAX: u32 = 0x0fff_ffff;

/// The message type encoded in bits 0..6 of a control word.
pub open spec fn control_type_spec(control: u32) -> u32 {
    control & 0x3f
}

/// The status code encoded in bits 8..12 of a control word.
pub open spec fn control_status_spec(control: u32) -> u32 {
    (control >> 8) & 0xf
}

/// The device address a transfer completion carries in bits 16..24.
pub open spec fn control_device_spec(control: u32) -> u32 {
    (control >> 16) & 0xff
}

/// The endpoint address a transfer completion carries in bits 24..32.
pub open spec fn control_endpoint_spec(control: u32) -> u32 {
    (control >> 24) & 0xff
}

/// The root port a port command addresses in bits 0..4 of `data0`.
pub open spec fn data0_root_port_spec(data0: u32) -> u32 {
    data0 & 0xf
}

/// The device address a command addresses in bits 0..8 of `data0`.
pub open spec fn data0_device_spec(data0: u32) -> u32 {
    data0 & 0xff
}

/// The endpoint address a command addresses in bits 8..16 of `data0`.
pub open spec fn data0_endpoint_spec(data0: u32) -> u32 {
    (data0 >> 8) & 0xff
}

/// The stream identifier a command addresses in bits 16..32 of `data0`.
pub open spec fn data0_stream_spec(data0: u32) -> u32 {
    data0 >> 16
}

/// The transfer length a completion carries in bits 0..28 of `data0`.
pub open spec fn data0_transfer_length_spec(data0: u32) -> u32 {
    data0 & 0x0fff_ffff
}

/// The device address encoded in bits 0..8 of a doorbell value.
pub open spec fn doorbell_device_spec(doorbell: u32) -> u32 {
    doorbell & 0xff
}

/// The endpoint address encoded in bits 8..16 of a doorbell value.
pub open spec fn doorbell_endpoint_spec(doorbell: u32) -> u32 {
    (doorbell >> 8) & 0xff
}

/// The stream identifier encoded in bits 16..32 of a doorbell value.
pub open spec fn doorbell_stream_spec(doorbell: u32) -> u32 {
    doorbell >> 16
}

/// A control word with the given type and status and nothing else set.
pub open spec fn response_control_spec(msg_type: u32, status: u32) -> u32 {
    msg_type | (status << 8)
}

/// A control word of a transfer completion: type, status, device address
/// and endpoint address packed into their fields.
pub open spec fn completion_control_spec(status: u32, device: u32, endpoint: u32) -> u32 {
    MSG_TRANSFER_COMPLETE | (status << 8) | (device << 16) | (endpoint << 24)
}

/// A doorbell value with the given device, endpoint and stream fields.
pub open spec fn doorbell_value_spec(device: u32, endpoint: u32, stream: u32) -> u32 {
    device | (endpoint << 8) | (stream << 16)
}

/// A fixed-layout host-controller-interface record, used uniformly for
/// commands, responses, interrupts and transfer completions. Immutable once
/// built; a plain value.
#[derive(Clone, Copy, PartialEq, Eq, Structural, Debug)]
pub struct Message {
    pub control: u32,
    pub data0: u32,
    pub data1: u64,
}

impl Message {
    pub open spec fn control_spec(self) -> u32 {
        self.control
    }

    pub open spec fn data0_spec(self) -> u32 {
        self.data0
    }

    pub open spec fn data1_spec(self) -> u64 {
        self.data1
    }

    pub open spec fn message_type_spec(self) -> u32 {
        control_type_spec(self.control)
    }

    pub open spec fn status_spec(self) -> u32 {
        control_status_spec(self.control)
    }

    /// Build a message from its three raw words.
    pub fn new(control: u32, data0: u32, data1: u64) -> (r: Message)
        ensures
            r.control_spec() == control,
            r.data0_spec() == data0,
            r.data1_spec() == data1,
    {
        Message { control, data0, data1 }
    }

    pub fn control(&self) -> (r: u32)
        ensures
            r == self.control_spec(),
    {
        self.control
    }

    pub fn data_0(&self) -> (r: u32)
        ensures
            r == self.data0_spec(),
    {
        self.data0
    }

    pub fn data_1(&self) -> (r: u64)
        ensures
            r == self.data1_spec(),
    {
        self.data1
    }

    pub fn data(&self) -> (r: (u32, u64))
        ensures
            r.0 == self.data0_spec(),
            r.1 == self.data1_spec(),
    {
        (self.data0, self.data1)
    }

    /// The message type in bits 0..6 of the control word.
    pub fn message_type(&self) -> (r: u32)
        ensures
            r == self.message_type_spec(),
            r < 64,
    {
        proof {
            lemma_masked_bounds(self.control);
        }
        self.control & 0x3f
    }

    /// The status code in bits 8..12 of the control word.
    pub fn status(&self) -> (r: u32)
        ensures
            r == self.status_spec(),
            r < 16,
    {
        proof {
            lemma_masked_bounds(self.control);
        }
        (self.control >> 8) & 0xf
    }

    /// The device address a completion carries in bits 16..24 of control.
    pub fn completion_device_address(&self) -> (r: u32)
        ensures
            r == control_device_spec(self.control_spec()),
            r < 256,
    {
        proof {
            lemma_masked_bounds(self.control);
        }
        (self.control >> 16) & 0xff
    }

    /// The endpoint address a completion carries in bits 24..32 of control.
    pub fn completion_endpoint_address(&self) -> (r: u32)
        ensures
            r == control_endpoint_spec(self.control_spec()),
            r < 256,
    {
        proof {
            lemma_masked_bounds(self.control);
        }
        (self.control >> 24) & 0xff
    }

    /// The root port a port command addresses in bits 0..4 of `data0`.
    pub fn root_port(&self) -> (r: u32)
        ensures
            r == data0_root_port_spec(self.data0_spec()),
            r < 16,
    {
        proof {
            lemma_masked_bounds(self.data0);
        }
        self.data0 & 0xf
    }

    /// The device address a command addresses in bits 0..8 of `data0`.
    pub fn device_address(&self) -> (r: u32)
        ensures
            r == data0_device_spec(self.data0_spec()),
            r < 256,
    {
        proof {
            lemma_masked_bounds(self.data0);
        }
        self.data0 & 0xff
    }

    /// The endpoint address a command addresses in bits 8..16 of `data0`.
    pub fn endpoint_address(&self) -> (r: u32)
        ensures
            r == data0_endpoint_spec(self.data0_spec()),
            r < 256,
    {
        proof {
            lemma_masked_bounds(self.data0);
        }
        (self.data0 >> 8) & 0xff
    }

    /// The stream identifier a command addresses in bits 16..32 of `data0`.
    pub fn stream_id(&self) -> (r: u32)
        ensures
            r == data0_stream_spec(self.data0_spec()),
            r < 0x1_0000,
    {
        proof {
            lemma_masked_bounds(self.data0);
        }
        self.data0 >> 16
    }

    /// The transfer length a completion carries in bits 0..28 of `data0`.
    pub fn transfer_length(&self) -> (r: u32)
        ensures
            r == data0_transfer_length_spec(self.data0_spec()),
            r <= TRANSFER_LENGTH_MAX,
    {
        proof {
            lemma_masked_bounds(self.data0);
        }
        self.data0 & 0x0fff_ffff
    }
}

/// Build the response message a state machine emits for a command: the
/// command's type with the given status packed beside it, addressed through
/// `data0`/`data1`.
pub fn make_response(msg_type: u32, status: u32, data0: u32, data1: u64) -> (r: Message)
    requires
        msg_type < 64,
        status < 16,
    ensures
        r.message_type_spec() == msg_type,
        r.status_spec() == status,
        r.data0_spec() == data0,
        r.data1_spec() == data1,
        r.control_spec() == response_control_spec(msg_type, status),
{
    proof {
        lemma_response_control_fields(msg_type, status);
    }
    Message::new(msg_type | (status << 8), data0, data1)
}

/// Build a transfer completion message: type `MSG_TRANSFER_COMPLETE`, the
/// given status and addresses in the control word, the transfer length in
/// `data0` and the transfer structure word in `data1`.
pub fn make_transfer_completion(
    status: u32,
    device: u32,
    endpoint: u32,
    transfer_length: u32,
    data1: u64,
) -> (r: Message)
    requires
        status < 16,
        device < 256,
        endpoint < 256,
        transfer_length <= TRANSFER_LENGTH_MAX,
    ensures
        r.message_type_spec() == MSG_TRANSFER_COMPLETE,
        r.status_spec() == status,
        r.control_spec() == completion_control_spec(status, device, endpoint),
        control_device_spec(r.control_spec()) == device,
        control_endpoint_spec(r.control_spec()) == endpoint,
        data0_transfer_length_spec(r.data0_spec()) == transfer_length,
        r.data0_spec() == transfer_length,
        r.data1_spec() == data1,
{
    proof {
        lemma_completion_control_fields(status, device, endpoint);
        lemma_transfer_length_masked(transfer_length);
    }
    Message::new(
        MSG_TRANSFER_COMPLETE | (status << 8) | (device << 16) | (endpoint << 24),
        transfer_length,
        data1,
    )
}

/// Build a doorbell value from its device, endpoint and stream fields.
pub fn make_doorbell(device: u32, endpoint: u32, stream: u32) -> (r: u32)
    requires
        device < 256,
        endpoint < 256,
        stream < 0x1_0000,
    ensures
        r == doorbell_value_spec(device, endpoint, stream),
        doorbell_device_spec(r) == device,
        doorbell_endpoint_spec(r) == endpoint,
        doorbell_stream_spec(r) == stream,
{
    proof {
        lemma_doorbell_fields(device, endpoint, stream);
    }
    device | (endpoint << 8) | (stream << 16)
}

/// The device address field of a doorbell value.
pub fn doorbell_device(doorbell: u32) -> (r: u32)
    ensures
        r == doorbell_device_spec(doorbell),
        r < 256,
{
    proof {
        lemma_masked_bounds(doorbell);
    }
    doorbell & 0xff
}

/// The endpoint address field of a doorbell value.
pub fn doorbell_endpoint(doorbell: u32) -> (r: u32)
    ensures
        r == doorbell_endpoint_spec(doorbell),
        r < 256,
{
    proof {
        lemma_masked_bounds(doorbell);
    }
    (doorbell >> 8) & 0xff
}

/// The stream identifier field of a doorbell value.
pub fn doorbell_stream(doorbell: u32) -> (r: u32)
    ensures
        r == doorbell_stream_spec(doorbell),
        r < 0x1_0000,
{
    proof {
        lemma_masked_bounds(doorbell);
    }
    doorbell >> 16
}

/// Every masked field is bounded by the width of its mask.
proof fn lemma_masked_bounds(w: u32)
    by (bit_vector)
    ensures
        w & 0x3f < 64,
        (w >> 8) & 0xf < 16,
        (w >> 16) & 0xff < 256,
        (w >> 24) & 0xff < 256,
        w & 0xf < 16,
        w & 0xff < 256,
        (w >> 8) & 0xff < 256,
        w >> 16 < 0x1_0000,
        w & 0x0fff_ffff <= 0x0fff_ffff,
{
}

/// Packing a type and a status into a control word places each in its own
/// field: the packed word decodes back to the same type and status.
proof fn lemma_response_control_fields(msg_type: u32, status: u32)
    by (bit_vector)
    requires
        msg_type < 64,
        status < 16,
    ensures
        (msg_type | (status << 8)) & 0x3f == msg_type,
        ((msg_type | (status << 8)) >> 8) & 0xf == status,
{
}

/// Packing status, device and endpoint into a completion control word
/// places each in its own field.
proof fn lemma_completion_control_fields(status: u32, device: u32, endpoint: u32)
    by (bit_vector)
    requires
        status < 16,
        device < 256,
        endpoint < 256,
    ensures
        (61u32 | (status << 8) | (device << 16) | (endpoint << 24)) & 0x3f == 61,
        ((61u32 | (status << 8) | (device << 16) | (endpoint << 24)) >> 8) & 0xf == status,
        ((61u32 | (status << 8) | (device << 16) | (endpoint << 24)) >> 16) & 0xff == device,
        ((61u32 | (status << 8) | (device << 16) | (endpoint << 24)) >> 24) & 0xff == endpoint,
{
}

/// A value within the transfer length field is unchanged by its mask.
proof fn lemma_transfer_length_masked(len: u32)
    by (bit_vector)
    requires
        len <= 0x0fff_ffff,
    ensures
        len & 0x0fff_ffff == len,
{
}

/// Packing device, endpoint and stream into a doorbell places each in its
/// own field.
proof fn lemma_doorbell_fields(device: u32, endpoint: u32, stream: u32)
    by (bit_vector)
    requires
        device < 256,
        endpoint < 256,
        stream < 0x1_0000,
    ensures
        (device | (endpoint << 8) | (stream << 16)) & 0xff == device,
        ((device | (endpoint << 8) | (stream << 16)) >> 8) & 0xff == endpoint,
        (device | (endpoint << 8) | (stream << 16)) >> 16 == stream,
{
}

/// Decoding the three fields of a doorbell and packing them again yields
/// the original value: the fields cover the word exactly.
pub proof fn lemma_doorbell_round_trip(doorbell: u32)
    by (bit_vector)
    ensures
        doorbell_value_spec(
            doorbell_device_spec(doorbell),
            doorbell_endpoint_spec(doorbell),
            doorbell_stream_spec(doorbell),
        ) == doorbell,
{
}

/// A control request as issued to a device or pipe: the standard five-field
/// setup record.
#[derive(Clone, Copy, PartialEq, Eq, Structural, Debug)]
pub struct DeviceRequest {
    pub request_type: u8,
    pub request: u8,
    pub value: u16,
    pub index: u16,
    pub length: u16,
}

impl DeviceRequest {
    pub open spec fn request_type_spec(self) -> u8 {
        self.request_type
    }

    pub open spec fn request_spec(self) -> u8 {
        self.request
    }

    pub open spec fn value_spec(self) -> u16 {
        self.value
    }

    pub open spec fn index_spec(self) -> u16 {
        self.index
    }

    pub open spec fn length_spec(self) -> u16 {
        self.length
    }

    /// Build a request from its five raw fields.
    pub fn new(request_type: u8, request: u8, value: u16, index: u16, length: u16) -> (r:
        DeviceRequest)
        ensures
            r.request_type_spec() == request_type,
            r.request_spec() == request,
            r.value_spec() == value,
            r.index_spec() == index,
            r.length_spec() == length,
    {
        DeviceRequest { request_type, request, value, index, length }
    }

    pub fn request_type(&self) -> (r: u8)
        ensures
            r == self.request_type_spec(),
    {
        self.request_type
    }

    pub fn request(&self) -> (r: u8)
        ensures
            r == self.request_spec(),
    {
        self.request
    }

    pub fn value(&self) -> (r: u16)
        ensures
            r == self.value_spec(),
    {
        self.value
    }

    pub fn index(&self) -> (r: u16)
        ensures
            r == self.index_spec(),
    {
        self.index
    }

    pub fn length(&self) -> (r: u16)
        ensures
            r == self.length_spec(),
    {
        self.length
    }
}

} // verus!
