//! The endpoint lifecycle state machine. Beyond the shared
//! inspect/respond protocol it decodes doorbell values, tracks the single
//! in-flight transfer of the endpoint, and turns completed transfers into
//! transfer-completion messages kept in the pending-transfer slot until
//! read. Streams route through the same doorbell decoding under their
//! stream identifiers; they do not multiply the machine.

use vstd::prelude::*;
use crate::errors::UsbError;
use crate::message::data0_device_spec;
use crate::message::data0_endpoint_spec;
use crate::message::doorbell_device_spec;
use crate::message::doorbell_endpoint_spec;
use crate::message::make_response;
use crate::message::make_transfer_completion;
use crate::message::completion_control_spec;
use crate::message::response_control_spec;
use crate::message::Message;
use crate::message::TRANSFER_LENGTH_MAX;
use crate::types::EndpointState;
use crate::types::MessageStatus;

verus! {

/// Whether a message type addresses the endpoint machine.
pub open spec fn is_endpoint_command_spec(t: u32) -> bool {
    t == 40 || t == 41 || 43 <= t <= 46
}

/// Whether the endpoint command `t` is legal in state `s`: create takes a
/// paused machine to active, update a paused one, pause and set-next-
/// transfer an active one, reset a halted one, and destroy any state but
/// the terminal one.
pub open spec fn endpoint_transition_legal_spec(s: EndpointState, t: u32) -> bool {
    match s {
        EndpointState::Paused => t == 40 || t == 41 || t == 44,
        EndpointState::Active => t == 41 || t == 43 || t == 46,
        EndpointState::Halted => t == 41 || t == 45,
        _ => false,
    }
}

/// The validation every endpoint command goes through.
pub open spec fn endpoint_inspect_spec(s: EndpointState, t: u32) -> Result<(), UsbError> {
    if !is_endpoint_command_spec(t) {
        Result::Err(UsbError::InvalidArgument)
    } else if s is Destroyed {
        Result::Err(UsbError::InvalidObject)
    } else if !endpoint_transition_legal_spec(s, t) {
        Result::Err(UsbError::Failure)
    } else {
        Result::Ok(())
    }
}

/// The state a legal endpoint command moves the machine to on success.
pub open spec fn endpoint_next_state_spec(s: EndpointState, t: u32) -> EndpointState {
    if t == 40 {
        EndpointState::Active
    } else if t == 41 {
        EndpointState::Destroyed
    } else if t == 43 || t == 45 {
        EndpointState::Paused
    } else {
        s
    }
}

/// The outcome of an endpoint `respond` call.
pub open spec fn endpoint_respond_result_spec(s: EndpointState, t: u32, status_value: u32)
    -> Result<(), UsbError> {
    if status_value >= 16 {
        Result::Err(UsbError::InvalidArgument)
    } else {
        endpoint_inspect_spec(s, t)
    }
}

/// The response message an endpoint `respond` call emits.
pub open spec fn endpoint_response_spec(t: u32, status_value: u32, data0: u32, data1: u64)
    -> Message {
    Message { control: response_control_spec(t, status_value), data0, data1 }
}

/// The outcome of a doorbell delivery: the terminal machine accepts
/// nothing, the doorbell's device and endpoint fields must name this
/// machine, only the active machine serves doorbells, and the ring must
/// find a pending transfer to match.
pub open spec fn doorbell_result_spec(
    s: EndpointState,
    device: u64,
    endpoint: u64,
    doorbell: u32,
    pending: Option<Message>,
) -> Result<(), UsbError> {
    if s is Destroyed {
        Result::Err(UsbError::InvalidObject)
    } else if doorbell_device_spec(doorbell) != device || doorbell_endpoint_spec(doorbell)
        != endpoint {
        Result::Err(UsbError::InvalidArgument)
    } else if !(s is Active) {
        Result::Err(UsbError::Failure)
    } else if pending is None {
        Result::Err(UsbError::InvalidValue)
    } else {
        Result::Ok(())
    }
}

/// The outcome of enqueueing a transfer completion: the terminal machine
/// accepts nothing, and the status and length must fit their message
/// fields.
pub open spec fn enqueue_completion_result_spec(
    s: EndpointState,
    status_value: u32,
    transfer_length: u64,
) -> Result<(), UsbError> {
    if s is Destroyed {
        Result::Err(UsbError::InvalidObject)
    } else if status_value >= 16 {
        Result::Err(UsbError::InvalidArgument)
    } else if transfer_length > TRANSFER_LENGTH_MAX as u64 {
        Result::Err(UsbError::InvalidArgument)
    } else {
        Result::Ok(())
    }
}

/// The completion message enqueued for a finished transfer: transfer-
/// complete type, the status and the machine's addresses in the control
/// word, the transfer length in `data0` and the transfer's `data1`
/// echoed.
pub open spec fn completion_message_spec(
    status_value: u32,
    device: u64,
    endpoint: u64,
    transfer_length: u64,
    data1: u64,
) -> Message {
    Message {
        control: completion_control_spec(status_value, device as u32, endpoint as u32),
        data0: transfer_length as u32,
        data1,
    }
}

/// The endpoint lifecycle machine: a coarse state, the device and
/// endpoint addresses from the create command, the single pending-transfer
/// slot, and the responses sent so far.
pub struct EndpointStateMachine {
    pub state: EndpointState,
    pub device_addr: u64,
    pub endpoint_addr: u64,
    pub current: Option<Message>,
    pub sent: Vec<Message>,
}

impl EndpointStateMachine {
    /// The machine's invariant: one of the four lifecycle states, and
    /// addresses that fit their message fields.
    pub open spec fn wf(self) -> bool {
        &&& self.state is Destroyed || self.state is Halted || self.state is Paused
            || self.state is Active
        &&& self.device_addr < 256
        &&& self.endpoint_addr < 256
    }

    /// A machine for the endpoint a create command announces: paused and
    /// idle, addressed by the command's device and endpoint fields.
    pub fn new(create_command: &Message) -> (r: EndpointStateMachine)
        requires
            create_command.message_type_spec() == 40,
        ensures
            r.wf(),
            r.state == EndpointState::Paused,
            r.device_addr == data0_device_spec(create_command.data0_spec()),
            r.endpoint_addr == data0_endpoint_spec(create_command.data0_spec()),
            r.current is None,
            r.sent@ =~= Seq::<Message>::empty(),
    {
        EndpointStateMachine {
            state: EndpointState::Paused,
            device_addr: create_command.device_address() as u64,
            endpoint_addr: create_command.endpoint_address() as u64,
            current: Option::None,
            sent: Vec::new(),
        }
    }

    /// Validate a command against the current state without mutating
    /// anything.
    pub fn inspect_command(&self, cmd: &Message) -> (r: Result<(), UsbError>)
        ensures
            r == endpoint_inspect_spec(self.state, cmd.message_type_spec()),
    {
        let t = cmd.message_type();
        if !(t == 40 || t == 41 || (43 <= t && t <= 46)) {
            return Result::Err(UsbError::InvalidArgument);
        }
        match self.state {
            EndpointState::Destroyed => Result::Err(UsbError::InvalidObject),
            EndpointState::Paused => {
                if t == 40 || t == 41 || t == 44 {
                    Result::Ok(())
                } else {
                    Result::Err(UsbError::Failure)
                }
            },
            EndpointState::Active => {
                if t == 41 || t == 43 || t == 46 {
                    Result::Ok(())
                } else {
                    Result::Err(UsbError::Failure)
                }
            },
            EndpointState::Halted => {
                if t == 41 || t == 45 {
                    Result::Ok(())
                } else {
                    Result::Err(UsbError::Failure)
                }
            },
            _ => Result::Err(UsbError::Failure),
        }
    }

    /// Apply the transition a command response implies and emit the
    /// response. On success a set-next-transfer response also stores the
    /// command as the pending transfer; a failure status on a
    /// set-next-transfer halts the endpoint; other failure statuses leave
    /// the state alone. A failed call mutates nothing.
    pub fn respond(&mut self, cmd: &Message, status: MessageStatus) -> (r: Result<(), UsbError>)
        requires
            old(self).wf(),
        ensures
            final(self).wf(),
            r == endpoint_respond_result_spec(
                old(self).state,
                cmd.message_type_spec(),
                status.value_spec(),
            ),
            r is Err ==> *final(self) == *old(self),
            r is Ok ==> {
                &&& final(self).state == (if status.value_spec() == 1 {
                    endpoint_next_state_spec(old(self).state, cmd.message_type_spec())
                } else if cmd.message_type_spec() == 46 {
                    EndpointState::Halted
                } else {
                    old(self).state
                })
                &&& final(self).current == (
                if cmd.message_type_spec() == 46 && status.value_spec() == 1 {
                    Option::Some(*cmd)
                } else {
                    old(self).current
                })
                &&& final(self).device_addr == old(self).device_addr
                &&& final(self).endpoint_addr == old(self).endpoint_addr
                &&& final(self).sent@ =~= old(self).sent@.push(
                    endpoint_response_spec(
                        cmd.message_type_spec(),
                        status.value_spec(),
                        cmd.data0_spec(),
                        cmd.data1_spec(),
                    ),
                )
            },
    {
        let status_value = status.value();
        if status_value >= 16 {
            return Result::Err(UsbError::InvalidArgument);
        }
        let t = cmd.message_type();
        if let Result::Err(e) = self.inspect_command(cmd) {
            return Result::Err(e);
        }
        if status_value == 1 {
            if t == 46 {
                self.current = Option::Some(*cmd);
            }
            self.state = if t == 40 {
                EndpointState::Active
            } else if t == 41 {
                EndpointState::Destroyed
            } else if t == 43 || t == 45 {
                EndpointState::Paused
            } else {
                self.state
            };
        } else if t == 46 {
            self.state = EndpointState::Halted;
        }
        let response = make_response(t, status_value, cmd.data_0(), cmd.data_1());
        self.sent.push(response);
        Result::Ok(())
    }

    /// Decode a doorbell value and match it against this endpoint and its
    /// pending transfer. Never mutates.
    pub fn process_doorbell(&self, doorbell: u32) -> (r: Result<(), UsbError>)
        ensures
            r == doorbell_result_spec(
                self.state,
                self.device_addr,
                self.endpoint_addr,
                doorbell,
                self.current,
            ),
    {
        if let EndpointState::Destroyed = self.state {
            return Result::Err(UsbError::InvalidObject);
        }
        let device = crate::message::doorbell_device(doorbell);
        let endpoint = crate::message::doorbell_endpoint(doorbell);
        if device as u64 != self.device_addr || endpoint as u64 != self.endpoint_addr {
            return Result::Err(UsbError::InvalidArgument);
        }
        match self.state {
            EndpointState::Active => {
                if self.current.is_some() {
                    Result::Ok(())
                } else {
                    Result::Err(UsbError::InvalidValue)
                }
            },
            _ => Result::Err(UsbError::Failure),
        }
    }

    /// Append a completion record for the finished transfer `message`:
    /// the pending-transfer slot takes the completion message, ready for
    /// retrieval; a failure status additionally halts the endpoint. A
    /// failed call mutates nothing.
    pub fn enqueue_transfer_completion_for_message(
        &mut self,
        message: &Message,
        status: MessageStatus,
        transfer_length: u64,
    ) -> (r: Result<(), UsbError>)
        requires
            old(self).wf(),
        ensures
            final(self).wf(),
            r == enqueue_completion_result_spec(
                old(self).state,
                status.value_spec(),
                transfer_length,
            ),
            r is Err ==> *final(self) == *old(self),
            r is Ok ==> {
                &&& final(self).current == Option::Some(
                    completion_message_spec(
                        status.value_spec(),
                        old(self).device_addr,
                        old(self).endpoint_addr,
                        transfer_length,
                        message.data1_spec(),
                    ),
                )
                &&& final(self).state == (if status.value_spec() == 1 {
                    old(self).state
                } else {
                    EndpointState::Halted
                })
                &&& final(self).device_addr == old(self).device_addr
                &&& final(self).endpoint_addr == old(self).endpoint_addr
                &&& final(self).sent@ =~= old(self).sent@
            },
    {
        if let EndpointState::Destroyed = self.state {
            return Result::Err(UsbError::InvalidObject);
        }
        let status_value = status.value();
        if status_value >= 16 {
            return Result::Err(UsbError::InvalidArgument);
        }
        if transfer_length > TRANSFER_LENGTH_MAX as u64 {
            return Result::Err(UsbError::InvalidArgument);
        }
        let completion = make_transfer_completion(
            status_value,
            self.device_addr as u32,
            self.endpoint_addr as u32,
            transfer_length as u32,
            message.data_1(),
        );
        self.current = Option::Some(completion);
        if status_value != 1 {
            self.state = EndpointState::Halted;
        }
        Result::Ok(())
    }

    /// Take the single outstanding transfer message, leaving the slot
    /// empty; `None` when the endpoint is idle.
    pub fn current_transfer_message(&mut self) -> (r: Option<Message>)
        ensures
            r == old(self).current,
            final(self).current is None,
            final(self).state == old(self).state,
            final(self).device_addr == old(self).device_addr,
            final(self).endpoint_addr == old(self).endpoint_addr,
            final(self).sent@ =~= old(self).sent@,
    {
        let r = self.current;
        self.current = Option::None;
        r
    }

    /// The machine's coarse lifecycle state.
    pub fn endpoint_state(&self) -> (r: EndpointState)
        ensures
            r == self.state,
    {
        self.state
    }

    /// The device address the create command declared.
    pub fn device_address(&self) -> (r: u64)
        ensures
            r == self.device_addr,
    {
        self.device_addr
    }

    /// The endpoint address the create command declared.
    pub fn endpoint_address(&self) -> (r: u64)
        ensures
            r == self.endpoint_addr,
    {
        self.endpoint_addr
    }

    /// The responses the machine has emitted, oldest first.
    pub fn sent_messages(&self) -> (r: &Vec<Message>)
        ensures
            r@ == self.sent@,
    {
        &self.sent
    }
}

/// A destroy response on a destroyed endpoint machine fails because the
/// machine is terminal; so does every other command.
pub proof fn lemma_endpoint_destroyed_is_absorbing(s: EndpointState, t: u32, status_value: u32)
    requires
        s is Destroyed,
        is_endpoint_command_spec(t),
        status_value < 16,
    ensures
        endpoint_respond_result_spec(s, t, status_value) == Result::<(), UsbError>::Err(
            UsbError::InvalidObject,
        ),
{
}

/// A create response on an active endpoint machine fails as an illegal
/// transition.
pub proof fn lemma_endpoint_create_while_active(s: EndpointState, status_value: u32)
    requires
        s is Active,
        status_value < 16,
    ensures
        endpoint_respond_result_spec(s, 40, status_value) == Result::<(), UsbError>::Err(
            UsbError::Failure,
        ),
{
}

/// Enqueueing a successful transfer completion of length `n` and then
/// taking the current transfer message yields a message whose decoded
/// transfer length is `n` and whose status is the success code, and leaves
/// the pending-transfer slot empty.
pub proof fn lemma_completion_round_trip(device: u64, endpoint: u64, n: u64, data1: u64)
    requires
        device < 256,
        endpoint < 256,
        n <= TRANSFER_LENGTH_MAX as u64,
    ensures
        ({
            let m = completion_message_spec(1, device, endpoint, n, data1);
            &&& crate::message::data0_transfer_length_spec(m.data0) == n
            &&& crate::message::control_status_spec(m.control) == 1
            &&& crate::message::control_type_spec(m.control) == crate::message::MSG_TRANSFER_COMPLETE
            &&& crate::message::control_device_spec(m.control) == device
            &&& crate::message::control_endpoint_spec(m.control) == endpoint
        }),
{
    lemma_completion_fields_public(1, device as u32, endpoint as u32);
    lemma_transfer_length_public(n as u32);
}

/// The completion control word decodes back to its packed fields.
proof fn lemma_completion_fields_public(status: u32, device: u32, endpoint: u32)
    by (bit_vector)
    requires
        status < 16,
        device < 256,
        endpoint < 256,
    ensures
        (61u32 | (status << 8) | (device << 16) | (endpoint << 24)) & 0x3f == 61,
        ((61u32 | (status << 8) | (device << 16) | (endpoint << 24)) >> 8) & 0xf == status,
        ((61u32 | (status << 8) | (device << 16) | (endpoint << 24)) >> 16) & 0xff == device,
        ((61u32 | (status << 8) | (device << 16) | (endpoint << 24)) >> 24) & 0xff == endpoint,
{
}

/// A value within the transfer length field is unchanged by its mask.
proof fn lemma_transfer_length_public(len: u32)
    by (bit_vector)
    requires
        len <= 0x0fff_ffff,
    ensures
        len & 0x0fff_ffff == len,
{
}

} // verus!
