//! The device lifecycle state machine. A machine is created when a
//! device-create command is first inspected and holds one of three states:
//! `Paused`, `Active` or the absorbing `Destroyed`. Commands are validated
//! against the current state by `inspect_command`, which never mutates, and
//! applied by `respond`, the only state-mutating operation, which emits the
//! response message onto the machine's outbound queue.

use vstd::prelude::*;
use crate::errors::UsbError;
use crate::message::make_response;
use crate::message::response_control_spec;
use crate::message::Message;
use crate::types::DeviceState;
use crate::types::MessageStatus;

verus! {

/// Whether a message type addresses the device machine.
pub open spec fn is_device_command_spec(t: u32) -> bool {
    32 <= t <= 36
}

/// Whether the device command `t` is legal in state `s`: create and start
/// take a paused machine, pause and update an active one, destroy either.
pub open spec fn device_transition_legal_spec(s: DeviceState, t: u32) -> bool {
    match s {
        DeviceState::Paused => t == 32 || t == 33 || t == 34,
        DeviceState::Active => t == 33 || t == 35 || t == 36,
        _ => false,
    }
}

/// The validation every device command goes through: unknown commands are
/// rejected, the destroyed machine accepts nothing, and a command illegal
/// for the current state is refused without mutation.
pub open spec fn device_inspect_spec(s: DeviceState, t: u32) -> Result<(), UsbError> {
    if !is_device_command_spec(t) {
        Result::Err(UsbError::InvalidArgument)
    } else if s is Destroyed {
        Result::Err(UsbError::InvalidObject)
    } else if !device_transition_legal_spec(s, t) {
        Result::Err(UsbError::Failure)
    } else {
        Result::Ok(())
    }
}

/// The state a legal device command moves the machine to on success.
pub open spec fn device_next_state_spec(s: DeviceState, t: u32) -> DeviceState {
    if t == 32 || t == 34 {
        DeviceState::Active
    } else if t == 33 {
        DeviceState::Destroyed
    } else if t == 35 {
        DeviceState::Paused
    } else {
        s
    }
}

/// The outcome of a device `respond` call: the status code must fit the
/// message's status field, an explicit address may accompany only a create
/// response and must fit the address field, and the command itself must
/// pass inspection.
pub open spec fn device_respond_result_spec(
    s: DeviceState,
    t: u32,
    status_value: u32,
    addr: Option<u64>,
) -> Result<(), UsbError> {
    if status_value >= 16 {
        Result::Err(UsbError::InvalidArgument)
    } else if addr is Some && (t != 32 || addr->0 >= 256) {
        Result::Err(UsbError::InvalidArgument)
    } else {
        device_inspect_spec(s, t)
    }
}

/// The response message a device `respond` call emits: the command's type
/// with the given status, the device address in `data0`, and the command's
/// `data1` echoed.
pub open spec fn device_response_spec(t: u32, status_value: u32, address: u64, data1: u64) -> Message {
    Message {
        control: response_control_spec(t, status_value),
        data0: address as u32,
        data1,
    }
}

/// The device lifecycle machine: a coarse state, the device address
/// assigned at creation time, the topology route from the create command,
/// and the responses sent so far.
pub struct DeviceStateMachine {
    pub state: DeviceState,
    pub address: u64,
    pub route: u64,
    pub sent: Vec<Message>,
}

impl DeviceStateMachine {
    /// The machine's invariant: its state is one of the three lifecycle
    /// states and its address fits the message address field.
    pub open spec fn wf(self) -> bool {
        &&& self.state is Destroyed || self.state is Paused || self.state is Active
        &&& self.address < 256
    }

    /// A machine for the device a create command announces: paused, not
    /// yet addressed, with the command's `data1` as its topology route.
    pub fn new(create_command: &Message) -> (r: DeviceStateMachine)
        requires
            create_command.message_type_spec() == 32,
        ensures
            r.wf(),
            r.state == DeviceState::Paused,
            r.address == 0,
            r.route == create_command.data1_spec(),
            r.sent@ =~= Seq::<Message>::empty(),
    {
        DeviceStateMachine {
            state: DeviceState::Paused,
            address: 0,
            route: create_command.data_1(),
            sent: Vec::new(),
        }
    }

    /// Validate a command against the current state without mutating
    /// anything.
    pub fn inspect_command(&self, cmd: &Message) -> (r: Result<(), UsbError>)
        ensures
            r == device_inspect_spec(self.state, cmd.message_type_spec()),
    {
        let t = cmd.message_type();
        if !(32 <= t && t <= 36) {
            return Result::Err(UsbError::InvalidArgument);
        }
        match self.state {
            DeviceState::Destroyed => Result::Err(UsbError::InvalidObject),
            DeviceState::Paused => {
                if t == 32 || t == 33 || t == 34 {
                    Result::Ok(())
                } else {
                    Result::Err(UsbError::Failure)
                }
            },
            DeviceState::Active => {
                if t == 33 || t == 35 || t == 36 {
                    Result::Ok(())
                } else {
                    Result::Err(UsbError::Failure)
                }
            },
            _ => Result::Err(UsbError::Failure),
        }
    }

    /// Apply the transition a command response implies and emit the
    /// response message: the only state-mutating operation. On a success
    /// status the machine moves to the command's post-condition state; on
    /// a failure status it stays where it was and only the response is
    /// emitted. A failed call mutates nothing.
    pub fn respond(&mut self, cmd: &Message, status: MessageStatus, device_address: Option<u64>)
        -> (r: Result<(), UsbError>)
        requires
            old(self).wf(),
        ensures
            final(self).wf(),
            r == device_respond_result_spec(
                old(self).state,
                cmd.message_type_spec(),
                status.value_spec(),
                device_address,
            ),
            r is Err ==> *final(self) == *old(self),
            r is Ok ==> {
                &&& final(self).state == (if status.value_spec() == 1 {
                    device_next_state_spec(old(self).state, cmd.message_type_spec())
                } else {
                    old(self).state
                })
                &&& final(self).address == (
                if cmd.message_type_spec() == 32 && device_address is Some {
                    device_address->0
                } else {
                    old(self).address
                })
                &&& final(self).route == old(self).route
                &&& final(self).sent@ =~= old(self).sent@.push(
                    device_response_spec(
                        cmd.message_type_spec(),
                        status.value_spec(),
                        final(self).address,
                        cmd.data1_spec(),
                    ),
                )
            },
    {
        let status_value = status.value();
        if status_value >= 16 {
            return Result::Err(UsbError::InvalidArgument);
        }
        let t = cmd.message_type();
        if let Option::Some(addr) = device_address {
            if t != 32 || addr >= 256 {
                return Result::Err(UsbError::InvalidArgument);
            }
        }
        if let Result::Err(e) = self.inspect_command(cmd) {
            return Result::Err(e);
        }
        if t == 32 {
            if let Option::Some(addr) = device_address {
                self.address = addr;
            }
        }
        if status_value == 1 {
            self.state = if t == 32 || t == 34 {
                DeviceState::Active
            } else if t == 33 {
                DeviceState::Destroyed
            } else if t == 35 {
                DeviceState::Paused
            } else {
                self.state
            };
        }
        let response = make_response(t, status_value, self.address as u32, cmd.data_1());
        self.sent.push(response);
        Result::Ok(())
    }

    /// The machine's coarse lifecycle state.
    pub fn device_state(&self) -> (r: DeviceState)
        ensures
            r == self.state,
    {
        self.state
    }

    /// The topology route the create command declared.
    pub fn complete_route(&self) -> (r: u64)
        ensures
            r == self.route,
    {
        self.route
    }

    /// The address assigned by the create response.
    pub fn device_address(&self) -> (r: u64)
        ensures
            r == self.address,
    {
        self.address
    }

    /// The responses the machine has emitted, oldest first.
    pub fn sent_messages(&self) -> (r: &Vec<Message>)
        ensures
            r@ == self.sent@,
    {
        &self.sent
    }
}

/// A destroy response on a destroyed device machine fails because the
/// machine is terminal, and the machine stays destroyed; so does every
/// other command.
pub proof fn lemma_device_destroyed_is_absorbing(s: DeviceState, t: u32, status_value: u32)
    requires
        s is Destroyed,
        is_device_command_spec(t),
    ensures
        device_respond_result_spec(s, t, status_value, Option::None) is Err,
        status_value < 16 ==> device_respond_result_spec(s, t, status_value, Option::None)
            == Result::<(), UsbError>::Err(UsbError::InvalidObject),
{
}

/// A create response on an active device machine fails as an illegal
/// transition.
pub proof fn lemma_device_create_while_active(s: DeviceState, status_value: u32)
    requires
        s is Active,
        status_value < 16,
    ensures
        device_respond_result_spec(s, 32, status_value, Option::None) == Result::<
            (),
            UsbError,
        >::Err(UsbError::Failure),
{
}

} // verus!
