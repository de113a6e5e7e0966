//! The controller lifecycle state machine: `Off`, `Paused`, `Active`.
//! The machine begins powered off; power-on is the only command the off
//! state accepts, and the off state a power-off response reaches is
//! terminal for every other command. Frame-number responses carry the
//! current frame and timestamp, and frame updates can be pushed onto the
//! outbound queue at any powered state.

use vstd::prelude::*;
use crate::errors::UsbError;
use crate::message::make_response;
use crate::message::response_control_spec;
use crate::message::Message;
use crate::message::MSG_FRAME_NUMBER_UPDATE;
use crate::message::MSG_FRAME_TIMESTAMP_UPDATE;
use crate::types::ControllerState;
use crate::types::MessageStatus;

verus! {

/// Whether a message type addresses the controller machine.
pub open spec fn is_controller_command_spec(t: u32) -> bool {
    16 <= t <= 20
}

/// Whether the controller command `t` is legal in state `s`: power-on
/// takes the off machine to paused, start a paused one to active, pause an
/// active one back, the frame-number query needs an active machine, and
/// power-off takes any powered state off.
pub open spec fn controller_transition_legal_spec(s: ControllerState, t: u32) -> bool {
    match s {
        ControllerState::Off => t == 16,
        ControllerState::Paused => t == 17 || t == 18,
        ControllerState::Active => t == 17 || t == 19 || t == 20,
        _ => false,
    }
}

/// The validation every controller command goes through: unknown commands
/// are rejected; the off machine accepts nothing but power-on; a command
/// illegal for the current state is refused without mutation.
pub open spec fn controller_inspect_spec(s: ControllerState, t: u32) -> Result<(), UsbError> {
    if !is_controller_command_spec(t) {
        Result::Err(UsbError::InvalidArgument)
    } else if s is Off && t != 16 {
        Result::Err(UsbError::InvalidObject)
    } else if !controller_transition_legal_spec(s, t) {
        Result::Err(UsbError::Failure)
    } else {
        Result::Ok(())
    }
}

/// The state a legal controller command moves the machine to on success.
pub open spec fn controller_next_state_spec(s: ControllerState, t: u32) -> ControllerState {
    if t == 16 || t == 19 {
        ControllerState::Paused
    } else if t == 17 {
        ControllerState::Off
    } else if t == 18 {
        ControllerState::Active
    } else {
        s
    }
}

/// The outcome of a controller `respond` call: the status must fit its
/// field, the frame/timestamp pair accompanies exactly the frame-number
/// command, and the command must pass inspection.
pub open spec fn controller_respond_result_spec(
    s: ControllerState,
    t: u32,
    status_value: u32,
    frame_timestamp: Option<(u64, u64)>,
) -> Result<(), UsbError> {
    if status_value >= 16 {
        Result::Err(UsbError::InvalidArgument)
    } else if (frame_timestamp is Some) != (t == 20) {
        Result::Err(UsbError::InvalidArgument)
    } else {
        controller_inspect_spec(s, t)
    }
}

/// The response message a controller `respond` call emits: the command's
/// type and the status; a frame-number response carries the frame in
/// `data1`.
pub open spec fn controller_response_spec(
    t: u32,
    status_value: u32,
    data0: u32,
    data1: u64,
) -> Message {
    Message { control: response_control_spec(t, status_value), data0, data1 }
}

/// The controller lifecycle machine: a coarse state and the messages sent
/// so far.
pub struct ControllerStateMachine {
    pub state: ControllerState,
    pub sent: Vec<Message>,
}

impl ControllerStateMachine {
    /// The machine's invariant: its state is one of the three lifecycle
    /// states.
    pub open spec fn wf(self) -> bool {
        self.state is Off || self.state is Paused || self.state is Active
    }

    /// A fresh controller machine, powered off.
    pub fn new() -> (r: ControllerStateMachine)
        ensures
            r.wf(),
            r.state == ControllerState::Off,
            r.sent@ =~= Seq::<Message>::empty(),
    {
        ControllerStateMachine { state: ControllerState::Off, sent: Vec::new() }
    }

    /// Validate a command against the current state without mutating
    /// anything.
    pub fn inspect_command(&self, cmd: &Message) -> (r: Result<(), UsbError>)
        ensures
            r == controller_inspect_spec(self.state, cmd.message_type_spec()),
    {
        let t = cmd.message_type();
        if !(16 <= t && t <= 20) {
            return Result::Err(UsbError::InvalidArgument);
        }
        match self.state {
            ControllerState::Off => {
                if t == 16 {
                    Result::Ok(())
                } else {
                    Result::Err(UsbError::InvalidObject)
                }
            },
            ControllerState::Paused => {
                if t == 17 || t == 18 {
                    Result::Ok(())
                } else {
                    Result::Err(UsbError::Failure)
                }
            },
            ControllerState::Active => {
                if t == 17 || t == 19 || t == 20 {
                    Result::Ok(())
                } else {
                    Result::Err(UsbError::Failure)
                }
            },
            _ => Result::Err(UsbError::Failure),
        }
    }

    /// Apply the transition a command response implies and emit the
    /// response. A frame-number response takes the current frame and
    /// timestamp and emits the response carrying the frame followed by a
    /// timestamp update. On a failure status the machine stays where it
    /// was. A failed call mutates nothing.
    pub fn respond(
        &mut self,
        cmd: &Message,
        status: MessageStatus,
        frame_timestamp: Option<(u64, u64)>,
    ) -> (r: Result<(), UsbError>)
        requires
            old(self).wf(),
        ensures
            final(self).wf(),
            r == controller_respond_result_spec(
                old(self).state,
                cmd.message_type_spec(),
                status.value_spec(),
                frame_timestamp,
            ),
            r is Err ==> *final(self) == *old(self),
            r is Ok ==> {
                &&& final(self).state == (if status.value_spec() == 1 {
                    controller_next_state_spec(old(self).state, cmd.message_type_spec())
                } else {
                    old(self).state
                })
                &&& frame_timestamp is Some ==> final(self).sent@ =~= old(self).sent@.push(
                    controller_response_spec(
                        cmd.message_type_spec(),
                        status.value_spec(),
                        cmd.data0_spec(),
                        (frame_timestamp->0).0,
                    ),
                ).push(
                    controller_response_spec(
                        MSG_FRAME_TIMESTAMP_UPDATE,
                        status.value_spec(),
                        cmd.data0_spec(),
                        (frame_timestamp->0).1,
                    ),
                )
                &&& frame_timestamp is None ==> final(self).sent@ =~= old(self).sent@.push(
                    controller_response_spec(
                        cmd.message_type_spec(),
                        status.value_spec(),
                        cmd.data0_spec(),
                        cmd.data1_spec(),
                    ),
                )
            },
    {
        let status_value = status.value();
        if status_value >= 16 {
            return Result::Err(UsbError::InvalidArgument);
        }
        let t = cmd.message_type();
        match frame_timestamp {
            Option::Some(_) => {
                if t != 20 {
                    return Result::Err(UsbError::InvalidArgument);
                }
            },
            Option::None => {
                if t == 20 {
                    return Result::Err(UsbError::InvalidArgument);
                }
            },
        }
        if let Result::Err(e) = self.inspect_command(cmd) {
            return Result::Err(e);
        }
        if status_value == 1 {
            self.state = if t == 16 || t == 19 {
                ControllerState::Paused
            } else if t == 17 {
                ControllerState::Off
            } else if t == 18 {
                ControllerState::Active
            } else {
                self.state
            };
        }
        match frame_timestamp {
            Option::Some((frame, timestamp)) => {
                let response = make_response(t, status_value, cmd.data_0(), frame);
                self.sent.push(response);
                let update = make_response(
                    MSG_FRAME_TIMESTAMP_UPDATE,
                    status_value,
                    cmd.data_0(),
                    timestamp,
                );
                self.sent.push(update);
            },
            Option::None => {
                let response = make_response(t, status_value, cmd.data_0(), cmd.data_1());
                self.sent.push(response);
            },
        }
        Result::Ok(())
    }

    /// Push a frame-number update and a frame-timestamp update onto the
    /// outbound queue; legal at any powered state.
    pub fn enqueue_updated(&mut self, frame: u64, timestamp: u64) -> (r: Result<(), UsbError>)
        requires
            old(self).wf(),
        ensures
            final(self).wf(),
            final(self).state == old(self).state,
            old(self).state is Off ==> r == Result::<(), UsbError>::Err(UsbError::InvalidObject)
                && *final(self) == *old(self),
            !(old(self).state is Off) ==> r is Ok && final(self).sent@ =~= old(self).sent@.push(
                controller_response_spec(MSG_FRAME_NUMBER_UPDATE, 1, 0, frame),
            ).push(controller_response_spec(MSG_FRAME_TIMESTAMP_UPDATE, 1, 0, timestamp)),
    {
        if let ControllerState::Off = self.state {
            return Result::Err(UsbError::InvalidObject);
        }
        let frame_update = make_response(MSG_FRAME_NUMBER_UPDATE, 1, 0, frame);
        self.sent.push(frame_update);
        let timestamp_update = make_response(MSG_FRAME_TIMESTAMP_UPDATE, 1, 0, timestamp);
        self.sent.push(timestamp_update);
        Result::Ok(())
    }

    /// The machine's coarse lifecycle state.
    pub fn controller_state(&self) -> (r: ControllerState)
        ensures
            r == self.state,
    {
        self.state
    }

    /// The messages the machine has emitted, oldest first.
    pub fn sent_messages(&self) -> (r: &Vec<Message>)
        ensures
            r@ == self.sent@,
    {
        &self.sent
    }
}

/// A power-off response on a powered-off controller fails because the
/// machine is terminal; so does every command but power-on.
pub proof fn lemma_controller_off_is_absorbing(
    s: ControllerState,
    t: u32,
    status_value: u32,
    frame_timestamp: Option<(u64, u64)>,
)
    requires
        s is Off,
        is_controller_command_spec(t),
        t != 16,
        status_value < 16,
        (frame_timestamp is Some) == (t == 20),
    ensures
        controller_respond_result_spec(s, t, status_value, frame_timestamp) == Result::<
            (),
            UsbError,
        >::Err(UsbError::InvalidObject),
{
}

/// A power-on response on an active controller fails as an illegal
/// transition.
pub proof fn lemma_controller_power_on_while_active(s: ControllerState, status_value: u32)
    requires
        s is Active,
        status_value < 16,
    ensures
        controller_respond_result_spec(s, 16, status_value, Option::None) == Result::<
            (),
            UsbError,
        >::Err(UsbError::Failure),
{
}

} // verus!
