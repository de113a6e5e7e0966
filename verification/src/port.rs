//! The port lifecycle state machine: `Off`, `Powered`, `Suspended`,
//! `Active`. Beside the coarse state it tracks the raw electrical and link
//! status — powered, connected, overcurrent, link state and speed — as
//! settable flags, and recomputes the coarse state from link changes
//! unless told not to.

use vstd::prelude::*;
use crate::errors::UsbError;
use crate::message::make_response;
use crate::message::response_control_spec;
use crate::message::Message;
use crate::types::DeviceSpeed;
use crate::types::LinkState;
use crate::types::MessageStatus;
use crate::types::PortState;
use crate::types::PortStatus;

verus! {

/// Whether a message type addresses the port machine.
pub open spec fn is_port_command_spec(t: u32) -> bool {
    24 <= t <= 30
}

/// Whether the port command `t` is legal in state `s`: power-on takes the
/// off port to powered; reset enables any powered state; suspend and
/// resume move between active and suspended; disable returns to powered;
/// the status query reads any powered state; power-off takes any powered
/// state off.
pub open spec fn port_transition_legal_spec(s: PortState, t: u32) -> bool {
    match s {
        PortState::Off => t == 24,
        PortState::Powered => t == 25 || t == 28 || t == 30,
        PortState::Suspended => t == 25 || t == 26 || t == 28 || t == 29 || t == 30,
        PortState::Active => t == 25 || t == 27 || t == 28 || t == 29 || t == 30,
        _ => false,
    }
}

/// The validation every port command goes through: unknown commands are
/// rejected; the off port accepts nothing but power-on; a command illegal
/// for the current state is refused without mutation.
pub open spec fn port_inspect_spec(s: PortState, t: u32) -> Result<(), UsbError> {
    if !is_port_command_spec(t) {
        Result::Err(UsbError::InvalidArgument)
    } else if s is Off && t != 24 {
        Result::Err(UsbError::InvalidObject)
    } else if !port_transition_legal_spec(s, t) {
        Result::Err(UsbError::Failure)
    } else {
        Result::Ok(())
    }
}

/// The state a legal port command moves the machine to on success.
pub open spec fn port_next_state_spec(s: PortState, t: u32) -> PortState {
    if t == 24 {
        PortState::Powered
    } else if t == 25 {
        PortState::Off
    } else if t == 26 || t == 28 {
        PortState::Active
    } else if t == 27 {
        PortState::Suspended
    } else if t == 29 {
        PortState::Powered
    } else {
        s
    }
}

/// The outcome of a port `respond` call.
pub open spec fn port_respond_result_spec(s: PortState, t: u32, status_value: u32) -> Result<
    (),
    UsbError,
> {
    if status_value >= 16 {
        Result::Err(UsbError::InvalidArgument)
    } else {
        port_inspect_spec(s, t)
    }
}

/// The port status bitmap: the powered flag in bit 0, overcurrent in bit
/// 1, connected in bit 2, the link state in bits 4..8 and the speed in
/// bits 8..11.
pub open spec fn port_status_bitmap_spec(
    powered: bool,
    overcurrent: bool,
    connected: bool,
    link_state: u32,
    speed: u32,
) -> u32 {
    ((if powered {
        1int
    } else {
        0int
    }) + (if overcurrent {
        2int
    } else {
        0int
    }) + (if connected {
        4int
    } else {
        0int
    }) + 16 * (link_state % 16) + 256 * (speed % 8)) as u32
}

/// The response message a port `respond` call emits: the command's type
/// and status, with the port status bitmap in `data0`.
pub open spec fn port_response_spec(t: u32, status_value: u32, bitmap: u32, data1: u64) -> Message {
    Message { control: response_control_spec(t, status_value), data0: bitmap, data1 }
}

/// The outcome of a link-state update: the off port accepts nothing, and
/// the link and speed values must fit their bitmap fields.
pub open spec fn port_update_link_result_spec(
    s: PortState,
    link_value: u32,
    speed_value: u32,
) -> Result<(), UsbError> {
    if s is Off {
        Result::Err(UsbError::InvalidObject)
    } else if link_value >= 16 || speed_value >= 8 {
        Result::Err(UsbError::InvalidArgument)
    } else {
        Result::Ok(())
    }
}

/// The coarse state after a link-state change: losing the link to the
/// suspended range while active suspends the port, and regaining it while
/// suspended resumes it; every other combination keeps the state.
pub open spec fn port_link_recompute_spec(s: PortState, link_value: u32) -> PortState {
    if s is Active && link_value == 3 {
        PortState::Suspended
    } else if s is Suspended && link_value == 0 {
        PortState::Active
    } else {
        s
    }
}

/// The port lifecycle machine: a coarse state, the raw electrical and
/// link flags, and the responses sent so far.
pub struct PortStateMachine {
    pub state: PortState,
    pub is_powered: bool,
    pub is_connected: bool,
    pub is_overcurrent: bool,
    pub link: u32,
    pub speed_value: u32,
    pub sent: Vec<Message>,
}

impl PortStateMachine {
    /// The machine's invariant: one of the four lifecycle states, and
    /// link and speed values that fit their bitmap fields.
    pub open spec fn wf(self) -> bool {
        &&& self.state is Off || self.state is Powered || self.state is Suspended
            || self.state is Active
        &&& self.link < 16
        &&& self.speed_value < 8
    }

    /// A fresh port machine: off, unpowered, link disabled, no speed.
    pub fn new() -> (r: PortStateMachine)
        ensures
            r.wf(),
            r.state == PortState::Off,
            !r.is_powered && !r.is_connected && !r.is_overcurrent,
            r.link == 4,
            r.speed_value == 0,
            r.sent@ =~= Seq::<Message>::empty(),
    {
        PortStateMachine {
            state: PortState::Off,
            is_powered: false,
            is_connected: false,
            is_overcurrent: false,
            link: 4,
            speed_value: 0,
            sent: Vec::new(),
        }
    }

    /// Validate a command against the current state without mutating
    /// anything.
    pub fn inspect_command(&self, cmd: &Message) -> (r: Result<(), UsbError>)
        ensures
            r == port_inspect_spec(self.state, cmd.message_type_spec()),
    {
        let t = cmd.message_type();
        if !(24 <= t && t <= 30) {
            return Result::Err(UsbError::InvalidArgument);
        }
        match self.state {
            PortState::Off => {
                if t == 24 {
                    Result::Ok(())
                } else {
                    Result::Err(UsbError::InvalidObject)
                }
            },
            PortState::Powered => {
                if t == 25 || t == 28 || t == 30 {
                    Result::Ok(())
                } else {
                    Result::Err(UsbError::Failure)
                }
            },
            PortState::Suspended => {
                if t == 25 || t == 26 || t == 28 || t == 29 || t == 30 {
                    Result::Ok(())
                } else {
                    Result::Err(UsbError::Failure)
                }
            },
            PortState::Active => {
                if t == 25 || t == 27 || t == 28 || t == 29 || t == 30 {
                    Result::Ok(())
                } else {
                    Result::Err(UsbError::Failure)
                }
            },
            _ => Result::Err(UsbError::Failure),
        }
    }

    /// Apply the transition a command response implies and emit the
    /// response, whose `data0` carries the port status bitmap. A success
    /// status on power-on and power-off also sets and clears the powered
    /// flag; a failure status leaves the machine where it was. A failed
    /// call mutates nothing.
    pub fn respond(&mut self, cmd: &Message, status: MessageStatus) -> (r: Result<(), UsbError>)
        requires
            old(self).wf(),
        ensures
            final(self).wf(),
            r == port_respond_result_spec(
                old(self).state,
                cmd.message_type_spec(),
                status.value_spec(),
            ),
            r is Err ==> *final(self) == *old(self),
            r is Ok ==> {
                &&& final(self).state == (if status.value_spec() == 1 {
                    port_next_state_spec(old(self).state, cmd.message_type_spec())
                } else {
                    old(self).state
                })
                &&& final(self).is_powered == (if status.value_spec() == 1
                    && cmd.message_type_spec() == 24 {
                    true
                } else if status.value_spec() == 1 && cmd.message_type_spec() == 25 {
                    false
                } else {
                    old(self).is_powered
                })
                &&& final(self).is_connected == old(self).is_connected
                &&& final(self).is_overcurrent == old(self).is_overcurrent
                &&& final(self).link == old(self).link
                &&& final(self).speed_value == old(self).speed_value
                &&& final(self).sent@ =~= old(self).sent@.push(
                    port_response_spec(
                        cmd.message_type_spec(),
                        status.value_spec(),
                        port_status_bitmap_spec(
                            final(self).is_powered,
                            old(self).is_overcurrent,
                            old(self).is_connected,
                            old(self).link,
                            old(self).speed_value,
                        ),
                        cmd.data1_spec(),
                    ),
                )
            },
    {
        let status_value = status.value();
        if status_value >= 16 {
            return Result::Err(UsbError::InvalidArgument);
        }
        let t = cmd.message_type();
        if let Result::Err(e) = self.inspect_command(cmd) {
            return Result::Err(e);
        }
        if status_value == 1 {
            if t == 24 {
                self.is_powered = true;
            }
            if t == 25 {
                self.is_powered = false;
            }
            self.state = if t == 24 {
                PortState::Powered
            } else if t == 25 {
                PortState::Off
            } else if t == 26 || t == 28 {
                PortState::Active
            } else if t == 27 {
                PortState::Suspended
            } else if t == 29 {
                PortState::Powered
            } else {
                self.state
            };
        }
        let bitmap = self.port_status_raw();
        let response = make_response(t, status_value, bitmap, cmd.data_1());
        self.sent.push(response);
        Result::Ok(())
    }

    /// Record a link-state change reported by the electrical layer: the
    /// link and speed fields take the new values, and unless inhibited the
    /// coarse state is recomputed — suspension on link loss while active,
    /// resumption on link recovery while suspended.
    pub fn update_link_state(
        &mut self,
        link_state: LinkState,
        speed: DeviceSpeed,
        inhibit_link_state_change: bool,
    ) -> (r: Result<(), UsbError>)
        requires
            old(self).wf(),
        ensures
            final(self).wf(),
            r == port_update_link_result_spec(
                old(self).state,
                link_state.value_spec(),
                speed.value_spec(),
            ),
            r is Err ==> *final(self) == *old(self),
            r is Ok ==> {
                &&& final(self).link == link_state.value_spec()
                &&& final(self).speed_value == speed.value_spec()
                &&& final(self).state == (if inhibit_link_state_change {
                    old(self).state
                } else {
                    port_link_recompute_spec(old(self).state, link_state.value_spec())
                })
                &&& final(self).is_powered == old(self).is_powered
                &&& final(self).is_connected == old(self).is_connected
                &&& final(self).is_overcurrent == old(self).is_overcurrent
                &&& final(self).sent@ =~= old(self).sent@
            },
    {
        if let PortState::Off = self.state {
            return Result::Err(UsbError::InvalidObject);
        }
        let link_value = link_state.value();
        let speed_value = speed.value();
        if link_value >= 16 || speed_value >= 8 {
            return Result::Err(UsbError::InvalidArgument);
        }
        self.link = link_value;
        self.speed_value = speed_value;
        if !inhibit_link_state_change {
            self.state = match self.state {
                PortState::Active => {
                    if link_value == 3 {
                        PortState::Suspended
                    } else {
                        self.state
                    }
                },
                PortState::Suspended => {
                    if link_value == 0 {
                        PortState::Active
                    } else {
                        self.state
                    }
                },
                _ => self.state,
            };
        }
        Result::Ok(())
    }

    /// The machine's coarse lifecycle state.
    pub fn port_state(&self) -> (r: PortState)
        ensures
            r == self.state,
    {
        self.state
    }

    /// The raw port status bitmap.
    pub fn port_status_raw(&self) -> (r: u32)
        requires
            self.wf(),
        ensures
            r == port_status_bitmap_spec(
                self.is_powered,
                self.is_overcurrent,
                self.is_connected,
                self.link,
                self.speed_value,
            ),
    {
        let powered_bit: u32 = if self.is_powered {
            1
        } else {
            0
        };
        let overcurrent_bit: u32 = if self.is_overcurrent {
            2
        } else {
            0
        };
        let connected_bit: u32 = if self.is_connected {
            4
        } else {
            0
        };
        powered_bit + overcurrent_bit + connected_bit + 16 * (self.link % 16) + 256 * (
        self.speed_value % 8)
    }

    /// The port status bitmap decoded as a `PortStatus`: a bitmap holding
    /// exactly one named field decodes to it, any other to `Other`.
    pub fn port_status(&self) -> (r: PortStatus)
        requires
            self.wf(),
        ensures
            r == PortStatus::from_value_spec(
                port_status_bitmap_spec(
                    self.is_powered,
                    self.is_overcurrent,
                    self.is_connected,
                    self.link,
                    self.speed_value,
                ),
            ),
    {
        PortStatus::from(self.port_status_raw())
    }

    pub fn powered(&self) -> (r: bool)
        ensures
            r == self.is_powered,
    {
        self.is_powered
    }

    /// Set the raw powered flag, independently of the coarse state.
    pub fn set_powered(&mut self, powered: bool)
        ensures
            *final(self) == (PortStateMachine { is_powered: powered, ..*old(self) }),
    {
        self.is_powered = powered;
    }

    pub fn connected(&self) -> (r: bool)
        ensures
            r == self.is_connected,
    {
        self.is_connected
    }

    /// Set the raw connected flag, independently of the coarse state.
    pub fn set_connected(&mut self, connected: bool)
        ensures
            *final(self) == (PortStateMachine { is_connected: connected, ..*old(self) }),
    {
        self.is_connected = connected;
    }

    pub fn overcurrent(&self) -> (r: bool)
        ensures
            r == self.is_overcurrent,
    {
        self.is_overcurrent
    }

    /// Set the raw overcurrent flag, independently of the coarse state.
    pub fn set_overcurrent(&mut self, overcurrent: bool)
        ensures
            *final(self) == (PortStateMachine { is_overcurrent: overcurrent, ..*old(self) }),
    {
        self.is_overcurrent = overcurrent;
    }

    /// The recorded link state.
    pub fn link_state(&self) -> (r: LinkState)
        ensures
            r == LinkState::from_value_spec(self.link),
    {
        LinkState::from(self.link)
    }

    /// The recorded speed.
    pub fn speed(&self) -> (r: DeviceSpeed)
        ensures
            r == DeviceSpeed::from_value_spec(self.speed_value),
    {
        DeviceSpeed::from(self.speed_value)
    }

    /// The responses the machine has emitted, oldest first.
    pub fn sent_messages(&self) -> (r: &Vec<Message>)
        ensures
            r@ == self.sent@,
    {
        &self.sent
    }
}

/// A power-off response on a powered-off port fails because the machine
/// is terminal; so does every command but power-on.
pub proof fn lemma_port_off_is_absorbing(s: PortState, t: u32, status_value: u32)
    requires
        s is Off,
        is_port_command_spec(t),
        t != 24,
        status_value < 16,
    ensures
        port_respond_result_spec(s, t, status_value) == Result::<(), UsbError>::Err(
            UsbError::InvalidObject,
        ),
{
}

/// A power-on response on an active port fails as an illegal transition.
pub proof fn lemma_port_power_on_while_active(s: PortState, status_value: u32)
    requires
        s is Active,
        status_value < 16,
    ensures
        port_respond_result_spec(s, 24, status_value) == Result::<(), UsbError>::Err(
            UsbError::Failure,
        ),
{
}

} // verus!
