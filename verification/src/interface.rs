//! The controller interface: the sole owner of the channel resource. It
//! holds the controller machine and the per-port machines, routes commands
//! to the port they address, answers capability queries, and queues
//! outbound interrupt messages up to a fixed capacity.

use vstd::prelude::*;
use crate::controller::controller_respond_result_spec;
use crate::controller::ControllerStateMachine;
use crate::errors::UsbError;
use crate::message::Message;
use crate::message::MSG_CONTROLLER_CAPABILITIES;
use crate::message::MSG_PORT_CAPABILITIES;
use crate::port::port_respond_result_spec;
use crate::port::PortStateMachine;
use crate::types::DeviceSpeed;
use crate::types::LinkState;
use crate::types::MessageStatus;

verus! {

/// The number of interrupt messages an enqueue call asks for.
pub open spec fn enqueue_count_spec(count: Option<u64>) -> u64 {
    match count {
        Option::Some(k) => k,
        Option::None => 1,
    }
}

/// Whether a message type is routed to a port machine: the port commands
/// and the port event interrupt.
pub open spec fn routes_to_port_spec(t: u32) -> bool {
    24 <= t <= 30 || t == 8
}

/// The controller interface: the controller machine, one machine per root
/// port, the pending outbound interrupt queue with its capacity, and the
/// interrupt rate setting.
pub struct ControllerInterface {
    pub csm: ControllerStateMachine,
    pub ports: Vec<PortStateMachine>,
    pub interrupts: Vec<Message>,
    pub capacity: usize,
    pub interrupt_rate: u64,
}

impl ControllerInterface {
    /// The interface's invariant: at most fifteen root ports (the port
    /// field of a command is four bits), every machine well formed, and
    /// the queue within its capacity.
    pub open spec fn wf(self) -> bool {
        &&& self.csm.wf()
        &&& self.ports.len() <= 15
        &&& forall|i: int| 0 <= i < self.ports.len() ==> self.ports@[i].wf()
        &&& self.interrupts.len() <= self.capacity
    }

    /// An interface for a controller with `port_count` root ports and an
    /// interrupt queue of the given capacity.
    pub fn new(port_count: usize, capacity: usize) -> (r: ControllerInterface)
        requires
            port_count <= 15,
        ensures
            r.wf(),
            r.csm.state is Off,
            r.ports@.len() == port_count,
            forall|i: int| 0 <= i < port_count ==> r.ports@[i].state is Off,
            r.interrupts@ =~= Seq::<Message>::empty(),
            r.capacity == capacity,
            r.interrupt_rate == 0,
    {
        let mut ports: Vec<PortStateMachine> = Vec::new();
        let mut i: usize = 0;
        while i < port_count
            invariant
                0 <= i <= port_count,
                port_count <= 15,
                ports@.len() == i,
                forall|j: int| 0 <= j < i ==> ports@[j].wf() && ports@[j].state is Off,
            decreases port_count - i,
        {
            ports.push(PortStateMachine::new());
            i = i + 1;
        }
        ControllerInterface {
            csm: ControllerStateMachine::new(),
            ports,
            interrupts: Vec::new(),
            capacity,
            interrupt_rate: 0,
        }
    }

    /// Queue `count` copies (one, if no count is given) of an interrupt
    /// message for delivery. An expedited enqueue goes to the front of the
    /// queue, an ordinary one to the back. Asking for no messages is an
    /// error, and the queue never exceeds its capacity; a failed call
    /// mutates nothing.
    pub fn enqueue_interrupts(
        &mut self,
        msg: &Message,
        expedited: Option<bool>,
        count: Option<u64>,
    ) -> (r: Result<(), UsbError>)
        requires
            old(self).wf(),
        ensures
            final(self).wf(),
            final(self).csm == old(self).csm,
            final(self).ports == old(self).ports,
            final(self).capacity == old(self).capacity,
            final(self).interrupt_rate == old(self).interrupt_rate,
            enqueue_count_spec(count) == 0 ==> r == Result::<(), UsbError>::Err(
                UsbError::InvalidArgument,
            ),
            enqueue_count_spec(count) > 0 && enqueue_count_spec(count) > old(self).capacity - old(
                self,
            ).interrupts@.len() ==> r == Result::<(), UsbError>::Err(UsbError::ResourceShortage),
            r is Err ==> final(self).interrupts == old(self).interrupts,
            r is Ok <==> 0 < enqueue_count_spec(count) <= old(self).capacity - old(
                self,
            ).interrupts@.len(),
            r is Ok ==> {
                &&& expedited == Option::Some(true) ==> final(self).interrupts@ =~= Seq::new(
                    enqueue_count_spec(count) as nat,
                    |i: int| *msg,
                ) + old(self).interrupts@
                &&& expedited != Option::Some(true) ==> final(self).interrupts@ =~= old(
                    self,
                ).interrupts@ + Seq::new(enqueue_count_spec(count) as nat, |i: int| *msg)
            },
    {
        let k: u64 = match count {
            Option::Some(k) => k,
            Option::None => 1,
        };
        if k == 0 {
            return Result::Err(UsbError::InvalidArgument);
        }
        let room: usize = self.capacity - self.interrupts.len();
        if k > room as u64 {
            return Result::Err(UsbError::ResourceShortage);
        }
        let k: usize = k as usize;
        let front = match expedited {
            Option::Some(true) => true,
            _ => false,
        };
        if front {
            let mut queue: Vec<Message> = Vec::new();
            let mut i: usize = 0;
            while i < k
                invariant
                    0 <= i <= k,
                    queue@.len() == i,
                    forall|j: int| 0 <= j < i ==> queue@[j] == *msg,
                decreases k - i,
            {
                queue.push(*msg);
                i = i + 1;
            }
            let mut j: usize = 0;
            let n = self.interrupts.len();
            while j < n
                invariant
                    0 <= j <= n,
                    n == self.interrupts@.len(),
                    queue@.len() == k + j,
                    forall|p: int| 0 <= p < k ==> queue@[p] == *msg,
                    forall|p: int| 0 <= p < j ==> queue@[k + p] == self.interrupts@[p],
                decreases n - j,
            {
                queue.push(self.interrupts[j]);
                j = j + 1;
            }
            proof {
                assert(queue@ =~= Seq::new(k as nat, |i: int| *msg) + self.interrupts@);
            }
            self.interrupts = queue;
        } else {
            let mut i: usize = 0;
            let ghost before = self.interrupts@;
            while i < k
                invariant
                    0 <= i <= k,
                    self.csm == old(self).csm,
                    self.ports == old(self).ports,
                    self.capacity == old(self).capacity,
                    self.interrupt_rate == old(self).interrupt_rate,
                    before == old(self).interrupts@,
                    before.len() + k <= self.capacity,
                    self.interrupts@.len() == before.len() + i,
                    forall|p: int| 0 <= p < before.len() ==> self.interrupts@[p] == before[p],
                    forall|p: int|
                        before.len() <= p < self.interrupts@.len() ==> self.interrupts@[p] == *msg,
                decreases k - i,
            {
                self.interrupts.push(*msg);
                i = i + 1;
            }
            proof {
                assert(self.interrupts@ =~= before + Seq::new(k as nat, |i: int| *msg));
            }
        }
        Result::Ok(())
    }

    /// Deliver the oldest pending interrupt, if any.
    pub fn next_interrupt(&mut self) -> (r: Option<Message>)
        requires
            old(self).wf(),
        ensures
            final(self).wf(),
            final(self).csm == old(self).csm,
            final(self).ports == old(self).ports,
            final(self).capacity == old(self).capacity,
            final(self).interrupt_rate == old(self).interrupt_rate,
            old(self).interrupts@.len() == 0 ==> r is None && final(self).interrupts == old(
                self,
            ).interrupts,
            old(self).interrupts@.len() > 0 ==> r == Option::Some(old(self).interrupts@[0])
                && final(self).interrupts@ =~= old(self).interrupts@.skip(1),
    {
        if self.interrupts.len() == 0 {
            return Option::None;
        }
        let m = self.interrupts.remove(0);
        Option::Some(m)
    }

    /// The pending interrupt queue, oldest first.
    pub fn pending_interrupts(&self) -> (r: &Vec<Message>)
        ensures
            r@ == self.interrupts@,
    {
        &self.interrupts
    }

    /// The index of the port machine a command addresses: the command
    /// must be a port command or port event, and its root-port field must
    /// name an existing port.
    pub fn port_state_machine_for_command(&self, cmd: &Message) -> (r: Result<usize, UsbError>)
        ensures
            !routes_to_port_spec(cmd.message_type_spec()) ==> r == Result::<usize, UsbError>::Err(
                UsbError::InvalidArgument,
            ),
            routes_to_port_spec(cmd.message_type_spec()) && crate::message::data0_root_port_spec(
                cmd.data0_spec(),
            ) >= self.ports@.len() ==> r == Result::<usize, UsbError>::Err(UsbError::InvalidValue),
            routes_to_port_spec(cmd.message_type_spec()) && crate::message::data0_root_port_spec(
                cmd.data0_spec(),
            ) < self.ports@.len() ==> r == Result::<usize, UsbError>::Ok(
                crate::message::data0_root_port_spec(cmd.data0_spec()) as usize,
            ),
    {
        let t = cmd.message_type();
        if !((24 <= t && t <= 30) || t == 8) {
            return Result::Err(UsbError::InvalidArgument);
        }
        let port = cmd.root_port() as usize;
        if port >= self.ports.len() {
            return Result::Err(UsbError::InvalidValue);
        }
        Result::Ok(port)
    }

    /// The index of the machine for the given root port.
    pub fn port_state_machine_for_port(&self, port: u64) -> (r: Result<usize, UsbError>)
        ensures
            port >= self.ports@.len() ==> r == Result::<usize, UsbError>::Err(
                UsbError::InvalidValue,
            ),
            port < self.ports@.len() ==> r == Result::<usize, UsbError>::Ok(port as usize),
    {
        if port >= self.ports.len() as u64 {
            return Result::Err(UsbError::InvalidValue);
        }
        Result::Ok(port as usize)
    }

    /// The machine of one root port.
    pub fn port(&self, index: usize) -> (r: Option<&PortStateMachine>)
        ensures
            index < self.ports@.len() ==> r == Option::Some(&self.ports@[index as int]),
            index >= self.ports@.len() ==> r is None,
    {
        if index < self.ports.len() {
            Option::Some(&self.ports[index])
        } else {
            Option::None
        }
    }

    /// Apply a command response on the port machine at `index`, as the
    /// port's own `respond` does.
    pub fn port_respond(&mut self, index: usize, cmd: &Message, status: MessageStatus) -> (r:
        Result<(), UsbError>)
        requires
            old(self).wf(),
            index < old(self).ports@.len(),
        ensures
            final(self).wf(),
            final(self).csm == old(self).csm,
            final(self).interrupts == old(self).interrupts,
            final(self).capacity == old(self).capacity,
            final(self).interrupt_rate == old(self).interrupt_rate,
            final(self).ports@.len() == old(self).ports@.len(),
            forall|j: int|
                0 <= j < old(self).ports@.len() && j != index ==> final(self).ports@[j] == old(
                    self,
                ).ports@[j],
            r == port_respond_result_spec(
                old(self).ports@[index as int].state,
                cmd.message_type_spec(),
                status.value_spec(),
            ),
            r is Err ==> final(self).ports@[index as int] == old(self).ports@[index as int],
            r is Ok ==> final(self).ports@[index as int].state == (if status.value_spec() == 1 {
                crate::port::port_next_state_spec(
                    old(self).ports@[index as int].state,
                    cmd.message_type_spec(),
                )
            } else {
                old(self).ports@[index as int].state
            }),
            r is Ok ==> final(self).ports@[index as int].sent@.len() == old(
                self,
            ).ports@[index as int].sent@.len() + 1,
    {
        let mut pm = self.ports.remove(index);
        let r = pm.respond(cmd, status);
        self.ports.insert(index, pm);
        proof {
            assert(final(self).ports@ =~= old(self).ports@.update(index as int, pm));
        }
        r
    }

    /// Record a link-state change on the port machine at `index`, as the
    /// port's own `update_link_state` does.
    pub fn port_update_link_state(
        &mut self,
        index: usize,
        link_state: LinkState,
        speed: DeviceSpeed,
        inhibit_link_state_change: bool,
    ) -> (r: Result<(), UsbError>)
        requires
            old(self).wf(),
            index < old(self).ports@.len(),
        ensures
            final(self).wf(),
            final(self).csm == old(self).csm,
            final(self).interrupts == old(self).interrupts,
            final(self).capacity == old(self).capacity,
            final(self).interrupt_rate == old(self).interrupt_rate,
            final(self).ports@.len() == old(self).ports@.len(),
            forall|j: int|
                0 <= j < old(self).ports@.len() && j != index ==> final(self).ports@[j] == old(
                    self,
                ).ports@[j],
            r == crate::port::port_update_link_result_spec(
                old(self).ports@[index as int].state,
                link_state.value_spec(),
                speed.value_spec(),
            ),
            r is Err ==> final(self).ports@[index as int] == old(self).ports@[index as int],
            r is Ok ==> final(self).ports@[index as int].link == link_state.value_spec()
                && final(self).ports@[index as int].speed_value == speed.value_spec(),
            r is Ok ==> final(self).ports@[index as int].state == (if inhibit_link_state_change {
                old(self).ports@[index as int].state
            } else {
                crate::port::port_link_recompute_spec(
                    old(self).ports@[index as int].state,
                    link_state.value_spec(),
                )
            }),
    {
        let mut pm = self.ports.remove(index);
        let r = pm.update_link_state(link_state, speed, inhibit_link_state_change);
        self.ports.insert(index, pm);
        proof {
            assert(final(self).ports@ =~= old(self).ports@.update(index as int, pm));
        }
        r
    }

    /// Apply a command response on the controller machine, as its own
    /// `respond` does.
    pub fn controller_respond(
        &mut self,
        cmd: &Message,
        status: MessageStatus,
        frame_timestamp: Option<(u64, u64)>,
    ) -> (r: Result<(), UsbError>)
        requires
            old(self).wf(),
        ensures
            final(self).wf(),
            final(self).ports == old(self).ports,
            final(self).interrupts == old(self).interrupts,
            final(self).capacity == old(self).capacity,
            final(self).interrupt_rate == old(self).interrupt_rate,
            r == controller_respond_result_spec(
                old(self).csm.state,
                cmd.message_type_spec(),
                status.value_spec(),
                frame_timestamp,
            ),
            r is Err ==> final(self).csm == old(self).csm,
            r is Ok ==> final(self).csm.state == (if status.value_spec() == 1 {
                crate::controller::controller_next_state_spec(
                    old(self).csm.state,
                    cmd.message_type_spec(),
                )
            } else {
                old(self).csm.state
            }),
    {
        self.csm.respond(cmd, status, frame_timestamp)
    }

    /// The controller machine.
    pub fn controller_state_machine(&self) -> (r: &ControllerStateMachine)
        ensures
            r == &self.csm,
    {
        &self.csm
    }

    /// The capability message describing one root port, or `None` for a
    /// port the controller does not have.
    pub fn port_capabilities(&self, port: u64) -> (r: Option<Message>)
        ensures
            port < self.ports@.len() ==> r == Option::Some(
                (Message { control: MSG_PORT_CAPABILITIES, data0: port as u32, data1: 0 }),
            ),
            port >= self.ports@.len() ==> r is None,
    {
        if port < self.ports.len() as u64 {
            Option::Some(Message::new(MSG_PORT_CAPABILITIES, port as u32, 0))
        } else {
            Option::None
        }
    }

    /// The capability message describing the controller: its port count
    /// in `data0`.
    pub fn capabilities(&self) -> (r: Option<Message>)
        ensures
            r == Option::Some(
                (Message {
                    control: MSG_CONTROLLER_CAPABILITIES,
                    data0: self.ports@.len() as u32,
                    data1: 0,
                }),
            ),
    {
        Option::Some(Message::new(MSG_CONTROLLER_CAPABILITIES, self.ports.len() as u32, 0))
    }

    /// The configured interrupt delivery rate.
    pub fn interupt_rate_hz(&self) -> (r: u64)
        ensures
            r == self.interrupt_rate,
    {
        self.interrupt_rate
    }

    /// Configure the interrupt delivery rate.
    pub fn set_interrupt_rate_hz(&mut self, rate: u64)
        ensures
            *final(self) == (ControllerInterface { interrupt_rate: rate, ..*old(self) }),
    {
        self.interrupt_rate = rate;
    }
}

} // verus!
