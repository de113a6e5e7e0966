//! The completion bridge: adapts a one-shot native completion callback
//! into a single-resolution suspension point. One bridge instance stands
//! for one native call. The first poll asks the caller to register the
//! native callback; later polls stay pending until the callback has fired;
//! once it has, every poll resolves to the recorded outcome and nothing
//! changes it again. The surrounding event loop performs the registration
//! and reports the callback by calling `complete` exactly once.

use vstd::prelude::*;
use crate::errors::UsbError;

verus! {

/// The outcome a native call reports: success, or a failure carrying its
/// error.
#[derive(Clone, Copy, PartialEq, Eq, Structural, Debug)]
pub enum Status {
    Success,
    Failed(UsbError),
}

impl Status {
    /// The kernel return code this outcome encodes to: zero for success,
    /// the failure's own code otherwise.
    pub open spec fn code_spec(self) -> i32 {
        match self {
            Status::Success => 0,
            Status::Failed(e) => e.code_spec(),
        }
    }

    /// The kernel return code this outcome encodes to.
    pub fn kern_return(&self) -> (r: i32)
        ensures
            r == self.code_spec(),
    {
        match self {
            Status::Success => 0,
            Status::Failed(e) => e.kern_return(),
        }
    }
}

/// What a poll of the bridge asks of its caller: register the one-shot
/// native callback and suspend, keep waiting, or resume with the recorded
/// outcome.
#[derive(Clone, Copy, PartialEq, Eq, Structural, Debug)]
pub enum BridgePoll {
    Register,
    Pending,
    Ready(Status),
}

/// The bridge's state: whether the native callback has been registered,
/// whether it has fired, whether a poll has observed the completion, and
/// the recorded outcome (meaningful once completed).
#[derive(Clone, Copy, PartialEq, Eq, Structural, Debug)]
pub struct AsyncCompletionBridge {
    pub registered: bool,
    pub completed: bool,
    pub resolved: bool,
    pub outcome: Status,
}

/// A bridge that has never been polled or completed.
pub open spec fn fresh_bridge_spec() -> AsyncCompletionBridge {
    AsyncCompletionBridge {
        registered: false,
        completed: false,
        resolved: false,
        outcome: Status::Success,
    }
}

/// What a poll returns: the recorded outcome once the callback has fired,
/// a registration request on the very first poll, and pending otherwise.
pub open spec fn poll_action_spec(b: AsyncCompletionBridge) -> BridgePoll {
    if b.completed {
        BridgePoll::Ready(b.outcome)
    } else if !b.registered {
        BridgePoll::Register
    } else {
        BridgePoll::Pending
    }
}

/// The state after a poll: the first poll registers, a poll that observes
/// the completion resolves, and nothing else changes.
pub open spec fn poll_next_spec(b: AsyncCompletionBridge) -> AsyncCompletionBridge {
    if b.completed {
        AsyncCompletionBridge { resolved: true, ..b }
    } else {
        AsyncCompletionBridge { registered: true, ..b }
    }
}

/// The outcome of reporting the native callback: at most one completion
/// is accepted; a second report is a misuse of the one-shot contract.
pub open spec fn complete_result_spec(b: AsyncCompletionBridge) -> Result<(), UsbError> {
    if b.completed {
        Result::Err(UsbError::AlreadyInSet)
    } else {
        Result::Ok(())
    }
}

/// The state after a successful completion report: the outcome is
/// recorded and the bridge is completed.
pub open spec fn complete_next_spec(b: AsyncCompletionBridge, status: Status)
    -> AsyncCompletionBridge {
    if b.completed {
        b
    } else {
        AsyncCompletionBridge { completed: true, outcome: status, ..b }
    }
}

impl AsyncCompletionBridge {
    /// A bridge for one native call: unregistered, uncompleted,
    /// unresolved.
    pub fn new() -> (r: AsyncCompletionBridge)
        ensures
            r == fresh_bridge_spec(),
    {
        AsyncCompletionBridge {
            registered: false,
            completed: false,
            resolved: false,
            outcome: Status::Success,
        }
    }

    /// Poll the bridge: the first poll asks the caller to register the
    /// native callback, later polls stay pending until the callback has
    /// fired, and every poll after that resolves to the recorded outcome.
    pub fn poll(&mut self) -> (r: BridgePoll)
        ensures
            r == poll_action_spec(*old(self)),
            *final(self) == poll_next_spec(*old(self)),
    {
        if self.completed {
            self.resolved = true;
            BridgePoll::Ready(self.outcome)
        } else if !self.registered {
            self.registered = true;
            BridgePoll::Register
        } else {
            BridgePoll::Pending
        }
    }

    /// Report the native callback's outcome. The callback fires exactly
    /// once; a second report is refused without mutating anything.
    pub fn complete(&mut self, status: Status) -> (r: Result<(), UsbError>)
        ensures
            r == complete_result_spec(*old(self)),
            *final(self) == complete_next_spec(*old(self), status),
    {
        if self.completed {
            return Result::Err(UsbError::AlreadyInSet);
        }
        self.completed = true;
        self.outcome = status;
        Result::Ok(())
    }

    /// Whether a poll has observed the completion.
    pub fn is_resolved(&self) -> (r: bool)
        ensures
            r == self.resolved,
    {
        self.resolved
    }
}

/// A bridge that additionally owns the byte buffer handed to the native
/// call, keeping it alive until the completion is observed.
pub struct AsyncDataCompletionBridge {
    pub bridge: AsyncCompletionBridge,
    pub buffer: Vec<u8>,
}

impl AsyncDataCompletionBridge {
    /// A bridge owning the given buffer for the duration of one native
    /// call.
    pub fn new(buffer: Vec<u8>) -> (r: AsyncDataCompletionBridge)
        ensures
            r.bridge == fresh_bridge_spec(),
            r.buffer@ == buffer@,
    {
        AsyncDataCompletionBridge { bridge: AsyncCompletionBridge::new(), buffer }
    }

    /// Poll, as the plain bridge does; the buffer is untouched.
    pub fn poll(&mut self) -> (r: BridgePoll)
        ensures
            r == poll_action_spec(old(self).bridge),
            final(self).bridge == poll_next_spec(old(self).bridge),
            final(self).buffer@ == old(self).buffer@,
    {
        self.bridge.poll()
    }

    /// Report the native callback's outcome, as the plain bridge does;
    /// the buffer is untouched.
    pub fn complete(&mut self, status: Status) -> (r: Result<(), UsbError>)
        ensures
            r == complete_result_spec(old(self).bridge),
            final(self).bridge == complete_next_spec(old(self).bridge, status),
            final(self).buffer@ == old(self).buffer@,
    {
        self.bridge.complete(status)
    }

    /// Release the buffer once the bridge has resolved: the native call
    /// no longer references it.
    pub fn take_buffer(self) -> (r: Vec<u8>)
        requires
            self.bridge.resolved,
        ensures
            r@ == self.buffer@,
    {
        self.buffer
    }
}

/// The single-resolution law of the bridge. A fresh bridge's first poll
/// registers the callback and suspends; a second poll before the callback
/// fires is still pending and registers nothing further; the callback's
/// report is accepted; the next poll resolves with the reported outcome;
/// and after that neither further polls nor a second report change the
/// outcome or the state it is read from.
pub proof fn lemma_bridge_single_resolution(status: Status)
    ensures
        ({
            let b0 = fresh_bridge_spec();
            let b1 = poll_next_spec(b0);
            let b2 = poll_next_spec(b1);
            let b3 = complete_next_spec(b2, status);
            let b4 = poll_next_spec(b3);
            let b5 = poll_next_spec(b4);
            &&& poll_action_spec(b0) == BridgePoll::Register
            &&& poll_action_spec(b1) == BridgePoll::Pending
            &&& poll_action_spec(b2) == BridgePoll::Pending
            &&& complete_result_spec(b2) is Ok
            &&& poll_action_spec(b3) == BridgePoll::Ready(status)
            &&& b4.resolved
            &&& poll_action_spec(b4) == BridgePoll::Ready(status)
            &&& b5 == b4
            &&& complete_result_spec(b4) is Err
            &&& complete_next_spec(b4, Status::Success) == b4
        }),
{
}

/// Once completed, a bridge resolves to the same outcome under every
/// further poll, and no further completion report is accepted or changes
/// anything: the bridge resolves at most once.
pub proof fn lemma_bridge_resolution_is_stable(b: AsyncCompletionBridge, status: Status)
    requires
        b.completed,
    ensures
        poll_action_spec(b) == BridgePoll::Ready(b.outcome),
        poll_next_spec(b).outcome == b.outcome,
        poll_next_spec(b).completed,
        complete_result_spec(b) is Err,
        complete_next_spec(b, status) == b,
{
}

} // verus!
