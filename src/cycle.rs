use vstd::prelude::*;

use crate::error::{check_ack, MotorError};
use crate::frame::{command_frame, frame_of};
use crate::request::ActuationRequest;

verus! {

/// Where an actuation cycle stands.
#[derive(Clone, Copy, Debug, PartialEq, Eq, Structural)]
pub enum Phase {
    /// The next request's frame is to be written to the bus.
    Sending,
    /// A frame was written; the controller's status byte is to be read.
    AwaitingAck,
    /// Every request was accepted.
    Finished,
    /// The controller answered with this non-zero status; nothing more is sent.
    DeviceError(u8),
    /// The bus failed; nothing more is sent.
    BusFault,
}

/// The state of a cycle: its requests, how many were accepted, and the phase.
pub struct CycleView {
    pub requests: Seq<ActuationRequest>,
    pub next: int,
    pub phase: Phase,
}

/// A phase in which the cycle still works with the bus.
pub open spec fn is_active(p: Phase) -> bool {
    p == Phase::Sending || p == Phase::AwaitingAck
}

/// The consistency of a cycle: the accepted requests are a prefix of the requests, an active
/// cycle has a request in hand, and a finished one accepted all of them.
pub open spec fn cycle_wf(v: CycleView) -> bool {
    &&& 0 <= v.next <= v.requests.len()
    &&& is_active(v.phase) ==> v.next < v.requests.len()
    &&& v.phase == Phase::Finished ==> v.next == v.requests.len()
}

/// A cycle that has sent nothing yet.
pub open spec fn cycle_start(requests: Seq<ActuationRequest>) -> CycleView {
    CycleView {
        requests,
        next: 0,
        phase: if requests.len() == 0 {
            Phase::Finished
        } else {
            Phase::Sending
        },
    }
}

/// The request whose frame is to be written now, if any.
pub open spec fn pending_of(v: CycleView) -> Option<ActuationRequest> {
    if v.phase == Phase::Sending {
        Some(v.requests[v.next])
    } else {
        None
    }
}

/// The cycle after the pending frame was written.
pub open spec fn after_written(v: CycleView) -> CycleView {
    if v.phase == Phase::Sending {
        CycleView { phase: Phase::AwaitingAck, ..v }
    } else {
        v
    }
}

/// The cycle after the controller answered with `code`: 0 moves on to the next request or
/// finishes, anything else stops the cycle with a device error.
pub open spec fn after_ack(v: CycleView, code: u8) -> CycleView {
    if v.phase == Phase::AwaitingAck {
        if code == 0 {
            CycleView {
                next: v.next + 1,
                phase: if v.next + 1 == v.requests.len() {
                    Phase::Finished
                } else {
                    Phase::Sending
                },
                ..v
            }
        } else {
            CycleView { phase: Phase::DeviceError(code), ..v }
        }
    } else {
        v
    }
}

/// The cycle after the bus failed while it was active.
pub open spec fn after_fault(v: CycleView) -> CycleView {
    if is_active(v.phase) {
        CycleView { phase: Phase::BusFault, ..v }
    } else {
        v
    }
}

/// One actuation cycle: its requests are sent one at a time, each written and then
/// acknowledged before the next, and the first failure ends it.
pub struct ActuationCycle {
    requests: Vec<ActuationRequest>,
    next: usize,
    phase: Phase,
}

impl View for ActuationCycle {
    type V = CycleView;

    closed spec fn view(&self) -> CycleView {
        CycleView { requests: self.requests@, next: self.next as int, phase: self.phase }
    }
}

impl ActuationCycle {
    /// The consistency that every method keeps.
    pub open spec fn wf(&self) -> bool {
        cycle_wf(self@)
    }

    /// A cycle that will send `requests` in their order.
    pub fn new(requests: Vec<ActuationRequest>) -> (r: ActuationCycle)
        ensures
            r@ == cycle_start(requests@),
            r.wf(),
    {
        let phase = if requests.len() == 0 {
            Phase::Finished
        } else {
            Phase::Sending
        };
        ActuationCycle { requests, next: 0, phase }
    }

    /// Where the cycle stands.
    pub fn phase(&self) -> (r: Phase)
        ensures
            r == self@.phase,
    {
        self.phase
    }

    /// How many requests the controller has accepted so far.
    pub fn accepted(&self) -> (r: usize)
        ensures
            r as int == self@.next,
    {
        self.next
    }

    /// The bytes to write to the bus now, if the cycle is waiting to send.
    pub fn pending_frame(&self) -> (r: Option<Vec<u8>>)
        requires
            self.wf(),
        ensures
            match pending_of(self@) {
                Some(q) => r is Some && r->0@ == frame_of(q.motor, q.direction, q.magnitude),
                None => r is None,
            },
    {
        if self.phase == Phase::Sending {
            let q = self.requests[self.next];
            Some(command_frame(q.motor, q.direction, q.magnitude))
        } else {
            None
        }
    }

    /// Records that the pending frame was written.
    pub fn on_written(&mut self)
        requires
            old(self).wf(),
        ensures
            final(self)@ == after_written(old(self)@),
            final(self).wf(),
    {
        if self.phase == Phase::Sending {
            self.phase = Phase::AwaitingAck;
        }
    }

    /// Records the controller's status byte, and says what it means: acceptance, or an
    /// unknown device error with that code.
    pub fn on_ack(&mut self, code: u8) -> (r: Result<(), MotorError>)
        requires
            old(self).wf(),
        ensures
            final(self)@ == after_ack(old(self)@, code),
            final(self).wf(),
            code == 0 <==> r is Ok,
            code != 0 ==> (match r {
                Err(MotorError::UnknownMotorError(c)) => c == code,
                _ => false,
            }),
    {
        if self.phase == Phase::AwaitingAck {
            if code == 0 {
                assert(self.next < self.requests.len());
                self.next = self.next + 1;
                if self.next == self.requests.len() {
                    self.phase = Phase::Finished;
                } else {
                    self.phase = Phase::Sending;
                }
            } else {
                self.phase = Phase::DeviceError(code);
            }
        }
        check_ack(code)
    }

    /// Records that the bus failed.
    pub fn on_bus_fault(&mut self)
        requires
            old(self).wf(),
        ensures
            final(self)@ == after_fault(old(self)@),
            final(self).wf(),
    {
        if self.phase == Phase::Sending || self.phase == Phase::AwaitingAck {
            self.phase = Phase::BusFault;
        }
    }
}

/// A non-zero status byte ends the cycle: nothing is pending, and no later event sends
/// anything more.
pub proof fn lemma_device_error_ends_cycle(v: CycleView, code: u8, later: u8)
    requires
        cycle_wf(v),
        v.phase == Phase::AwaitingAck,
        code != 0,
    ensures
        after_ack(v, code).phase == Phase::DeviceError(code),
        pending_of(after_ack(v, code)) is None,
        after_written(after_ack(v, code)) == after_ack(v, code),
        after_ack(after_ack(v, code), later) == after_ack(v, code),
        after_fault(after_ack(v, code)) == after_ack(v, code),
{
}

/// While the controller accepts, the cycle sends its requests in their order: after `k`
/// accepted requests the pending one is the `k`-th.
pub proof fn lemma_accepts_advance_in_order(v: CycleView)
    requires
        cycle_wf(v),
        v.phase == Phase::Sending,
    ensures
        pending_of(v) == Some(v.requests[v.next]),
        after_ack(after_written(v), 0).next == v.next + 1,
        v.next + 1 < v.requests.len() ==> pending_of(after_ack(after_written(v), 0)) == Some(
            v.requests[v.next + 1],
        ),
        v.next + 1 == v.requests.len() ==> after_ack(after_written(v), 0).phase
            == Phase::Finished,
{
}

} // verus!
