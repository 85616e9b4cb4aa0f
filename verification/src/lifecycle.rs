//! The life of a pending call, from its dispatch to the end of its
//! callback.
//!
//! The called program decides whether the call succeeds. Where a callback
//! was registered, the host then delivers the outcome to it, once, and the
//! callback completes or aborts. A call without a callback has no outcome
//! delivered.

use crate::amount::U256;
use crate::error::WorldError;
use crate::payment::TokenId;
use vstd::prelude::*;

verus! {

/// Where a pending call stands.
#[derive(Clone, Copy, Debug, PartialEq, Eq, Structural)]
pub enum CallPhase {
    Dispatched,
    Succeeded,
    Failed,
    CallbackRunning,
    CallbackCompleted,
    CallbackAborted,
}

/// What moves a pending call on.
#[derive(Clone, Copy, Debug, PartialEq, Eq, Structural)]
pub enum CallEvent {
    /// The called program has finished, with or without success.
    Finished { success: bool },
    /// The host delivers the outcome to the callback, which starts to run.
    Delivered,
    /// The callback has ended, normally or by aborting.
    CallbackEnded { aborted: bool },
}

/// How a pending call ended, as far as the program is concerned.
#[derive(Clone, Debug, PartialEq, Eq)]
pub struct Resolution {
    /// The phase in which the call came to rest.
    pub phase: CallPhase,
    /// What the callback returned; `None` for a call without a callback,
    /// whose outcome is delivered to nobody.
    pub returned: Option<Result<(TokenId, U256), WorldError>>,
}

impl CallPhase {
    /// The phase that follows this one on `event`, for a call with or
    /// without a callback; `None` where the event cannot occur.
    pub open spec fn spec_next(self, has_callback: bool, event: CallEvent) -> Option<CallPhase> {
        match (self, event) {
            (CallPhase::Dispatched, CallEvent::Finished { success }) => Some(
                if success {
                    CallPhase::Succeeded
                } else {
                    CallPhase::Failed
                },
            ),
            (CallPhase::Succeeded, CallEvent::Delivered) | (
                CallPhase::Failed,
                CallEvent::Delivered,
            ) => if has_callback {
                Some(CallPhase::CallbackRunning)
            } else {
                None
            },
            (CallPhase::CallbackRunning, CallEvent::CallbackEnded { aborted }) => Some(
                if aborted {
                    CallPhase::CallbackAborted
                } else {
                    CallPhase::CallbackCompleted
                },
            ),
            _ => None,
        }
    }

    /// Whether the callback has ended.
    pub open spec fn is_final(self) -> bool {
        self == CallPhase::CallbackCompleted || self == CallPhase::CallbackAborted
    }

    /// The phase reached from this one by `events`, one after the other;
    /// `None` where one of them cannot occur.
    pub open spec fn run(self, has_callback: bool, events: Seq<CallEvent>) -> Option<CallPhase>
        decreases events.len(),
    {
        if events.len() == 0 {
            Some(self)
        } else {
            match self.spec_next(has_callback, events.first()) {
                Some(phase) => phase.run(has_callback, events.drop_first()),
                None => None,
            }
        }
    }

    /// The phase that follows this one on `event`, for a call with or
    /// without a callback; `None` where the event cannot occur.
    pub fn next(self, has_callback: bool, event: CallEvent) -> (r: Option<CallPhase>)
        ensures
            r == self.spec_next(has_callback, event),
    {
        match self {
            CallPhase::Dispatched => match event {
                CallEvent::Finished { success } => {
                    if success {
                        Some(CallPhase::Succeeded)
                    } else {
                        Some(CallPhase::Failed)
                    }
                },
                _ => None,
            },
            CallPhase::Succeeded | CallPhase::Failed => match event {
                CallEvent::Delivered => {
                    if has_callback {
                        Some(CallPhase::CallbackRunning)
                    } else {
                        None
                    }
                },
                _ => None,
            },
            CallPhase::CallbackRunning => match event {
                CallEvent::CallbackEnded { aborted } => {
                    if aborted {
                        Some(CallPhase::CallbackAborted)
                    } else {
                        Some(CallPhase::CallbackCompleted)
                    }
                },
                _ => None,
            },
            _ => None,
        }
    }
}

/// Nothing moves a call on once its callback has ended.
pub proof fn lemma_final_phase_is_terminal(phase: CallPhase, has_callback: bool, event: CallEvent)
    requires
        phase.is_final(),
    ensures
        phase.spec_next(has_callback, event) is None,
{
}

/// Whatever happens to a dispatched call, its outcome is delivered at most
/// once, and only after the called program has finished: a possible course
/// of events has at most three events, and only the second can be a
/// delivery.
pub proof fn lemma_outcome_delivered_at_most_once(has_callback: bool, events: Seq<CallEvent>)
    requires
        CallPhase::Dispatched.run(has_callback, events) is Some,
    ensures
        events.len() <= 3,
        forall|i: int| 0 <= i < events.len() && events[i] == CallEvent::Delivered ==> i == 1,
{
    reveal_with_fuel(CallPhase::run, 5);
    if events.len() >= 1 {
        let e1 = events.drop_first();
        if e1.len() >= 1 {
            let e2 = e1.drop_first();
            assert(e1.first() == events[1]);
            if e2.len() >= 1 {
                let e3 = e2.drop_first();
                assert(e2.first() == events[2]);
                if e3.len() >= 1 {
                    assert(e3.first() == events[3]);
                }
            }
        }
    }
}

/// A call whose callback has ended had its outcome delivered exactly once:
/// the called program finished, the outcome was delivered, and the callback
/// ended. Such a call has a callback.
pub proof fn lemma_outcome_delivered_exactly_once(has_callback: bool, events: Seq<CallEvent>)
    requires
        CallPhase::Dispatched.run(has_callback, events) matches Some(phase) && phase.is_final(),
    ensures
        has_callback,
        events.len() == 3,
        events[0] is Finished,
        events[1] == CallEvent::Delivered,
        events[2] is CallbackEnded,
{
    reveal_with_fuel(CallPhase::run, 5);
    lemma_outcome_delivered_at_most_once(has_callback, events);
    if events.len() >= 1 {
        let e1 = events.drop_first();
        if e1.len() >= 1 {
            let e2 = e1.drop_first();
            assert(e1.first() == events[1]);
            if e2.len() >= 1 {
                assert(e2.first() == events[2]);
            }
        }
    }
}

/// A call without a callback has no outcome delivered: once the called
/// program has finished, nothing more happens to it.
pub proof fn lemma_no_callback_no_delivery(events: Seq<CallEvent>)
    requires
        CallPhase::Dispatched.run(false, events) is Some,
    ensures
        events.len() <= 1,
        forall|i: int| 0 <= i < events.len() ==> events[i] != CallEvent::Delivered,
{
    reveal_with_fuel(CallPhase::run, 5);
    if events.len() >= 1 {
        let e1 = events.drop_first();
        if e1.len() >= 1 {
            assert(e1.first() == events[1]);
        }
    }
}

} // verus!
