//! The record of one invocation: the calls it dispatched, in order, and
//! whether it ended at a dispatch or returned normally.

use crate::call::{CallingConvention, PendingCall, PendingCallView};
use vstd::prelude::*;

verus! {

/// What one invocation of an entry point dispatched, and how it ended.
///
/// A call dispatched as blocking-async is a suspension point: the invocation
/// ends there, so such a call is the last one of its invocation.
#[derive(Clone, Debug, PartialEq, Eq)]
pub struct Invocation {
    /// The calls dispatched, first to last.
    pub dispatched: Vec<PendingCall>,
    /// Whether the invocation ended at a dispatch. One that did not returns
    /// normally.
    pub suspended: bool,
}

/// The model of an [`Invocation`].
pub struct InvocationView {
    pub dispatched: Seq<PendingCallView>,
    pub suspended: bool,
}

/// The models of the calls in `calls`, in the same order.
pub open spec fn pending_call_views(calls: Seq<PendingCall>) -> Seq<PendingCallView> {
    Seq::new(calls.len(), |i: int| calls[i]@)
}

impl View for Invocation {
    type V = InvocationView;

    open spec fn view(&self) -> InvocationView {
        InvocationView {
            dispatched: pending_call_views(self.dispatched@),
            suspended: self.suspended,
        }
    }
}

impl InvocationView {
    /// The invocation that has dispatched nothing yet.
    pub open spec fn start() -> InvocationView {
        InvocationView { dispatched: Seq::empty(), suspended: false }
    }

    /// The invocation after it has dispatched `call`.
    pub open spec fn after(self, call: PendingCallView) -> InvocationView {
        InvocationView {
            dispatched: self.dispatched.push(call),
            suspended: call.convention == CallingConvention::BlockingAsync,
        }
    }

    /// Every call is well-formed, every call but the last is a promise, and
    /// the invocation is suspended exactly if the last call is
    /// blocking-async.
    pub open spec fn wf(self) -> bool {
        &&& forall|i: int| 0 <= i < self.dispatched.len() ==> (#[trigger] self.dispatched[i]).wf()
        &&& forall|i: int|
            0 <= i < self.dispatched.len() - 1 ==> (#[trigger] self.dispatched[i]).convention
                == CallingConvention::Promise
        &&& self.suspended <==> (self.dispatched.len() > 0 && self.dispatched.last().convention
            == CallingConvention::BlockingAsync)
    }
}

impl Invocation {
    /// Well-formedness: see [`InvocationView::wf`].
    pub open spec fn wf(self) -> bool {
        self@.wf()
    }

    /// The record of an invocation that has dispatched nothing yet.
    pub fn new() -> (inv: Invocation)
        ensures
            inv.wf(),
            inv@ == InvocationView::start(),
    {
        let inv = Invocation { dispatched: Vec::new(), suspended: false };
        assert(inv@.dispatched =~= Seq::empty());
        inv
    }

    /// Records the dispatch of `call`. The invocation must still be running:
    /// no code of an invocation runs after a blocking-async dispatch.
    pub fn dispatch(&mut self, call: PendingCall)
        requires
            old(self).wf(),
            !old(self).suspended,
            call.wf(),
        ensures
            final(self).wf(),
            final(self)@ == old(self)@.after(call@),
    {
        let suspends = match call.convention {
            CallingConvention::BlockingAsync => true,
            CallingConvention::Promise => false,
        };
        self.dispatched.push(call);
        self.suspended = suspends;
        assert(self@.dispatched =~= old(self)@.dispatched.push(call@));
    }
}

/// In a well-formed invocation a blocking-async call is the last call
/// dispatched, and the invocation is suspended: nothing was dispatched after
/// it.
pub proof fn lemma_blocking_async_ends_invocation(inv: InvocationView, i: int)
    requires
        inv.wf(),
        0 <= i < inv.dispatched.len(),
        inv.dispatched[i].convention == CallingConvention::BlockingAsync,
    ensures
        i == inv.dispatched.len() - 1,
        inv.suspended,
{
}

/// An invocation that only registers promises returns normally.
pub proof fn lemma_promises_do_not_suspend(inv: InvocationView)
    requires
        inv.wf(),
        forall|i: int|
            0 <= i < inv.dispatched.len() ==> (#[trigger] inv.dispatched[i]).convention
                == CallingConvention::Promise,
    ensures
        !inv.suspended,
{
}

} // verus!
