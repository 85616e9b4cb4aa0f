//! Outbound calls to the system token program: what is sent, under which
//! calling convention, and which callback entry point the host resumes the
//! program at when the call has completed.

use crate::address::Address;
use crate::amount::U256;
use crate::payment::{TokenId, TokenPayment};
use crate::system::TokenProperties;
use vstd::prelude::*;

verus! {

/// The gas budget of every call dispatched as a promise.
pub const PROMISE_GAS_LIMIT: u64 = 50_000_000;

/// How an outbound call is dispatched.
#[derive(Clone, Copy, Debug, PartialEq, Eq, Structural)]
pub enum CallingConvention {
    /// The invocation ends at the dispatch. The host resumes the program
    /// later, afresh, at the callback entry point, if one was registered.
    BlockingAsync,
    /// The invocation goes on after the dispatch and returns normally. The
    /// callback entry point, if one was registered, runs later as an
    /// invocation of its own.
    Promise,
}

/// What a callback does with the outcome that it is handed.
#[derive(Clone, Copy, Debug, PartialEq, Eq, Structural)]
pub enum CallbackKind {
    /// It hands on the token that a successful call issued.
    Succeeding,
    /// It aborts, whatever the outcome.
    Failing,
}

/// A callback entry point of the program: reached only when the host resumes
/// the program after an outbound call. There is one for each calling
/// convention and each kind of callback.
#[derive(Clone, Copy, Debug, PartialEq, Eq, Structural)]
pub enum EntryPoint {
    SucceedingCallbackV1,
    SucceedingCallbackV2,
    FailingCallbackV1,
    FailingCallbackV2,
}

impl EntryPoint {
    /// The convention of the calls that resume at this entry point.
    pub open spec fn spec_convention(self) -> CallingConvention {
        match self {
            EntryPoint::SucceedingCallbackV1 => CallingConvention::BlockingAsync,
            EntryPoint::FailingCallbackV1 => CallingConvention::BlockingAsync,
            EntryPoint::SucceedingCallbackV2 => CallingConvention::Promise,
            EntryPoint::FailingCallbackV2 => CallingConvention::Promise,
        }
    }

    /// What the callback at this entry point does.
    pub open spec fn spec_kind(self) -> CallbackKind {
        match self {
            EntryPoint::SucceedingCallbackV1 => CallbackKind::Succeeding,
            EntryPoint::SucceedingCallbackV2 => CallbackKind::Succeeding,
            EntryPoint::FailingCallbackV1 => CallbackKind::Failing,
            EntryPoint::FailingCallbackV2 => CallbackKind::Failing,
        }
    }

    /// The entry point of the callback of kind `kind` for calls dispatched
    /// under `convention`.
    pub open spec fn spec_of(convention: CallingConvention, kind: CallbackKind) -> EntryPoint {
        match (convention, kind) {
            (CallingConvention::BlockingAsync, CallbackKind::Succeeding) => {
                EntryPoint::SucceedingCallbackV1
            },
            (CallingConvention::BlockingAsync, CallbackKind::Failing) => {
                EntryPoint::FailingCallbackV1
            },
            (CallingConvention::Promise, CallbackKind::Succeeding) => {
                EntryPoint::SucceedingCallbackV2
            },
            (CallingConvention::Promise, CallbackKind::Failing) => EntryPoint::FailingCallbackV2,
        }
    }

    /// The name under which the host knows the entry point.
    pub open spec fn spec_name(self) -> Seq<char> {
        match self {
            EntryPoint::SucceedingCallbackV1 => "succeeding_callback_v1"@,
            EntryPoint::SucceedingCallbackV2 => "succeeding_callback_v2"@,
            EntryPoint::FailingCallbackV1 => "failing_callback_v1"@,
            EntryPoint::FailingCallbackV2 => "failing_callback_v2"@,
        }
    }

    /// The convention of the calls that resume at this entry point.
    pub fn convention(&self) -> (c: CallingConvention)
        ensures
            c == self.spec_convention(),
    {
        match self {
            EntryPoint::SucceedingCallbackV1 => CallingConvention::BlockingAsync,
            EntryPoint::FailingCallbackV1 => CallingConvention::BlockingAsync,
            EntryPoint::SucceedingCallbackV2 => CallingConvention::Promise,
            EntryPoint::FailingCallbackV2 => CallingConvention::Promise,
        }
    }

    /// What the callback at this entry point does.
    pub fn kind(&self) -> (k: CallbackKind)
        ensures
            k == self.spec_kind(),
    {
        match self {
            EntryPoint::SucceedingCallbackV1 => CallbackKind::Succeeding,
            EntryPoint::SucceedingCallbackV2 => CallbackKind::Succeeding,
            EntryPoint::FailingCallbackV1 => CallbackKind::Failing,
            EntryPoint::FailingCallbackV2 => CallbackKind::Failing,
        }
    }

    /// The entry point of the callback of kind `kind` for calls dispatched
    /// under `convention`.
    pub fn of(convention: CallingConvention, kind: CallbackKind) -> (e: EntryPoint)
        ensures
            e == EntryPoint::spec_of(convention, kind),
    {
        match convention {
            CallingConvention::BlockingAsync => match kind {
                CallbackKind::Succeeding => EntryPoint::SucceedingCallbackV1,
                CallbackKind::Failing => EntryPoint::FailingCallbackV1,
            },
            CallingConvention::Promise => match kind {
                CallbackKind::Succeeding => EntryPoint::SucceedingCallbackV2,
                CallbackKind::Failing => EntryPoint::FailingCallbackV2,
            },
        }
    }

    /// The name under which the host knows the entry point.
    pub fn name(&self) -> (n: &'static str)
        ensures
            n@ == self.spec_name(),
    {
        match self {
            EntryPoint::SucceedingCallbackV1 => "succeeding_callback_v1",
            EntryPoint::SucceedingCallbackV2 => "succeeding_callback_v2",
            EntryPoint::FailingCallbackV1 => "failing_callback_v1",
            EntryPoint::FailingCallbackV2 => "failing_callback_v2",
        }
    }
}

/// A call to the system token program that issues a fungible token.
#[derive(Clone, Debug, PartialEq, Eq)]
pub struct IssueCall {
    /// The program that is called.
    pub target: Address,
    /// The native amount sent along as the fee of the issuance.
    pub issue_cost: U256,
    pub display_name: Vec<u8>,
    pub ticker: Vec<u8>,
    pub initial_supply: U256,
    pub properties: TokenProperties,
}

/// The model of an [`IssueCall`].
pub struct IssueCallView {
    pub target: Seq<u8>,
    pub issue_cost: nat,
    pub display_name: Seq<u8>,
    pub ticker: Seq<u8>,
    pub initial_supply: nat,
    pub properties: TokenProperties,
}

impl View for IssueCall {
    type V = IssueCallView;

    open spec fn view(&self) -> IssueCallView {
        IssueCallView {
            target: self.target@,
            issue_cost: self.issue_cost@,
            display_name: self.display_name@,
            ticker: self.ticker@,
            initial_supply: self.initial_supply@,
            properties: self.properties,
        }
    }
}

/// A call in flight: made when it is dispatched, gone when the host has
/// delivered its outcome to the callback, or, where it has no callback, when
/// the call has completed.
#[derive(Clone, Debug, PartialEq, Eq)]
pub struct PendingCall {
    pub convention: CallingConvention,
    /// The gas budget: fixed for a promise, left to the host otherwise.
    pub gas_limit: Option<u64>,
    /// Where the host resumes the program, if anywhere.
    pub callback: Option<EntryPoint>,
    pub call: IssueCall,
}

/// The model of a [`PendingCall`].
pub struct PendingCallView {
    pub convention: CallingConvention,
    pub gas_limit: Option<u64>,
    pub callback: Option<EntryPoint>,
    pub call: IssueCallView,
}

impl View for PendingCall {
    type V = PendingCallView;

    open spec fn view(&self) -> PendingCallView {
        PendingCallView {
            convention: self.convention,
            gas_limit: self.gas_limit,
            callback: self.callback,
            call: self.call@,
        }
    }
}

impl PendingCallView {
    /// A promise has a gas budget, and a blocking-async call has none; the
    /// entry point of a callback is one of the call's own convention.
    pub open spec fn wf(self) -> bool {
        &&& self.gas_limit is Some <==> self.convention == CallingConvention::Promise
        &&& self.callback matches Some(entry) ==> entry.spec_convention() == self.convention
    }

    /// The pending call that dispatching `call` under `convention` makes,
    /// with a callback of kind `callback` if one is given.
    pub open spec fn dispatching(
        convention: CallingConvention,
        call: IssueCallView,
        callback: Option<CallbackKind>,
    ) -> PendingCallView {
        PendingCallView {
            convention,
            gas_limit: match convention {
                CallingConvention::BlockingAsync => None,
                CallingConvention::Promise => Some(PROMISE_GAS_LIMIT),
            },
            callback: match callback {
                Some(kind) => Some(EntryPoint::spec_of(convention, kind)),
                None => None,
            },
            call,
        }
    }
}

impl PendingCall {
    /// Well-formedness: see [`PendingCallView::wf`].
    pub open spec fn wf(self) -> bool {
        self@.wf()
    }

    /// The pending call that dispatching `call` under `convention` makes,
    /// with a callback of kind `callback` if one is given. A promise gets
    /// the fixed gas budget; the callback's entry point is the one of the
    /// convention.
    pub fn new(
        convention: CallingConvention,
        call: IssueCall,
        callback: Option<CallbackKind>,
    ) -> (p: PendingCall)
        ensures
            p.wf(),
            p@ == PendingCallView::dispatching(convention, call@, callback),
    {
        let gas_limit = match convention {
            CallingConvention::BlockingAsync => None,
            CallingConvention::Promise => Some(PROMISE_GAS_LIMIT),
        };
        let callback = match callback {
            Some(kind) => Some(EntryPoint::of(convention, kind)),
            None => None,
        };
        PendingCall { convention, gas_limit, callback, call }
    }
}

/// What the host delivers when a call has completed.
#[derive(Clone, Debug, PartialEq, Eq)]
pub enum CallOutcome {
    /// The token was issued: its identifier and the amount handed over.
    Success { token: TokenId, amount: U256 },
    /// The called program reported a failure.
    Failure { reason: String },
}

impl CallOutcome {
    /// Whether `outcome` is the one that the token payments attached to a
    /// resumed invocation tell of. A single payment of a fungible token (one
    /// with the nonce zero) is the token issued. Anything else is a failure:
    /// for want of exactly one payment, or because the one payment is not
    /// of a fungible token.
    pub open spec fn tells(payments: Seq<TokenPayment>, outcome: CallOutcome) -> bool {
        if payments.len() != 1 {
            outcome matches CallOutcome::Failure { reason } && reason@
                == "incorrect number of ESDT transfers"@
        } else if payments[0].nonce != 0 {
            outcome matches CallOutcome::Failure { reason } && reason@
                == "fungible ESDT token expected"@
        } else {
            outcome == (CallOutcome::Success {
                token: payments[0].token,
                amount: payments[0].amount,
            })
        }
    }

    /// The outcome that the token payments attached to a resumed invocation
    /// tell of: see [`CallOutcome::tells`].
    pub fn from_payments(payments: Vec<TokenPayment>) -> (outcome: CallOutcome)
        ensures
            CallOutcome::tells(payments@, outcome),
    {
        let mut payments = payments;
        if payments.len() != 1 {
            CallOutcome::Failure { reason: "incorrect number of ESDT transfers".to_owned() }
        } else {
            let payment = payments.remove(0);
            if payment.nonce != 0 {
                CallOutcome::Failure { reason: "fungible ESDT token expected".to_owned() }
            } else {
                CallOutcome::Success { token: payment.token, amount: payment.amount }
            }
        }
    }
}

} // verus!
