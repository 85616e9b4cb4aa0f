//! The mathematical model of the program: its state, the calls it makes and
//! what its callbacks return. The contracts of the entry points are stated
//! over these.

use crate::amount::U256;
use crate::call::{
    CallOutcome, CallbackKind, CallingConvention, EntryPoint, IssueCallView, PendingCallView,
};
use crate::error::WorldError;
use crate::invocation::{Invocation, InvocationView};
use crate::lifecycle::{CallEvent, CallPhase, Resolution};
use crate::payment::{Payment, TokenId};
use crate::system::{default_fungible_properties, system_program_address};
use vstd::prelude::*;

verus! {

/// The model of the program's persistent state: the counter and the handle
/// of the program's token.
pub struct WorldView {
    pub counter: u64,
    pub token_handle: Option<Seq<u8>>,
}

impl WorldView {
    /// The state with the counter set to `n`, and the token handle as it
    /// was.
    pub open spec fn with_counter(self, n: u64) -> WorldView {
        WorldView { counter: n, token_handle: self.token_handle }
    }

    /// The state with the token handle set to `token`, and the counter as it
    /// was.
    pub open spec fn with_token(self, token: Seq<u8>) -> WorldView {
        WorldView { counter: self.counter, token_handle: Some(token) }
    }

    /// The product of `x` and the counter, reduced modulo two to the power
    /// 64: where the product does not fit 64 bits, it wraps around.
    pub open spec fn product(self, x: u64) -> u64 {
        ((x as nat * self.counter as nat) % 0x1_0000_0000_0000_0000nat) as u64
    }
}

/// What the callback that hands on the issued token returns for `outcome`:
/// the token and the amount of a successful call, and for a failed call the
/// failure that the called program reported.
pub open spec fn handed_on(outcome: CallOutcome) -> Result<(TokenId, U256), WorldError> {
    match outcome {
        CallOutcome::Success { token, amount } => Ok((token, amount)),
        CallOutcome::Failure { reason } => Err(WorldError::CallFailed(reason)),
    }
}

/// What the callback at `entry` returns when the host delivers `outcome` to
/// it.
pub open spec fn callback_result(entry: EntryPoint, outcome: CallOutcome) -> Result<
    (TokenId, U256),
    WorldError,
> {
    match entry.spec_kind() {
        CallbackKind::Succeeding => handed_on(outcome),
        CallbackKind::Failing => Err(WorldError::CallbackFailed),
    }
}

/// How a call with the callback `callback` ends when the called program
/// answers with `outcome`. Without a callback the call rests where the
/// called program left it. With one, the callback runs on the outcome, and
/// completes or aborts.
pub open spec fn resolution(callback: Option<EntryPoint>, outcome: CallOutcome) -> Resolution {
    match callback {
        None => Resolution {
            phase: if outcome is Success {
                CallPhase::Succeeded
            } else {
                CallPhase::Failed
            },
            returned: None,
        },
        Some(entry) => Resolution {
            phase: if callback_result(entry, outcome) is Ok {
                CallPhase::CallbackCompleted
            } else {
                CallPhase::CallbackAborted
            },
            returned: Some(callback_result(entry, outcome)),
        },
    }
}

/// The course of events of a call with the callback `callback` to which the
/// called program answers with `outcome`.
pub open spec fn course_of_events(callback: Option<EntryPoint>, outcome: CallOutcome) -> Seq<
    CallEvent,
> {
    let finished = CallEvent::Finished { success: outcome is Success };
    match callback {
        None => seq![finished],
        Some(entry) => seq![
            finished,
            CallEvent::Delivered,
            CallEvent::CallbackEnded { aborted: callback_result(entry, outcome) is Err },
        ],
    }
}

/// The name and the ticker of every token that the program issues: the ASCII
/// bytes of `TEST`.
pub open spec fn placeholder_name() -> Seq<u8> {
    seq![0x54u8, 0x45u8, 0x53u8, 0x54u8]
}

/// The call that issues the program's token for the fee `issue_cost`: to the
/// system token program, name and ticker `TEST`, a supply of one unit, the
/// default properties.
pub open spec fn issue_call(issue_cost: nat) -> IssueCallView {
    IssueCallView {
        target: system_program_address(),
        issue_cost,
        display_name: placeholder_name(),
        ticker: placeholder_name(),
        initial_supply: 1,
        properties: default_fungible_properties(),
    }
}

/// The pending call that the program makes when it dispatches
/// [`issue_call`] under `convention`, with a callback of kind `callback` if
/// one is given.
pub open spec fn issuance(
    convention: CallingConvention,
    issue_cost: nat,
    callback: Option<CallbackKind>,
) -> PendingCallView {
    PendingCallView::dispatching(convention, issue_call(issue_cost), callback)
}

/// The marker that the entry point which issues twice returns: the ASCII
/// bytes of `call`.
pub open spec fn call_marker() -> Seq<u8> {
    seq![0x63u8, 0x61u8, 0x6cu8, 0x6cu8]
}

/// What an entry point that issues the token once returns on `payment`. It
/// takes the native currency only. On a native payment above zero it
/// succeeds, having dispatched one call: the issuance under `convention`,
/// with the whole amount received as the fee, and with a callback of kind
/// `callback` if one is given. Where nothing is attached, and where a token
/// was sent, it fails as [`Payment::spec_native_amount`] says, and
/// dispatches nothing.
pub open spec fn issues(
    r: Result<Invocation, WorldError>,
    payment: Payment,
    convention: CallingConvention,
    callback: Option<CallbackKind>,
) -> bool {
    match r {
        Ok(invocation) => {
            &&& payment.spec_native_amount() is Ok
            &&& invocation.wf()
            &&& invocation@ == InvocationView::start().after(
                issuance(convention, payment.amount@, callback),
            )
        },
        Err(e) => payment.spec_native_amount() == Err::<U256, WorldError>(e),
    }
}

} // verus!
