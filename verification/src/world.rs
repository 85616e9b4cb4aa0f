//! The program's interface: its entry points, the steps they share and its
//! callbacks, each with its contract.

use crate::address::Address;
use crate::amount::U256;
use crate::block::BlockInfo;
use crate::call::{CallOutcome, CallbackKind, CallingConvention, EntryPoint, IssueCall, PendingCall};
use crate::endpoint::Endpoint;
use crate::error::WorldError;
use crate::invocation::{Invocation, InvocationView};
use crate::lifecycle::{CallPhase, Resolution};
use crate::model::{
    call_marker, callback_result, course_of_events, handed_on, issuance, issue_call, issues,
    resolution, WorldView,
};
use crate::payment::{BackTransferBatch, Payment, TokenId, TokenPayment};
use vstd::prelude::*;

verus! {

/// The entry points of the program, and the steps that they share.
///
/// What an entry point reads from its host (the payment attached, the
/// caller, the facts of a block) it takes as an argument. What it does to
/// the host (the calls it dispatches) it records in an [`Invocation`].
pub trait World: View<V = WorldView> + Sized {
    /// Sets the counter to `n`, at the first deployment.
    fn init(&mut self, n: u64)
        ensures
            final(self)@ == old(self)@.with_counter(n),
    ;

    /// Sets the counter to `n`, at an upgrade: the same as [`World::init`].
    fn upgrade(&mut self, n: u64)
        ensures
            final(self)@ == old(self)@.with_counter(n),
    ;

    /// Takes a payment in any currency, or none, and does nothing else.
    fn fund(&self, payment: &Payment) -> (r: Result<(), WorldError>)
        ensures
            r is Ok,
            r is Ok <==> Endpoint::Fund.spec_payment_rule().admits(payment@),
    ;

    /// Succeeds if `amount` is positive, and fails if it is zero.
    fn require_positive(&self, amount: u64) -> (r: Result<(), WorldError>)
        ensures
            amount > 0 ==> r is Ok,
            amount == 0 ==> r == Err::<(), WorldError>(WorldError::NotPositive),
    ;

    /// The native amount received. Takes the native currency only: it
    /// fails for the missing payment where nothing is attached, and for the
    /// wrong currency where a token was sent.
    fn get_value(&self, payment: &Payment) -> (r: Result<U256, WorldError>)
        ensures
            r == payment.spec_native_amount(),
            r is Ok <==> Endpoint::GetValue.spec_payment_rule().admits(payment@),
    ;

    /// The identity of the caller, as the host reports it.
    fn get_caller(&self, caller: Address) -> (r: Address)
        ensures
            r == caller,
    ;

    /// The product of `x` and the counter. A product that does not fit 64
    /// bits wraps around.
    fn multiply_by_n(&self, x: u64) -> (r: u64)
        ensures
            r == self@.product(x),
            x * self@.counter <= u64::MAX ==> r == x * self@.counter,
    ;

    /// Sets the counter to `n`.
    fn set_n(&mut self, n: u64)
        ensures
            final(self)@ == old(self)@.with_counter(n),
    ;

    /// The facts of the current block, in the order epoch, nonce, round,
    /// timestamp.
    fn get_current_block_info(&self, current: &BlockInfo) -> (info: Vec<u64>)
        ensures
            info@ == current.fields(),
    ;

    /// The facts of the previous block, in the order epoch, nonce, round,
    /// timestamp.
    fn get_prev_block_info(&self, previous: &BlockInfo) -> (info: Vec<u64>)
        ensures
            info@ == previous.fields(),
    ;

    /// What came back from the calls made earlier in the same chain of
    /// invocations: the total in native currency and the token payments, as
    /// the batch holds them.
    fn get_back_transfers(&self, batch: BackTransferBatch) -> (r: (U256, Vec<TokenPayment>))
        ensures
            r.0 == batch.total_native,
            r.1 == batch.token_payments,
    ;

    /// Issues the token as a promise, without a callback. The invocation
    /// returns normally. Takes the native currency only: fails where nothing
    /// is attached, and where a token was sent.
    fn issue_token_without_callback_v2(&self, payment: &Payment) -> (r: Result<
        Invocation,
        WorldError,
    >)
        ensures
            issues(r, *payment, CallingConvention::Promise, None),
            r is Ok <==> Endpoint::IssueTokenWithoutCallbackV2.spec_payment_rule().admits(payment@),
            r matches Ok(invocation) ==> !invocation.suspended,
    ;

    /// Issues the token as a promise, and registers the callback that hands
    /// on the issued token. The invocation returns normally. Takes the
    /// native currency only: fails where nothing is attached, and where a
    /// token was sent.
    fn issue_token_with_succeeding_callback_v2(&self, payment: &Payment) -> (r: Result<
        Invocation,
        WorldError,
    >)
        ensures
            issues(r, *payment, CallingConvention::Promise, Some(CallbackKind::Succeeding)),
            r is Ok <==> Endpoint::IssueTokenWithSucceedingCallbackV2.spec_payment_rule().admits(
                payment@,
            ),
            r matches Ok(invocation) ==> !invocation.suspended,
    ;

    /// Issues the token as a promise, and registers the callback that always
    /// fails. The invocation returns normally. Takes the native currency
    /// only: fails where nothing is attached, and where a token was sent.
    fn issue_token_with_failing_callback_v2(&self, payment: &Payment) -> (r: Result<
        Invocation,
        WorldError,
    >)
        ensures
            issues(r, *payment, CallingConvention::Promise, Some(CallbackKind::Failing)),
            r is Ok <==> Endpoint::IssueTokenWithFailingCallbackV2.spec_payment_rule().admits(
                payment@,
            ),
            r matches Ok(invocation) ==> !invocation.suspended,
    ;

    /// Issues the token twice, each time as a promise with the callback that
    /// hands on the issued token, and returns the marker `call`. Each
    /// issuance forwards the whole amount received. The invocation returns
    /// normally, whether or not a promise has been resolved. Takes the
    /// native currency only: fails where nothing is attached, and where a
    /// token was sent.
    fn issue_tokens_with_return_and_succeeding_callback_v2(&self, payment: &Payment) -> (r: Result<
        (Invocation, Vec<u8>),
        WorldError,
    >)
        ensures
            match r {
                Ok((invocation, marker)) => {
                    &&& payment.spec_native_amount() is Ok
                    &&& invocation.wf()
                    &&& invocation@ == InvocationView::start().after(
                        issuance(
                            CallingConvention::Promise,
                            payment.amount@,
                            Some(CallbackKind::Succeeding),
                        ),
                    ).after(
                        issuance(
                            CallingConvention::Promise,
                            payment.amount@,
                            Some(CallbackKind::Succeeding),
                        ),
                    )
                    &&& !invocation.suspended
                    &&& marker@ == call_marker()
                },
                Err(e) => payment.spec_native_amount() == Err::<U256, WorldError>(e),
            },
            r is Ok <==> Endpoint::IssueTokensWithReturnAndSucceedingCallbackV2
                .spec_payment_rule().admits(payment@),
    ;

    /// Issues the token as a blocking-async call, without a callback. The
    /// invocation ends at the dispatch, and no callback runs. Takes the
    /// native currency only: fails where nothing is attached, and where a
    /// token was sent.
    fn issue_token_without_callback_v1(&self, payment: &Payment) -> (r: Result<
        Invocation,
        WorldError,
    >)
        ensures
            issues(r, *payment, CallingConvention::BlockingAsync, None),
            r is Ok <==> Endpoint::IssueTokenWithoutCallbackV1.spec_payment_rule().admits(payment@),
            r matches Ok(invocation) ==> invocation.suspended,
    ;

    /// Issues the token as a blocking-async call, and registers the callback
    /// that hands on the issued token. The invocation ends at the dispatch.
    /// Takes the native currency only: fails where nothing is attached, and
    /// where a token was sent.
    fn issue_token_with_succeeding_callback_v1(&self, payment: &Payment) -> (r: Result<
        Invocation,
        WorldError,
    >)
        ensures
            issues(r, *payment, CallingConvention::BlockingAsync, Some(CallbackKind::Succeeding)),
            r is Ok <==> Endpoint::IssueTokenWithSucceedingCallbackV1.spec_payment_rule().admits(
                payment@,
            ),
            r matches Ok(invocation) ==> invocation.suspended,
    ;

    /// Issues the token as a blocking-async call, and registers the callback
    /// that always fails. The invocation ends at the dispatch. Takes the
    /// native currency only: fails where nothing is attached, and where a
    /// token was sent.
    fn issue_token_with_failing_callback_v1(&self, payment: &Payment) -> (r: Result<
        Invocation,
        WorldError,
    >)
        ensures
            issues(r, *payment, CallingConvention::BlockingAsync, Some(CallbackKind::Failing)),
            r is Ok <==> Endpoint::IssueTokenWithFailingCallbackV1.spec_payment_rule().admits(
                payment@,
            ),
            r matches Ok(invocation) ==> invocation.suspended,
    ;

    /// Builds the call that issues the program's token, with `issue_cost` as
    /// the fee of the issuance. The amount is not checked: whether it covers
    /// the cost is for the system token program to say.
    fn issue_fungible(&self, issue_cost: U256) -> (call: IssueCall)
        ensures
            call@ == issue_call(issue_cost@),
    ;

    /// Dispatches the issuance as a promise, with the fixed gas budget. The
    /// invocation goes on.
    fn issue_fungible_v2(
        &self,
        invocation: &mut Invocation,
        issue_cost: U256,
        callback: Option<CallbackKind>,
    )
        requires
            old(invocation).wf(),
            !old(invocation).suspended,
        ensures
            final(invocation).wf(),
            final(invocation)@ == old(invocation)@.after(
                issuance(CallingConvention::Promise, issue_cost@, callback),
            ),
            !final(invocation).suspended,
    ;

    /// Dispatches the issuance as a blocking-async call. The invocation ends
    /// there.
    fn issue_fungible_v1(
        &self,
        invocation: &mut Invocation,
        issue_cost: U256,
        callback: Option<CallbackKind>,
    )
        requires
            old(invocation).wf(),
            !old(invocation).suspended,
        ensures
            final(invocation).wf(),
            final(invocation)@ == old(invocation)@.after(
                issuance(CallingConvention::BlockingAsync, issue_cost@, callback),
            ),
            final(invocation).suspended,
    ;

    /// The callback of a promise that hands on the issued token: for a
    /// successful call the token and the amount that the host attached to
    /// the resumed invocation, for a failed call the failure reported. The
    /// state is left as it is.
    fn succeeding_callback_v2(&self, outcome: CallOutcome) -> (r: Result<
        (TokenId, U256),
        WorldError,
    >)
        ensures
            r == handed_on(outcome),
    ;

    /// The callback of a blocking-async call that hands on the issued
    /// token. See [`World::succeeding_callback_v2`].
    fn succeeding_callback_v1(&self, outcome: CallOutcome) -> (r: Result<
        (TokenId, U256),
        WorldError,
    >)
        ensures
            r == handed_on(outcome),
    ;

    /// The callback of a promise that always fails, whatever the outcome of
    /// the call.
    fn failing_callback_v2(&self, outcome: &CallOutcome) -> (r: Result<(), WorldError>)
        ensures
            r == Err::<(), WorldError>(WorldError::CallbackFailed),
    ;

    /// The callback of a blocking-async call that always fails, whatever the
    /// outcome of the call.
    fn failing_callback_v1(&self, outcome: &CallOutcome) -> (r: Result<(), WorldError>)
        ensures
            r == Err::<(), WorldError>(WorldError::CallbackFailed),
    ;

    /// Resumes the program at the callback entry point `entry`, with the
    /// outcome that the host delivers.
    fn run_callback(&self, entry: EntryPoint, outcome: CallOutcome) -> (r: Result<
        (TokenId, U256),
        WorldError,
    >)
        ensures
            r == callback_result(entry, outcome),
    ;

    /// Takes the pending call `call` to its end, given the outcome with
    /// which the called program answers: where the call has a callback, the
    /// program is resumed at it.
    fn resolve(&self, call: &PendingCall, outcome: CallOutcome) -> (r: Resolution)
        ensures
            r == resolution(call.callback, outcome),
            Some(r.phase) == CallPhase::Dispatched.run(
                call.callback is Some,
                course_of_events(call.callback, outcome),
            ),
    ;

    /// The counter.
    fn n(&self) -> (n: u64)
        ensures
            n == self@.counter,
    ;

    /// The handle of the program's token, if one is set.
    fn token(&self) -> (token: Option<&TokenId>)
        ensures
            match token {
                Some(id) => self@.token_handle == Some(id@),
                None => self@.token_handle is None,
            },
    ;

    /// Sets the handle of the program's token.
    fn set_token(&mut self, token: TokenId)
        ensures
            final(self)@ == old(self)@.with_token(token@),
    ;
}

} // verus!
