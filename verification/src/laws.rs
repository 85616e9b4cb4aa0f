//! What holds of the program across its entry points, proved from the models
//! that their contracts are stated over.

use crate::amount::U256;
use crate::call::{CallOutcome, CallbackKind, CallingConvention, EntryPoint};
use crate::endpoint::Endpoint;
use crate::error::{ErrorKind, WorldError};
use crate::invocation::InvocationView;
use crate::lifecycle::{CallEvent, CallPhase, Resolution};
use crate::model::{course_of_events, issuance, resolution, WorldView};
use crate::payment::{Payment, PaymentRule, TokenId};
use vstd::prelude::*;

verus! {

/// Once the counter has been set to `n`, at the first deployment, at an
/// upgrade or later, the product that the program returns for `x` is
/// `x * n`, provided that this fits 64 bits. The state before plays no part.
pub proof fn lemma_product_after_initialize(before: WorldView, n: u64, x: u64)
    requires
        x * n <= u64::MAX,
    ensures
        before.with_counter(n).product(x) == x * n,
{
    assert((x as nat * n as nat) % 0x1_0000_0000_0000_0000nat == x * n) by (nonlinear_arith)
        requires
            x * n <= u64::MAX,
    ;
}

/// The product is computed from the counter set last, never from a stale
/// one: whatever the counter was before, after it has been set to `n2` the
/// product for `x` is `x * n2` modulo two to the power 64.
pub proof fn lemma_product_uses_latest_counter(before: WorldView, n1: u64, n2: u64, x: u64)
    ensures
        before.with_counter(n1).with_counter(n2).product(x) == before.with_counter(n2).product(x),
        before.with_counter(n2).product(x) == (x * n2) % 0x1_0000_0000_0000_0000,
{
    assert(x as nat * n2 as nat == x * n2) by (nonlinear_arith);
}

/// Setting the counter leaves the token handle as it was.
pub proof fn lemma_counter_leaves_token(before: WorldView, n: u64)
    ensures
        before.with_counter(n).token_handle == before.token_handle,
        before.with_counter(n).counter == n,
{
}

/// An entry point that takes the native currency only receives an amount
/// exactly where its payment rule admits the payment, and then the amount of
/// the payment: nothing is added or held back. It fails for the missing
/// payment exactly where nothing is attached, and for the wrong currency
/// exactly where a token was sent. Both failures are validation failures.
pub proof fn lemma_native_amount_follows_rule(payment: Payment)
    ensures
        payment.spec_native_amount() is Ok <==> PaymentRule::ExactNative.admits(payment@),
        payment.spec_native_amount() is Ok <==> payment.currency is Native && payment.amount@ > 0,
        payment.spec_native_amount() matches Ok(amount) ==> amount == payment.amount,
        payment.spec_native_amount() == Err::<U256, WorldError>(WorldError::MissingPayment)
            <==> payment.is_missing(),
        payment.spec_native_amount() == Err::<U256, WorldError>(WorldError::NoPayment)
            <==> !(payment.currency is Native),
        WorldError::MissingPayment.spec_kind() == ErrorKind::Validation,
        WorldError::NoPayment.spec_kind() == ErrorKind::Validation,
{
}

/// Every entry point that takes the native currency only stands in the
/// table of entry points under that rule, `fund` under the rule that admits
/// every payment, and no payment is admitted by two of the rules "nothing"
/// and "native only" at once.
pub proof fn lemma_payment_rules(payment: Payment)
    ensures
        Endpoint::GetValue.spec_payment_rule() == PaymentRule::ExactNative,
        Endpoint::IssueTokenWithoutCallbackV2.spec_payment_rule() == PaymentRule::ExactNative,
        Endpoint::IssueTokenWithSucceedingCallbackV2.spec_payment_rule()
            == PaymentRule::ExactNative,
        Endpoint::IssueTokenWithFailingCallbackV2.spec_payment_rule() == PaymentRule::ExactNative,
        Endpoint::IssueTokensWithReturnAndSucceedingCallbackV2.spec_payment_rule()
            == PaymentRule::ExactNative,
        Endpoint::IssueTokenWithoutCallbackV1.spec_payment_rule() == PaymentRule::ExactNative,
        Endpoint::IssueTokenWithSucceedingCallbackV1.spec_payment_rule()
            == PaymentRule::ExactNative,
        Endpoint::IssueTokenWithFailingCallbackV1.spec_payment_rule() == PaymentRule::ExactNative,
        Endpoint::Fund.spec_payment_rule().admits(payment@),
        PaymentRule::NotPayable.admits(payment@) <==> payment.is_missing(),
        !(PaymentRule::NotPayable.admits(payment@) && PaymentRule::ExactNative.admits(payment@)),
{
}

/// An invocation that issues through a blocking-async call ends at the
/// dispatch, with or without a callback: the call is the only one
/// dispatched, and the invocation is suspended.
pub proof fn lemma_blocking_async_issuance_suspends(
    issue_cost: nat,
    callback: Option<CallbackKind>,
)
    ensures
        ({
            let invocation = InvocationView::start().after(
                issuance(CallingConvention::BlockingAsync, issue_cost, callback),
            );
            &&& invocation.wf()
            &&& invocation.suspended
            &&& invocation.dispatched.len() == 1
        }),
{
}

/// An invocation that issues through promises returns normally, with or
/// without a callback, however many promises it registers.
pub proof fn lemma_promise_issuance_returns(
    before: InvocationView,
    issue_cost: nat,
    callback: Option<CallbackKind>,
)
    requires
        before.wf(),
        !before.suspended,
    ensures
        ({
            let invocation = before.after(
                issuance(CallingConvention::Promise, issue_cost, callback),
            );
            &&& invocation.wf()
            &&& !invocation.suspended
            &&& invocation.dispatched.len() == before.dispatched.len() + 1
        }),
{
}

/// Two issuances registered as promises in one invocation stand side by
/// side in its record, in the order of their registration, and the
/// invocation still returns normally: what it returns does not wait for
/// either promise.
pub proof fn lemma_two_promises_register_independently(
    issue_cost: nat,
    first: Option<CallbackKind>,
    second: Option<CallbackKind>,
)
    ensures
        ({
            let one = issuance(CallingConvention::Promise, issue_cost, first);
            let other = issuance(CallingConvention::Promise, issue_cost, second);
            let invocation = InvocationView::start().after(one).after(other);
            &&& invocation.wf()
            &&& !invocation.suspended
            &&& invocation.dispatched == seq![one, other]
        }),
{
    let one = issuance(CallingConvention::Promise, issue_cost, first);
    let other = issuance(CallingConvention::Promise, issue_cost, second);
    assert(InvocationView::start().after(one).after(other).dispatched =~= seq![one, other]);
}

/// The callback registered with an issuance is the one of the kind asked
/// for, at the entry point of the call's own convention; an issuance
/// without a callback registers none.
pub proof fn lemma_callback_matches_convention(
    convention: CallingConvention,
    issue_cost: nat,
    kind: CallbackKind,
)
    ensures
        issuance(convention, issue_cost, None).callback is None,
        issuance(convention, issue_cost, Some(kind)).callback matches Some(entry)
            && entry.spec_convention() == convention && entry.spec_kind() == kind,
{
}

/// Where an issuance registered the callback that always fails, the callback
/// aborts with the message `Fail`, whatever the outcome of the call.
pub proof fn lemma_failing_callback_aborts(
    convention: CallingConvention,
    issue_cost: nat,
    outcome: CallOutcome,
)
    ensures
        resolution(
            issuance(convention, issue_cost, Some(CallbackKind::Failing)).callback,
            outcome,
        ) == (Resolution {
            phase: CallPhase::CallbackAborted,
            returned: Some(Err(WorldError::CallbackFailed)),
        }),
        WorldError::CallbackFailed.spec_message() == "Fail"@,
        WorldError::CallbackFailed.spec_kind() == ErrorKind::ExternalCall,
{
}

/// Where an issuance registered the callback that hands on the issued token
/// and the call succeeded, the callback completes and returns exactly the
/// token and the amount that were delivered.
pub proof fn lemma_succeeding_callback_receives_token(
    convention: CallingConvention,
    issue_cost: nat,
    token: TokenId,
    amount: U256,
)
    ensures
        resolution(
            issuance(convention, issue_cost, Some(CallbackKind::Succeeding)).callback,
            CallOutcome::Success { token, amount },
        ) == (Resolution {
            phase: CallPhase::CallbackCompleted,
            returned: Some(Ok((token, amount))),
        }),
{
}

/// Where an issuance registered the callback that hands on the issued token
/// and the call failed, the callback aborts with the reason that the called
/// program gave.
pub proof fn lemma_succeeding_callback_reports_failure(
    convention: CallingConvention,
    issue_cost: nat,
    reason: String,
)
    ensures
        resolution(
            issuance(convention, issue_cost, Some(CallbackKind::Succeeding)).callback,
            CallOutcome::Failure { reason },
        ) == (Resolution {
            phase: CallPhase::CallbackAborted,
            returned: Some(Err(WorldError::CallFailed(reason))),
        }),
        WorldError::CallFailed(reason).spec_message() == reason@,
        WorldError::CallFailed(reason).spec_kind() == ErrorKind::ExternalCall,
{
}

/// A call comes to rest where its course of events takes it from the
/// dispatch: the called program finishes, and, where there is a callback,
/// the outcome is delivered to it and it ends.
pub proof fn lemma_resolution_follows_course_of_events(
    callback: Option<EntryPoint>,
    outcome: CallOutcome,
)
    ensures
        CallPhase::Dispatched.run(callback is Some, course_of_events(callback, outcome)) == Some(
            resolution(callback, outcome).phase,
        ),
{
    reveal_with_fuel(CallPhase::run, 4);
    let events = course_of_events(callback, outcome);
    assert(events.drop_first().len() == events.len() - 1);
    if callback is Some {
        assert(events.drop_first().first() == events[1]);
        assert(events.drop_first().drop_first().first() == events[2]);
        assert(events.drop_first().drop_first().drop_first().len() == 0);
    }
}

/// The outcome of a call without a callback is delivered to nobody.
pub proof fn lemma_no_callback_returns_nothing(outcome: CallOutcome)
    ensures
        resolution(None, outcome).returned is None,
        !resolution(None, outcome).phase.is_final(),
{
}

} // verus!
