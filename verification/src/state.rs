//! The program's state, and the program itself as functions of that state.

use crate::address::Address;
use crate::amount::U256;
use crate::block::BlockInfo;
use crate::call::{CallOutcome, CallbackKind, CallingConvention, EntryPoint, IssueCall, PendingCall};
use crate::error::WorldError;
use crate::invocation::Invocation;
use crate::lifecycle::{CallEvent, CallPhase, Resolution};
use crate::laws::lemma_resolution_follows_course_of_events;
use crate::model::{call_marker, issues, placeholder_name, WorldView};
use crate::payment::{BackTransferBatch, Payment, TokenId, TokenPayment};
use crate::system::{esdt_system_sc_address, fungible_token_properties_default};
use crate::world::World;
use vstd::prelude::*;

verus! {

/// The persistent state of one instance of the program. It lives as long as
/// the instance does, and changes only where an entry point says so.
#[derive(Clone, Debug, PartialEq, Eq)]
pub struct ProgramState {
    /// The counter, kept under the storage key `n`.
    pub counter: u64,
    /// The handle of the program's token, kept under the storage key
    /// `token`; `None` while no token is set.
    pub token_handle: Option<TokenId>,
}

impl View for ProgramState {
    type V = WorldView;

    open spec fn view(&self) -> WorldView {
        WorldView {
            counter: self.counter,
            token_handle: match self.token_handle {
                Some(token) => Some(token@),
                None => None,
            },
        }
    }
}

impl ProgramState {
    /// The state of an instance whose storage is still empty: the counter
    /// reads zero, and no token is set.
    pub fn new() -> (state: ProgramState)
        ensures
            state@ == (WorldView { counter: 0, token_handle: None }),
    {
        ProgramState { counter: 0, token_handle: None }
    }

    /// The storage key of the counter: `n`.
    pub fn counter_key() -> (key: &'static str)
        ensures
            key@ == "n"@,
    {
        "n"
    }

    /// The storage key of the token handle: `token`.
    pub fn token_key() -> (key: &'static str)
        ensures
            key@ == "token"@,
    {
        "token"
    }
}

impl ProgramState {
    /// Issues the token once under `convention`, with the amount received as
    /// the fee and with a callback of kind `callback` if one is given, on an
    /// invocation of its own. Takes the native currency only.
    fn issue_once(
        &self,
        payment: &Payment,
        convention: CallingConvention,
        callback: Option<CallbackKind>,
    ) -> (r: Result<Invocation, WorldError>)
        ensures
            issues(r, *payment, convention, callback),
    {
        match payment.native_amount() {
            Ok(issue_cost) => {
                let mut invocation = Invocation::new();
                match convention {
                    CallingConvention::Promise => {
                        self.issue_fungible_v2(&mut invocation, issue_cost, callback);
                    },
                    CallingConvention::BlockingAsync => {
                        self.issue_fungible_v1(&mut invocation, issue_cost, callback);
                    },
                }
                Ok(invocation)
            },
            Err(e) => Err(e),
        }
    }
}

/// The bytes of [`placeholder_name`].
fn placeholder() -> (name: Vec<u8>)
    ensures
        name@ == placeholder_name(),
{
    let name = vec![0x54u8, 0x45u8, 0x53u8, 0x54u8];
    assert(name@ =~= placeholder_name());
    name
}

/// The bytes of [`call_marker`].
fn marker() -> (bytes: Vec<u8>)
    ensures
        bytes@ == call_marker(),
{
    let bytes = vec![0x63u8, 0x61u8, 0x6cu8, 0x6cu8];
    assert(bytes@ =~= call_marker());
    bytes
}

impl World for ProgramState {
    fn init(&mut self, n: u64) {
        self.counter = n;
    }

    fn upgrade(&mut self, n: u64) {
        self.init(n);
    }

    fn fund(&self, payment: &Payment) -> (r: Result<(), WorldError>) {
        Ok(())
    }

    fn require_positive(&self, amount: u64) -> (r: Result<(), WorldError>) {
        if amount > 0 {
            Ok(())
        } else {
            Err(WorldError::NotPositive)
        }
    }

    fn get_value(&self, payment: &Payment) -> (r: Result<U256, WorldError>) {
        payment.native_amount()
    }

    fn get_caller(&self, caller: Address) -> (r: Address) {
        caller
    }

    fn multiply_by_n(&self, x: u64) -> (r: u64) {
        let r = x.wrapping_mul(self.counter);
        assert(x * self.counter <= u64::MAX ==> r == x * self.counter) by (nonlinear_arith)
            requires
                r == ((x as nat * self.counter as nat) % 0x1_0000_0000_0000_0000nat) as u64,
        ;
        r
    }

    fn set_n(&mut self, n: u64) {
        self.counter = n;
    }

    fn get_current_block_info(&self, current: &BlockInfo) -> (info: Vec<u64>) {
        let mut current_block_info = Vec::new();
        current_block_info.push(current.epoch);
        current_block_info.push(current.nonce);
        current_block_info.push(current.round);
        current_block_info.push(current.timestamp);
        assert(current_block_info@ =~= current.fields());
        current_block_info
    }

    fn get_prev_block_info(&self, previous: &BlockInfo) -> (info: Vec<u64>) {
        let mut previous_block_info = Vec::new();
        previous_block_info.push(previous.epoch);
        previous_block_info.push(previous.nonce);
        previous_block_info.push(previous.round);
        previous_block_info.push(previous.timestamp);
        assert(previous_block_info@ =~= previous.fields());
        previous_block_info
    }

    fn get_back_transfers(&self, batch: BackTransferBatch) -> (r: (U256, Vec<TokenPayment>)) {
        let BackTransferBatch { total_native, token_payments } = batch;
        (total_native, token_payments)
    }

    fn issue_token_without_callback_v2(&self, payment: &Payment) -> (r: Result<
        Invocation,
        WorldError,
    >) {
        self.issue_once(payment, CallingConvention::Promise, None)
    }

    fn issue_token_with_succeeding_callback_v2(&self, payment: &Payment) -> (r: Result<
        Invocation,
        WorldError,
    >) {
        self.issue_once(payment, CallingConvention::Promise, Some(CallbackKind::Succeeding))
    }

    fn issue_token_with_failing_callback_v2(&self, payment: &Payment) -> (r: Result<
        Invocation,
        WorldError,
    >) {
        self.issue_once(payment, CallingConvention::Promise, Some(CallbackKind::Failing))
    }

    fn issue_tokens_with_return_and_succeeding_callback_v2(&self, payment: &Payment) -> (r: Result<
        (Invocation, Vec<u8>),
        WorldError,
    >) {
        match payment.native_amount() {
            Ok(issue_cost) => {
                let mut invocation = Invocation::new();
                self.issue_fungible_v2(&mut invocation, issue_cost, Some(CallbackKind::Succeeding));
                self.issue_fungible_v2(&mut invocation, issue_cost, Some(CallbackKind::Succeeding));
                Ok((invocation, marker()))
            },
            Err(e) => Err(e),
        }
    }

    fn issue_token_without_callback_v1(&self, payment: &Payment) -> (r: Result<
        Invocation,
        WorldError,
    >) {
        self.issue_once(payment, CallingConvention::BlockingAsync, None)
    }

    fn issue_token_with_succeeding_callback_v1(&self, payment: &Payment) -> (r: Result<
        Invocation,
        WorldError,
    >) {
        self.issue_once(payment, CallingConvention::BlockingAsync, Some(CallbackKind::Succeeding))
    }

    fn issue_token_with_failing_callback_v1(&self, payment: &Payment) -> (r: Result<
        Invocation,
        WorldError,
    >) {
        self.issue_once(payment, CallingConvention::BlockingAsync, Some(CallbackKind::Failing))
    }

    fn issue_fungible(&self, issue_cost: U256) -> (call: IssueCall) {
        IssueCall {
            target: esdt_system_sc_address(),
            issue_cost,
            display_name: placeholder(),
            ticker: placeholder(),
            initial_supply: U256::from_u64(1),
            properties: fungible_token_properties_default(),
        }
    }

    fn issue_fungible_v2(
        &self,
        invocation: &mut Invocation,
        issue_cost: U256,
        callback: Option<CallbackKind>,
    ) {
        let x = self.issue_fungible(issue_cost);
        invocation.dispatch(PendingCall::new(CallingConvention::Promise, x, callback));
    }

    fn issue_fungible_v1(
        &self,
        invocation: &mut Invocation,
        issue_cost: U256,
        callback: Option<CallbackKind>,
    ) {
        let x = self.issue_fungible(issue_cost);
        invocation.dispatch(PendingCall::new(CallingConvention::BlockingAsync, x, callback));
    }

    fn succeeding_callback_v2(&self, outcome: CallOutcome) -> (r: Result<
        (TokenId, U256),
        WorldError,
    >) {
        match outcome {
            CallOutcome::Success { token, amount } => Ok((token, amount)),
            CallOutcome::Failure { reason } => Err(WorldError::CallFailed(reason)),
        }
    }

    fn succeeding_callback_v1(&self, outcome: CallOutcome) -> (r: Result<
        (TokenId, U256),
        WorldError,
    >) {
        match outcome {
            CallOutcome::Success { token, amount } => Ok((token, amount)),
            CallOutcome::Failure { reason } => Err(WorldError::CallFailed(reason)),
        }
    }

    fn failing_callback_v2(&self, outcome: &CallOutcome) -> (r: Result<(), WorldError>) {
        Err(WorldError::CallbackFailed)
    }

    fn failing_callback_v1(&self, outcome: &CallOutcome) -> (r: Result<(), WorldError>) {
        Err(WorldError::CallbackFailed)
    }

    fn run_callback(&self, entry: EntryPoint, outcome: CallOutcome) -> (r: Result<
        (TokenId, U256),
        WorldError,
    >) {
        match entry {
            EntryPoint::SucceedingCallbackV1 => self.succeeding_callback_v1(outcome),
            EntryPoint::SucceedingCallbackV2 => self.succeeding_callback_v2(outcome),
            EntryPoint::FailingCallbackV1 => Err(self.failing_callback_v1(&outcome).unwrap_err()),
            EntryPoint::FailingCallbackV2 => Err(self.failing_callback_v2(&outcome).unwrap_err()),
        }
    }

    fn resolve(&self, call: &PendingCall, outcome: CallOutcome) -> (r: Resolution) {
        proof {
            lemma_resolution_follows_course_of_events(call.callback, outcome);
        }
        let success = match &outcome {
            CallOutcome::Success { .. } => true,
            CallOutcome::Failure { .. } => false,
        };
        let finished = CallPhase::Dispatched.next(
            call.callback.is_some(),
            CallEvent::Finished { success },
        ).unwrap();
        match call.callback {
            None => Resolution { phase: finished, returned: None },
            Some(entry) => {
                let running = finished.next(true, CallEvent::Delivered).unwrap();
                let returned = self.run_callback(entry, outcome);
                let ended = running.next(
                    true,
                    CallEvent::CallbackEnded { aborted: returned.is_err() },
                ).unwrap();
                Resolution { phase: ended, returned: Some(returned) }
            },
        }
    }

    fn n(&self) -> (n: u64) {
        self.counter
    }

    fn token(&self) -> (token: Option<&TokenId>) {
        self.token_handle.as_ref()
    }

    fn set_token(&mut self, token: TokenId) {
        self.token_handle = Some(token);
    }
}

} // verus!
