use world::address::Address;
use world::amount::U256;
use world::call::{
    CallbackKind, CallingConvention, EntryPoint, IssueCall, PendingCall, PROMISE_GAS_LIMIT,
};
use world::error::{ErrorKind, WorldError};
use world::invocation::Invocation;
use world::payment::{Payment, TokenId};
use world::system::TokenProperties;
use world::ProgramState;
use world::World;

const SYSTEM_PROGRAM: [u8; 32] = [
    0, 0, 0, 0, 0, 0, 0, 0, 0, 1, 0, 0, 0, 0, 0, 0, 0, 0, 0, 0, 0, 0, 0, 0, 0, 0, 0, 0, 0, 2, 0xff,
    0xff,
];

fn expected_issue_call(issue_cost: U256) -> IssueCall {
    IssueCall {
        target: Address { bytes: SYSTEM_PROGRAM },
        issue_cost,
        display_name: b"TEST".to_vec(),
        ticker: b"TEST".to_vec(),
        initial_supply: U256 { hi: 0, lo: 1 },
        properties: TokenProperties {
            num_decimals: 0,
            can_freeze: true,
            can_wipe: true,
            can_pause: true,
            can_mint: false,
            can_burn: false,
            can_change_owner: true,
            can_upgrade: true,
            can_add_special_roles: true,
        },
    }
}

fn expected_promise(issue_cost: U256, callback: Option<EntryPoint>) -> PendingCall {
    PendingCall {
        convention: CallingConvention::Promise,
        gas_limit: Some(50_000_000),
        callback,
        call: expected_issue_call(issue_cost),
    }
}

fn expected_blocking(issue_cost: U256, callback: Option<EntryPoint>) -> PendingCall {
    PendingCall {
        convention: CallingConvention::BlockingAsync,
        gas_limit: None,
        callback,
        call: expected_issue_call(issue_cost),
    }
}

fn a_token_payment() -> Payment {
    Payment::token(TokenId { bytes: b"TEST-123456".to_vec() }, U256::from_u64(5))
}

#[test]
fn promise_gas_budget_is_fifty_million() {
    assert_eq!(PROMISE_GAS_LIMIT, 50_000_000);
}

#[test]
fn issue_call_is_test_token_with_supply_one() {
    let state = ProgramState::new();
    let fee = U256::from_u128(50_000_000_000_000_000);
    let call = state.issue_fungible(fee);
    assert_eq!(call.display_name, b"TEST".to_vec());
    assert_eq!(call.ticker, b"TEST".to_vec());
    assert_eq!(call.initial_supply, U256::from_u64(1));
    assert_eq!(call.issue_cost, fee);
    assert_eq!(call, expected_issue_call(fee));
}

#[test]
fn issue_call_goes_to_the_system_token_program() {
    let call = ProgramState::new().issue_fungible(U256::zero());
    assert_eq!(call.target.bytes, SYSTEM_PROGRAM);
    assert_eq!(
        call.target.bytes.to_vec(),
        multiversx_sc::types::ESDTSystemSCAddress.to_address().to_vec()
    );
}

#[test]
fn issue_call_has_the_default_properties() {
    let call = ProgramState::new().issue_fungible(U256::zero());
    let p = call.properties;
    assert_eq!(p.num_decimals, 0);
    assert!(p.can_freeze);
    assert!(p.can_wipe);
    assert!(p.can_pause);
    assert!(!p.can_mint);
    assert!(!p.can_burn);
    assert!(p.can_change_owner);
    assert!(p.can_upgrade);
    assert!(p.can_add_special_roles);
}

#[test]
fn default_properties_are_those_of_the_host_framework() {
    let call = ProgramState::new().issue_fungible(U256::zero());
    let p = call.properties;
    let d = multiversx_sc::types::system_proxy::FungibleTokenProperties::default();
    assert_eq!(p.num_decimals, d.num_decimals);
    assert_eq!(p.can_freeze, d.can_freeze);
    assert_eq!(p.can_wipe, d.can_wipe);
    assert_eq!(p.can_pause, d.can_pause);
    assert_eq!(p.can_mint, d.can_mint);
    assert_eq!(p.can_burn, d.can_burn);
    assert_eq!(p.can_change_owner, d.can_change_owner);
    assert_eq!(p.can_upgrade, d.can_upgrade);
    assert_eq!(p.can_add_special_roles, d.can_add_special_roles);
}

#[test]
fn issue_call_does_not_validate_the_amount() {
    let state = ProgramState::new();
    assert_eq!(state.issue_fungible(U256::zero()), expected_issue_call(U256::zero()));
    let largest = U256 { hi: u128::MAX, lo: u128::MAX };
    assert_eq!(state.issue_fungible(largest), expected_issue_call(largest));
}

#[test]
fn issue_call_does_not_depend_on_the_state() {
    let mut state = ProgramState::new();
    let before = state.issue_fungible(U256::from_u64(3));
    state.init(77);
    state.set_token(TokenId { bytes: b"TEST-123456".to_vec() });
    assert_eq!(state.issue_fungible(U256::from_u64(3)), before);
}

#[test]
fn promise_without_callback_returns_normally() {
    let state = ProgramState::new();
    let fee = U256::from_u64(5);
    let invocation = state.issue_token_without_callback_v2(&Payment::native(fee)).unwrap();
    assert!(!invocation.suspended);
    assert_eq!(invocation.dispatched, vec![expected_promise(fee, None)]);
}

#[test]
fn blocking_async_without_callback_terminates_the_invocation() {
    let state = ProgramState::new();
    let fee = U256::from_u64(5);
    let invocation = state.issue_token_without_callback_v1(&Payment::native(fee)).unwrap();
    assert!(invocation.suspended);
    assert_eq!(invocation.dispatched, vec![expected_blocking(fee, None)]);
    assert_eq!(invocation.dispatched[0].callback, None);
    assert_eq!(invocation.dispatched[0].gas_limit, None);
}

#[test]
fn promise_with_succeeding_callback() {
    let state = ProgramState::new();
    let fee = U256::from_u64(6);
    let invocation =
        state.issue_token_with_succeeding_callback_v2(&Payment::native(fee)).unwrap();
    assert!(!invocation.suspended);
    assert_eq!(
        invocation.dispatched,
        vec![expected_promise(fee, Some(EntryPoint::SucceedingCallbackV2))]
    );
}

#[test]
fn promise_with_failing_callback() {
    let state = ProgramState::new();
    let fee = U256::from_u64(7);
    let invocation = state.issue_token_with_failing_callback_v2(&Payment::native(fee)).unwrap();
    assert!(!invocation.suspended);
    assert_eq!(
        invocation.dispatched,
        vec![expected_promise(fee, Some(EntryPoint::FailingCallbackV2))]
    );
}

#[test]
fn blocking_async_with_succeeding_callback() {
    let state = ProgramState::new();
    let fee = U256::from_u64(8);
    let invocation =
        state.issue_token_with_succeeding_callback_v1(&Payment::native(fee)).unwrap();
    assert!(invocation.suspended);
    assert_eq!(
        invocation.dispatched,
        vec![expected_blocking(fee, Some(EntryPoint::SucceedingCallbackV1))]
    );
}

#[test]
fn blocking_async_with_failing_callback() {
    let state = ProgramState::new();
    let fee = U256::from_u64(9);
    let invocation = state.issue_token_with_failing_callback_v1(&Payment::native(fee)).unwrap();
    assert!(invocation.suspended);
    assert_eq!(
        invocation.dispatched,
        vec![expected_blocking(fee, Some(EntryPoint::FailingCallbackV1))]
    );
}

#[test]
fn two_promises_and_the_marker() {
    let state = ProgramState::new();
    let fee = U256::from_u128(50_000_000_000_000_000);
    let (invocation, marker) = state
        .issue_tokens_with_return_and_succeeding_callback_v2(&Payment::native(fee))
        .unwrap();
    assert_eq!(marker, b"call".to_vec());
    assert!(!invocation.suspended);
    assert_eq!(invocation.dispatched.len(), 2);
    assert_eq!(
        invocation.dispatched,
        vec![
            expected_promise(fee, Some(EntryPoint::SucceedingCallbackV2)),
            expected_promise(fee, Some(EntryPoint::SucceedingCallbackV2)),
        ]
    );
}

#[test]
fn issuance_forwards_the_amount_received() {
    let state = ProgramState::new();
    for amount in [U256::from_u64(1), U256 { hi: 1, lo: 0 }, U256 { hi: 3, lo: 4 }] {
        let payment = Payment::native(amount);
        let v2 = state.issue_token_without_callback_v2(&payment).unwrap();
        assert_eq!(v2.dispatched[0].call.issue_cost, amount);
        let v1 = state.issue_token_without_callback_v1(&payment).unwrap();
        assert_eq!(v1.dispatched[0].call.issue_cost, amount);
    }
}

#[test]
fn issuance_rejects_token_payments() {
    let state = ProgramState::new();
    let payment = a_token_payment();
    assert_eq!(state.issue_token_without_callback_v2(&payment), Err(WorldError::NoPayment));
    assert_eq!(
        state.issue_token_with_succeeding_callback_v2(&payment),
        Err(WorldError::NoPayment)
    );
    assert_eq!(state.issue_token_with_failing_callback_v2(&payment), Err(WorldError::NoPayment));
    assert_eq!(
        state.issue_tokens_with_return_and_succeeding_callback_v2(&payment),
        Err(WorldError::NoPayment)
    );
    assert_eq!(state.issue_token_without_callback_v1(&payment), Err(WorldError::NoPayment));
    assert_eq!(
        state.issue_token_with_succeeding_callback_v1(&payment),
        Err(WorldError::NoPayment)
    );
    assert_eq!(state.issue_token_with_failing_callback_v1(&payment), Err(WorldError::NoPayment));
    assert_eq!(WorldError::NoPayment.kind(), ErrorKind::Validation);
}

#[test]
fn issuance_fails_on_a_missing_payment() {
    let state = ProgramState::new();
    let payment = Payment::native(U256::zero());
    assert_eq!(state.issue_token_without_callback_v2(&payment), Err(WorldError::MissingPayment));
    assert_eq!(
        state.issue_token_with_succeeding_callback_v2(&payment),
        Err(WorldError::MissingPayment)
    );
    assert_eq!(
        state.issue_token_with_failing_callback_v2(&payment),
        Err(WorldError::MissingPayment)
    );
    assert_eq!(
        state.issue_tokens_with_return_and_succeeding_callback_v2(&payment),
        Err(WorldError::MissingPayment)
    );
    assert_eq!(state.issue_token_without_callback_v1(&payment), Err(WorldError::MissingPayment));
    assert_eq!(
        state.issue_token_with_succeeding_callback_v1(&payment),
        Err(WorldError::MissingPayment)
    );
    assert_eq!(
        state.issue_token_with_failing_callback_v1(&payment),
        Err(WorldError::MissingPayment)
    );
    assert_eq!(WorldError::MissingPayment.kind(), ErrorKind::Validation);
    assert_eq!(WorldError::MissingPayment.message(), "Payment is missing.");
}

#[test]
fn issuance_leaves_the_state() {
    let mut state = ProgramState::new();
    state.init(12);
    let before = state.clone();
    let payment = Payment::native(U256::from_u64(1));
    let _ = state.issue_token_with_succeeding_callback_v2(&payment);
    let _ = state.issue_token_with_succeeding_callback_v1(&payment);
    let _ = state.issue_tokens_with_return_and_succeeding_callback_v2(&payment);
    let _ = state.issue_token_without_callback_v1(&a_token_payment());
    let _ = state.issue_token_without_callback_v2(&Payment::native(U256::zero()));
    assert_eq!(state, before);
}

#[test]
fn issue_fungible_v2_registers_on_a_running_invocation() {
    let state = ProgramState::new();
    let mut invocation = Invocation::new();
    state.issue_fungible_v2(&mut invocation, U256::from_u64(1), None);
    state.issue_fungible_v2(&mut invocation, U256::from_u64(2), Some(CallbackKind::Failing));
    state.issue_fungible_v2(&mut invocation, U256::from_u64(3), Some(CallbackKind::Succeeding));
    assert!(!invocation.suspended);
    assert_eq!(
        invocation.dispatched,
        vec![
            expected_promise(U256::from_u64(1), None),
            expected_promise(U256::from_u64(2), Some(EntryPoint::FailingCallbackV2)),
            expected_promise(U256::from_u64(3), Some(EntryPoint::SucceedingCallbackV2)),
        ]
    );
}

#[test]
fn issue_fungible_v1_ends_a_running_invocation() {
    let state = ProgramState::new();
    let mut invocation = Invocation::new();
    state.issue_fungible_v2(&mut invocation, U256::from_u64(1), None);
    state.issue_fungible_v1(&mut invocation, U256::from_u64(2), Some(CallbackKind::Succeeding));
    assert!(invocation.suspended);
    assert_eq!(
        invocation.dispatched,
        vec![
            expected_promise(U256::from_u64(1), None),
            expected_blocking(U256::from_u64(2), Some(EntryPoint::SucceedingCallbackV1)),
        ]
    );
}

#[test]
fn new_invocation_is_empty_and_running() {
    let invocation = Invocation::new();
    assert_eq!(invocation, Invocation { dispatched: vec![], suspended: false });
}

#[test]
fn dispatch_records_calls_in_order() {
    let state = ProgramState::new();
    let mut invocation = Invocation::new();
    let first = PendingCall::new(
        CallingConvention::Promise,
        state.issue_fungible(U256::from_u64(1)),
        None,
    );
    let second = PendingCall::new(
        CallingConvention::BlockingAsync,
        state.issue_fungible(U256::from_u64(2)),
        Some(CallbackKind::Failing),
    );
    invocation.dispatch(first.clone());
    assert!(!invocation.suspended);
    invocation.dispatch(second.clone());
    assert!(invocation.suspended);
    assert_eq!(invocation.dispatched, vec![first, second]);
}

#[test]
fn pending_call_of_each_convention() {
    let call = ProgramState::new().issue_fungible(U256::from_u64(4));
    let promise =
        PendingCall::new(CallingConvention::Promise, call.clone(), Some(CallbackKind::Failing));
    assert_eq!(promise.convention, CallingConvention::Promise);
    assert_eq!(promise.gas_limit, Some(50_000_000));
    assert_eq!(promise.callback, Some(EntryPoint::FailingCallbackV2));
    assert_eq!(promise.call, call);
    let blocking = PendingCall::new(CallingConvention::BlockingAsync, call.clone(), None);
    assert_eq!(blocking.convention, CallingConvention::BlockingAsync);
    assert_eq!(blocking.gas_limit, None);
    assert_eq!(blocking.callback, None);
    assert_eq!(blocking.call, call);
}

#[test]
fn entry_points() {
    let all = [
        (EntryPoint::SucceedingCallbackV1, CallingConvention::BlockingAsync, CallbackKind::Succeeding, "succeeding_callback_v1"),
        (EntryPoint::SucceedingCallbackV2, CallingConvention::Promise, CallbackKind::Succeeding, "succeeding_callback_v2"),
        (EntryPoint::FailingCallbackV1, CallingConvention::BlockingAsync, CallbackKind::Failing, "failing_callback_v1"),
        (EntryPoint::FailingCallbackV2, CallingConvention::Promise, CallbackKind::Failing, "failing_callback_v2"),
    ];
    for (entry, convention, kind, name) in all {
        assert_eq!(entry.convention(), convention);
        assert_eq!(entry.kind(), kind);
        assert_eq!(entry.name(), name);
        assert_eq!(EntryPoint::of(convention, kind), entry);
    }
}
