use world::amount::U256;
use world::call::CallOutcome;
use world::error::WorldError;
use world::payment::{Currency, Payment, TokenId, TokenPayment};
use world::ProgramState;
use world::World;

fn transfer(token: &[u8], nonce: u64, amount: u64) -> TokenPayment {
    TokenPayment { token: TokenId { bytes: token.to_vec() }, nonce, amount: U256::from_u64(amount) }
}

#[test]
fn nothing_attached_is_native_zero() {
    let payment = Payment::attached(U256::zero(), vec![]);
    assert_eq!(payment, Payment { currency: Currency::Native, amount: U256::zero() });
}

#[test]
fn nothing_attached_is_a_missing_payment() {
    let state = ProgramState::new();
    let payment = Payment::attached(U256::zero(), vec![]);
    assert_eq!(state.get_value(&payment), Err(WorldError::MissingPayment));
    assert_eq!(state.issue_token_without_callback_v2(&payment), Err(WorldError::MissingPayment));
    assert_eq!(state.fund(&payment), Ok(()));
}

#[test]
fn native_amount_attached() {
    let payment = Payment::attached(U256::from_u64(12), vec![]);
    assert_eq!(payment, Payment::native(U256::from_u64(12)));
}

#[test]
fn token_transfer_attached() {
    let payment = Payment::attached(U256::zero(), vec![transfer(b"TEST-123456", 0, 3)]);
    assert_eq!(
        payment,
        Payment::token(TokenId { bytes: b"TEST-123456".to_vec() }, U256::from_u64(3))
    );
    assert_eq!(ProgramState::new().get_value(&payment), Err(WorldError::NoPayment));
    assert_eq!(ProgramState::new().fund(&payment), Ok(()));
}

#[test]
fn first_of_several_transfers_stands_for_the_payment() {
    let payment = Payment::attached(
        U256::zero(),
        vec![transfer(b"FIRST-000001", 0, 1), transfer(b"SECOND-000002", 5, 2)],
    );
    assert_eq!(
        payment,
        Payment::token(TokenId { bytes: b"FIRST-000001".to_vec() }, U256::from_u64(1))
    );
}

#[test]
fn single_fungible_payment_tells_success() {
    let outcome = CallOutcome::from_payments(vec![transfer(b"TEST-123456", 0, 1)]);
    assert_eq!(
        outcome,
        CallOutcome::Success {
            token: TokenId { bytes: b"TEST-123456".to_vec() },
            amount: U256::from_u64(1),
        }
    );
}

#[test]
fn no_payment_tells_failure() {
    assert_eq!(
        CallOutcome::from_payments(vec![]),
        CallOutcome::Failure { reason: "incorrect number of ESDT transfers".to_string() }
    );
}

#[test]
fn several_payments_tell_failure() {
    let payments = vec![transfer(b"TEST-123456", 0, 1), transfer(b"TEST-123456", 0, 1)];
    assert_eq!(
        CallOutcome::from_payments(payments),
        CallOutcome::Failure { reason: "incorrect number of ESDT transfers".to_string() }
    );
}

#[test]
fn payment_of_a_non_fungible_token_tells_failure() {
    assert_eq!(
        CallOutcome::from_payments(vec![transfer(b"NFT-123456", 1, 1)]),
        CallOutcome::Failure { reason: "fungible ESDT token expected".to_string() }
    );
}

#[test]
fn callback_on_attached_payments() {
    let state = ProgramState::new();
    let issued = CallOutcome::from_payments(vec![transfer(b"TEST-123456", 0, 1)]);
    assert_eq!(
        state.succeeding_callback_v2(issued),
        Ok((TokenId { bytes: b"TEST-123456".to_vec() }, U256::from_u64(1)))
    );
    let nothing = CallOutcome::from_payments(vec![]);
    let failure = state.succeeding_callback_v1(nothing).unwrap_err();
    assert_eq!(failure.message(), "incorrect number of ESDT transfers");
    let failing = state.failing_callback_v2(&CallOutcome::from_payments(vec![])).unwrap_err();
    assert_eq!(failing.message(), "Fail");
}
