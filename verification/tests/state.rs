use world::payment::TokenId;
use world::ProgramState;
use world::World;

fn tok(bytes: &[u8]) -> TokenId {
    TokenId { bytes: bytes.to_vec() }
}

#[test]
fn fresh_state_reads_zero_and_no_token() {
    let state = ProgramState::new();
    assert_eq!(state.n(), 0);
    assert_eq!(state.token(), None);
    assert_eq!(state, ProgramState { counter: 0, token_handle: None });
}

#[test]
fn storage_keys_are_n_and_token() {
    assert_eq!(ProgramState::counter_key(), "n");
    assert_eq!(ProgramState::token_key(), "token");
}

#[test]
fn init_sets_counter() {
    let mut state = ProgramState::new();
    state.init(7);
    assert_eq!(state.n(), 7);
    assert_eq!(state.counter, 7);
}

#[test]
fn init_then_multiply_is_exact_product() {
    let cases: [(u64, u64, u64); 6] = [
        (7, 6, 42),
        (0, 12345, 0),
        (12345, 0, 0),
        (1, u64::MAX, u64::MAX),
        (u64::MAX, 1, u64::MAX),
        (4_294_967_296, 4_294_967_295, 18_446_744_069_414_584_320),
    ];
    for (n, x, expected) in cases {
        let mut state = ProgramState::new();
        state.init(n);
        assert_eq!(state.multiply_by_n(x), expected);
    }
}

#[test]
fn init_overwrites_whatever_was_there() {
    let mut state = ProgramState { counter: 99, token_handle: None };
    state.init(3);
    assert_eq!(state.multiply_by_n(5), 15);
}

#[test]
fn upgrade_has_the_effect_of_init() {
    let mut upgraded = ProgramState { counter: 5, token_handle: Some(tok(b"TEST-123456")) };
    let mut initialized = upgraded.clone();
    upgraded.upgrade(11);
    initialized.init(11);
    assert_eq!(upgraded, initialized);
    assert_eq!(upgraded.multiply_by_n(3), 33);
}

#[test]
fn init_and_upgrade_keep_the_token_handle() {
    let mut state = ProgramState { counter: 5, token_handle: Some(tok(b"TEST-123456")) };
    state.init(1);
    assert_eq!(state.token(), Some(&tok(b"TEST-123456")));
    state.upgrade(2);
    assert_eq!(state.token(), Some(&tok(b"TEST-123456")));
    state.set_n(3);
    assert_eq!(state.token(), Some(&tok(b"TEST-123456")));
}

#[test]
fn set_n_then_multiply_uses_the_new_counter() {
    let mut state = ProgramState::new();
    state.init(2);
    assert_eq!(state.multiply_by_n(10), 20);
    state.set_n(3);
    assert_eq!(state.multiply_by_n(10), 30);
    state.set_n(0);
    assert_eq!(state.multiply_by_n(10), 0);
    state.set_n(5);
    state.set_n(9);
    assert_eq!(state.multiply_by_n(10), 90);
    assert_eq!(state.n(), 9);
}

#[test]
fn multiply_wraps_around_on_overflow() {
    let mut state = ProgramState::new();
    state.init(2);
    assert_eq!(state.multiply_by_n(1 << 63), 0);
    assert_eq!(state.multiply_by_n((1 << 63) + 1), 2);
    state.set_n(u64::MAX);
    assert_eq!(state.multiply_by_n(u64::MAX), 1);
    assert_eq!(state.multiply_by_n(2), u64::MAX - 1);
}

#[test]
fn multiply_does_not_change_the_state() {
    let mut state = ProgramState::new();
    state.init(4);
    let before = state.clone();
    let _ = state.multiply_by_n(4);
    assert_eq!(state, before);
}

#[test]
fn set_token_sets_the_handle_and_keeps_the_counter() {
    let mut state = ProgramState::new();
    state.init(8);
    state.set_token(tok(b"TEST-abcdef"));
    assert_eq!(state.token(), Some(&tok(b"TEST-abcdef")));
    assert_eq!(state.n(), 8);
    state.set_token(tok(b"OTHER-000001"));
    assert_eq!(state.token(), Some(&tok(b"OTHER-000001")));
}
