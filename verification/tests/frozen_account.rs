use freeze_authority::account::{Account, AccountId, AccountWithMetadata};
use freeze_authority::config::FreezeConfig;
use freeze_authority::errors::FreezeError;
use freeze_authority::frozen_account::FrozenAccountState;

fn acct(id_byte: u8, signed: bool) -> AccountWithMetadata {
    AccountWithMetadata {
        account: Account::default(),
        is_authorized: signed,
        account_id: AccountId::new([id_byte; 32]),
    }
}

fn per_account_with(is_frozen: bool) -> AccountWithMetadata {
    let state = FrozenAccountState { is_frozen };
    AccountWithMetadata {
        account: Account { data: state.encode().unwrap(), ..Account::default() },
        is_authorized: false,
        account_id: AccountId::new([7; 32]),
    }
}

#[test]
fn from_data_or_default_empty_yields_default_unfrozen() {
    let data: [u8; 0] = [];
    let state = FrozenAccountState::from_data_or_default(&data)
        .expect("empty bytes must decode cleanly to default");
    assert!(!state.is_frozen);
}

#[test]
fn from_data_or_default_decodes_valid_frozen() {
    let data: [u8; 1] = [1; 1];
    let state = FrozenAccountState::from_data_or_default(&data)
        .expect("byte 1 must decode cleanly to true");
    assert!(state.is_frozen);
}

#[test]
fn from_data_or_default_decodes_valid_unfrozen() {
    let data: [u8; 1] = [0; 1];
    let state = FrozenAccountState::from_data_or_default(&data)
        .expect("byte 0 must decode cleanly to false");
    assert!(!state.is_frozen);
}

#[test]
fn from_data_or_default_malformed_errors() {
    let data: [u8; 1] = [9; 1];
    let err = FrozenAccountState::from_data_or_default(&data)
        .expect_err("malformed bytes must not decode cleanly");
    assert_eq!(err, FreezeError::DecodingFailed);
}

#[test]
fn from_data_or_default_rejects_trailing_bytes() {
    assert_eq!(
        FrozenAccountState::from_data_or_default(&[1, 0]).unwrap_err(),
        FreezeError::DecodingFailed
    );
    assert!(borsh::from_slice::<bool>(&[1, 0]).is_err());
}

#[test]
fn marker_encode_matches_borsh_layout() {
    for b in [false, true] {
        let state = FrozenAccountState { is_frozen: b };
        assert_eq!(state.encode().unwrap(), borsh::to_vec(&b).unwrap());
    }
}

#[test]
fn frozen_account_state_set_is_frozen_holder_flips_flag() {
    let auth = acct(1, true);
    let cfg = FreezeConfig::initialize(auth.account_id).unwrap();
    let mut state = FrozenAccountState::default();
    state.set_is_frozen(&cfg, &auth, true).unwrap();
    assert!(state.is_frozen);
    state.set_is_frozen(&cfg, &auth, false).unwrap();
    assert!(!state.is_frozen);
}

#[test]
fn frozen_account_state_set_is_frozen_rejects_non_holder() {
    let auth = acct(1, true);
    let other = acct(2, true);
    let cfg = FreezeConfig::initialize(auth.account_id).unwrap();
    let mut state = FrozenAccountState::default();
    assert_eq!(
        state.set_is_frozen(&cfg, &other, true).unwrap_err(),
        FreezeError::NotFreezeAuthority
    );
    assert!(!state.is_frozen);
}

#[test]
fn frozen_account_state_perform_freeze_holder_flips_flag() {
    let auth = acct(1, true);
    let cfg = FreezeConfig::initialize(auth.account_id).unwrap();
    let mut per_account = acct(7, false);
    FrozenAccountState::perform_freeze(&cfg, &mut per_account, &auth).unwrap();
    let decoded = FrozenAccountState::from_account(&per_account).unwrap();
    assert!(decoded.is_frozen);
}

#[test]
fn frozen_account_state_perform_release_holder_clears_flag() {
    let auth = acct(1, true);
    let cfg = FreezeConfig::initialize(auth.account_id).unwrap();
    let mut per_account = per_account_with(true);
    FrozenAccountState::perform_release(&cfg, &mut per_account, &auth).unwrap();
    let decoded = FrozenAccountState::from_account(&per_account).unwrap();
    assert!(!decoded.is_frozen);
}

#[test]
fn frozen_account_state_write_to_rejects_oversized_data() {
    // The one-byte form always fits an account.
    let mut account = per_account_with(false);
    account.account.data = vec![9; 64];
    FrozenAccountState { is_frozen: true }.write_to(&mut account).unwrap();
    assert_eq!(account.account.data, vec![1]);
}

#[test]
fn perform_freeze_rejects_malformed_marker_and_keeps_it() {
    let auth = acct(1, true);
    let cfg = FreezeConfig::initialize(auth.account_id).unwrap();
    let mut marker = per_account_with(false);
    marker.account.data = vec![5];
    assert_eq!(
        FrozenAccountState::perform_freeze(&cfg, &mut marker, &auth).unwrap_err(),
        FreezeError::DecodingFailed
    );
    assert_eq!(marker.account.data, vec![5]);
}

#[test]
fn perform_freeze_rejects_renounced_authority() {
    let auth = acct(1, true);
    let cfg = FreezeConfig::vacant();
    let mut marker = acct(7, false);
    assert_eq!(
        FrozenAccountState::perform_freeze(&cfg, &mut marker, &auth).unwrap_err(),
        FreezeError::Renounced
    );
    assert!(marker.account.data.is_empty());
}
