use freeze_authority::account::{Account, AccountId, AccountWithMetadata};
use freeze_authority::admin::AdminConfig;
use freeze_authority::config::{FreezeCandidate, FreezeConfig, CONFIG_LEN};
use freeze_authority::errors::FreezeError;
use freeze_authority::slot::AuthoritySlot;

fn acct(id_byte: u8, signed: bool) -> AccountWithMetadata {
    AccountWithMetadata {
        account: Account::default(),
        is_authorized: signed,
        account_id: AccountId::new([id_byte; 32]),
    }
}

fn with_data(data: Vec<u8>, id_byte: u8) -> AccountWithMetadata {
    AccountWithMetadata {
        account: Account { data, ..Account::default() },
        is_authorized: false,
        account_id: AccountId::new([id_byte; 32]),
    }
}

fn config_account_with(cfg: &FreezeConfig) -> AccountWithMetadata {
    with_data(cfg.encode().unwrap(), 9)
}

fn admin_account_with(admin_id_byte: u8) -> AccountWithMetadata {
    with_data(vec![admin_id_byte; 32], 255)
}

fn admin_of(account: &AccountWithMetadata) -> Option<AdminConfig> {
    AdminConfig::from_account_at(account, 0).ok()
}

fn config_held_by(id_byte: u8, is_frozen: bool) -> FreezeConfig {
    let mut cfg = FreezeConfig::initialize(AccountId::new([id_byte; 32])).unwrap();
    cfg.is_frozen = is_frozen;
    cfg
}

#[test]
fn freeze_config_decode_empty_returns_not_initialized() {
    let account = AccountWithMetadata {
        account: Account::default(),
        is_authorized: false,
        account_id: AccountId::new([0; 32]),
    };
    let err = FreezeConfig::from_account(&account).unwrap_err();
    assert_eq!(err, FreezeError::NotInitialized);
}

#[test]
fn freeze_config_decode_valid_bytes_roundtrip() {
    let slot = AuthoritySlot::initialize(AccountId::new([1; 32])).unwrap();
    let cfg = FreezeConfig::initialize(slot.holder()).unwrap();
    let encoded = borsh::to_vec(&([1u8; 32], false)).unwrap();
    let account = with_data(encoded, 0);
    let decoded = FreezeConfig::from_account(&account).unwrap();
    assert_eq!(decoded, cfg);
}

#[test]
fn freeze_config_decode_malformed_errors() {
    let account = with_data(vec![0xff, 5], 0);
    let err = FreezeConfig::from_account(&account).unwrap_err();
    assert_eq!(err, FreezeError::DecodingFailed);
}

#[test]
fn initialize_rejects_default_account_id() {
    assert_eq!(
        FreezeConfig::initialize(AccountId::new([0; 32])).unwrap_err(),
        FreezeError::InvalidCandidate
    );
}

#[test]
fn assert_rejects_non_holder() {
    let authority = acct(1, true);
    let signer = &acct(2, true);
    let config = FreezeConfig::initialize(authority.account_id).unwrap();
    assert_eq!(
        config.assert_authority(signer).unwrap_err(),
        FreezeError::NotFreezeAuthority
    );
}

#[test]
fn assert_rejects_renounced_slot() {
    let authority = acct(1, true);
    let admin = admin_account_with(1);
    let mut config = FreezeConfig::initialize(authority.account_id).unwrap();
    config.renounce(admin_of(&admin).as_ref(), &authority).unwrap();
    assert_eq!(
        config.assert_authority(&authority).unwrap_err(),
        FreezeError::Renounced
    );
}

#[test]
fn assert_rejects_unauthorized_signer() {
    let authority = acct(1, false);
    let config = FreezeConfig::initialize(authority.account_id).unwrap();
    assert_eq!(
        config.assert_authority(&authority).unwrap_err(),
        FreezeError::MissingSignature
    );
}

#[test]
fn transfer_installs_signer_candidate() {
    let old = acct(1, true);
    let new = acct(2, true);
    let mut cfg = FreezeConfig::initialize(old.account_id).unwrap();
    cfg.transfer(FreezeCandidate::Signer, &new, &AccountId::new([0; 32])).unwrap();
    assert!(cfg.assert_authority(&new).is_ok());
    assert_eq!(
        cfg.assert_authority(&old).unwrap_err(),
        FreezeError::NotFreezeAuthority
    );
}

#[test]
fn transfer_rejects_unauthorized_signer_candidate() {
    let old = acct(1, true);
    let new = acct(2, false);
    let mut cfg = FreezeConfig::initialize(old.account_id).unwrap();
    assert_eq!(
        cfg.transfer(FreezeCandidate::Signer, &new, &AccountId::new([0; 32]))
            .unwrap_err(),
        FreezeError::InvalidCandidate
    );
    assert!(cfg.assert_authority(&old).is_ok());
}

#[test]
fn transfer_rejects_undeployed_pda_candidate() {
    let old = acct(1, true);
    let program_id = [1u32; 8];
    let seed = [1u8; 32];
    // The address the runtime derives from (program_id, seed).
    let derived = AccountId::new([42; 32]);
    let new = AccountWithMetadata {
        account: Account::default(),
        is_authorized: false,
        account_id: derived,
    };
    let mut cfg = FreezeConfig::initialize(old.account_id).unwrap();
    assert_eq!(
        cfg.transfer(FreezeCandidate::Pda { program_id, seed }, &new, &derived)
            .unwrap_err(),
        FreezeError::UndeployedPda
    );
}

#[test]
fn transfer_rejects_mismatched_pda_candidate() {
    let old = acct(1, true);
    let program_id = [1u32; 8];
    let seed = [1u8; 32];
    let derived = AccountId::new([42; 32]);
    let new = with_data(vec![1], 9);
    let mut cfg = FreezeConfig::initialize(old.account_id).unwrap();
    assert_eq!(
        cfg.transfer(FreezeCandidate::Pda { program_id, seed }, &new, &derived)
            .unwrap_err(),
        FreezeError::CandidateMismatch
    );
}

#[test]
fn transfer_installs_deployed_pda_candidate() {
    let old = acct(1, true);
    let derived = AccountId::new([42; 32]);
    let new = AccountWithMetadata {
        account: Account { program_owner: [3u32; 8], ..Account::default() },
        is_authorized: true,
        account_id: derived,
    };
    let mut cfg = FreezeConfig::initialize(old.account_id).unwrap();
    cfg.transfer(
        FreezeCandidate::Pda { program_id: [1u32; 8], seed: [1u8; 32] },
        &new,
        &derived,
    )
    .unwrap();
    assert_eq!(cfg.holder(), derived);
}

#[test]
fn renounce_zeros_slot() {
    let auth = acct(1, true);
    let admin = admin_account_with(1);
    let mut cfg = FreezeConfig::initialize(auth.account_id).unwrap();
    cfg.renounce(admin_of(&admin).as_ref(), &auth).unwrap();
    assert_eq!(cfg.assert_authority(&auth).unwrap_err(), FreezeError::Renounced);
    assert_eq!(cfg.holder(), AccountId::new([0; 32]));
}

#[test]
fn renounce_by_admin_without_holder_signature() {
    let holder = acct(1, true);
    let admin_signer = acct(5, true);
    let admin = admin_account_with(5);
    let mut cfg = config_held_by(1, true);
    cfg.renounce(admin_of(&admin).as_ref(), &admin_signer).unwrap();
    assert_eq!(cfg.assert_authority(&holder).unwrap_err(), FreezeError::Renounced);
    assert!(cfg.is_frozen, "renounce keeps the program-wide flag");
}

#[test]
fn renounce_without_decodable_admin_runs_the_holder_path() {
    let holder = acct(1, true);
    let stranger = acct(2, true);
    let mut cfg = config_held_by(1, false);
    assert_eq!(
        cfg.renounce(None, &stranger).unwrap_err(),
        FreezeError::NotAdminOrFreezeAuthority
    );
    cfg.renounce(None, &holder).unwrap();
    assert_eq!(cfg.holder(), AccountId::new([0; 32]));
}

#[test]
fn freeze_config_set_is_frozen_holder_flips_flag() {
    let auth = acct(1, true);
    let mut cfg = FreezeConfig::initialize(auth.account_id).unwrap();
    cfg.set_is_frozen(&auth, true).unwrap();
    assert!(cfg.is_frozen);
    cfg.set_is_frozen(&auth, false).unwrap();
    assert!(!cfg.is_frozen);
}

#[test]
fn freeze_config_set_is_frozen_rejects_non_holder() {
    let auth = acct(1, true);
    let other = acct(2, true);
    let mut cfg = FreezeConfig::initialize(auth.account_id).unwrap();
    assert_eq!(
        cfg.set_is_frozen(&other, true).unwrap_err(),
        FreezeError::NotFreezeAuthority
    );
    assert!(!cfg.is_frozen);
}

#[test]
fn freeze_config_set_is_frozen_rejects_renounced_slot() {
    let auth = acct(1, true);
    let admin = admin_account_with(1);
    let mut cfg = FreezeConfig::initialize(auth.account_id).unwrap();
    cfg.renounce(admin_of(&admin).as_ref(), &auth).unwrap();
    assert_eq!(cfg.set_is_frozen(&auth, true).unwrap_err(), FreezeError::Renounced);
    assert!(!cfg.is_frozen);
}

#[test]
fn bootstrap_writes_valid_config_to_empty_account() {
    let new_auth = acct(1, true);
    let mut config_account = acct(9, false);
    FreezeConfig::bootstrap(
        &mut config_account,
        FreezeCandidate::Signer,
        &new_auth,
        &AccountId::new([0; 32]),
    )
    .unwrap();
    let decoded = FreezeConfig::from_account(&config_account).unwrap();
    assert!(decoded.assert_authority(&new_auth).is_ok());
    assert!(!decoded.is_frozen);
}

#[test]
fn bootstrap_rejects_default_account_id() {
    let default_signer = AccountWithMetadata {
        account: Account::default(),
        is_authorized: true,
        account_id: AccountId::new([0; 32]),
    };
    let mut config_account = acct(9, false);
    assert_eq!(
        FreezeConfig::bootstrap(
            &mut config_account,
            FreezeCandidate::Signer,
            &default_signer,
            &AccountId::new([0; 32]),
        )
        .unwrap_err(),
        FreezeError::InvalidCandidate
    );
    assert!(config_account.account.data.is_empty(), "nothing written on error");
}

#[test]
fn bootstrap_at_splices_into_embedding_account() {
    let new_auth = acct(1, true);
    let mut account = with_data(vec![0xAA; 40], 9);
    FreezeConfig::bootstrap_at(
        &mut account,
        4,
        FreezeCandidate::Signer,
        &new_auth,
        &AccountId::new([0; 32]),
    )
    .unwrap();
    assert_eq!(&account.account.data[0..4], &[0xAA; 4]);
    assert_eq!(&account.account.data[4..36], &[1u8; 32]);
    assert_eq!(account.account.data[36], 0);
    assert_eq!(&account.account.data[37..40], &[0xAA; 3]);
}

#[test]
fn bootstrap_at_rejects_window_that_does_not_fit() {
    let new_auth = acct(1, true);
    let mut account = with_data(vec![0xAA; 40], 9);
    assert_eq!(
        FreezeConfig::bootstrap_at(
            &mut account,
            8,
            FreezeCandidate::Signer,
            &new_auth,
            &AccountId::new([0; 32]),
        )
        .unwrap_err(),
        FreezeError::SlotOutOfBounds
    );
    assert_eq!(account.account.data, vec![0xAA; 40]);
}

#[test]
fn freeze_config_perform_freeze_holder_flips_flag() {
    let auth = acct(1, true);
    let cfg = FreezeConfig::initialize(auth.account_id).unwrap();
    let mut config_account = config_account_with(&cfg);
    FreezeConfig::perform_freeze(&mut config_account, &auth).unwrap();
    let decoded = FreezeConfig::from_account(&config_account).unwrap();
    assert!(decoded.is_frozen);
}

#[test]
fn freeze_config_perform_release_holder_clears_flag() {
    let auth = acct(1, true);
    let cfg = config_held_by(1, true);
    let mut config_account = config_account_with(&cfg);
    FreezeConfig::perform_release(&mut config_account, &auth).unwrap();
    let decoded = FreezeConfig::from_account(&config_account).unwrap();
    assert!(!decoded.is_frozen);
}

#[test]
fn perform_transfer_preserves_is_frozen_flag() {
    let old = acct(1, true);
    let new = acct(2, true);
    let cfg = config_held_by(1, true);
    let mut config_account = config_account_with(&cfg);
    FreezeConfig::perform_transfer(
        &mut config_account,
        FreezeCandidate::Signer,
        &new,
        &AccountId::new([0; 32]),
    )
    .unwrap();
    let decoded = FreezeConfig::from_account(&config_account).unwrap();
    assert!(
        decoded.is_frozen,
        "transfer must not clear the program-wide frozen flag"
    );
    assert!(decoded.assert_authority(&new).is_ok());
    assert!(decoded.assert_authority(&old).is_err());
}

#[test]
fn perform_renounce_zeros_slot() {
    let auth = acct(1, true);
    let admin = admin_account_with(1);
    let cfg = FreezeConfig::initialize(auth.account_id).unwrap();
    let mut config_account = config_account_with(&cfg);
    FreezeConfig::perform_renounce(admin_of(&admin).as_ref(), &auth, &mut config_account).unwrap();
    let decoded = FreezeConfig::from_account(&config_account).unwrap();
    assert_eq!(decoded.assert_authority(&auth).unwrap_err(), FreezeError::Renounced);
}

#[test]
fn uninitialised_freeze_config_fails_decode_before_the_gate() {
    let freeze_config = acct(9, false);
    assert_eq!(
        FreezeConfig::from_account(&freeze_config).unwrap_err(),
        FreezeError::NotInitialized
    );
}

#[test]
fn freeze_config_write_to_rejects_oversized_data() {
    // The 33-byte form always fits an account: writing never reports
    // `AccountDataTooLarge`.
    let cfg = config_held_by(1, true);
    let mut account = with_data(vec![7; 100], 9);
    cfg.write_to(&mut account).unwrap();
    assert_eq!(account.account.data.len(), CONFIG_LEN);
}

#[test]
fn perform_renounce_rejects_unauthorized_caller() {
    let auth = acct(1, true);
    let stranger = acct(2, true);
    let admin = admin_account_with(1);
    let cfg = FreezeConfig::initialize(auth.account_id).unwrap();
    let mut config_account = config_account_with(&cfg);
    let err = FreezeConfig::perform_renounce(
        admin_of(&admin).as_ref(),
        &stranger,
        &mut config_account,
    )
    .unwrap_err();
    assert_eq!(err, FreezeError::NotAdminOrFreezeAuthority);
    let decoded = FreezeConfig::from_account(&config_account).unwrap();
    assert!(decoded.assert_authority(&auth).is_ok());
}

#[test]
fn config_encode_matches_borsh_layout() {
    for frozen in [false, true] {
        let cfg = config_held_by(0x5A, frozen);
        let expected = borsh::to_vec(&([0x5Au8; 32], frozen)).unwrap();
        assert_eq!(cfg.encode().unwrap(), expected);
    }
}

#[test]
fn decode_rejects_trailing_and_short_and_bad_flag() {
    let mut long = vec![1u8; 32];
    long.extend([0, 0]);
    assert_eq!(FreezeConfig::decode(&long).unwrap_err(), FreezeError::DecodingFailed);
    assert_eq!(FreezeConfig::decode(&[1u8; 32]).unwrap_err(), FreezeError::DecodingFailed);
    let mut bad = vec![1u8; 32];
    bad.push(2);
    assert_eq!(FreezeConfig::decode(&bad).unwrap_err(), FreezeError::DecodingFailed);
    assert!(borsh::from_slice::<([u8; 32], bool)>(&bad).is_err());
}

#[test]
fn decode_at_three_way_discrimination() {
    assert_eq!(FreezeConfig::decode_at(&[], 5).unwrap_err(), FreezeError::NotInitialized);
    assert_eq!(FreezeConfig::decode_at(&[0u8; 40], 8).unwrap_err(), FreezeError::SlotOutOfBounds);
    assert_eq!(FreezeConfig::decode_at(&[0u8; 32], 0).unwrap_err(), FreezeError::SlotOutOfBounds);
    let mut data = vec![0xAA; 4];
    data.extend([3u8; 32]);
    data.push(7);
    assert_eq!(FreezeConfig::decode_at(&data, 4).unwrap_err(), FreezeError::DecodingFailed);
    data[36] = 1;
    data.push(0xBB);
    let cfg = FreezeConfig::decode_at(&data, 4).unwrap();
    assert_eq!(cfg.holder(), AccountId::new([3; 32]));
    assert!(cfg.is_frozen);
}

#[test]
fn decode_at_huge_offset_is_out_of_bounds() {
    assert_eq!(
        FreezeConfig::decode_at(&[0u8; 40], usize::MAX).unwrap_err(),
        FreezeError::SlotOutOfBounds
    );
}

#[test]
fn write_to_at_keeps_neighbours() {
    let cfg = config_held_by(3, true);
    let mut account = with_data(vec![0xAA; 50], 9);
    cfg.write_to_at(&mut account, 10).unwrap();
    assert_eq!(&account.account.data[..10], &[0xAA; 10]);
    assert_eq!(&account.account.data[10..42], &[3u8; 32]);
    assert_eq!(account.account.data[42], 1);
    assert_eq!(&account.account.data[43..], &[0xAA; 7]);
    assert_eq!(FreezeConfig::from_account_at(&account, 10).unwrap(), cfg);
}

#[test]
fn write_to_at_out_of_bounds_writes_nothing() {
    let cfg = config_held_by(3, true);
    let mut account = with_data(vec![0xAA; 40], 9);
    assert_eq!(cfg.write_to_at(&mut account, 8).unwrap_err(), FreezeError::SlotOutOfBounds);
    assert_eq!(account.account.data, vec![0xAA; 40]);
}

#[test]
fn vacant_window_decodes_as_renounced() {
    let data = vec![0u8; 33];
    let cfg = FreezeConfig::decode(&data).unwrap();
    assert_eq!(cfg, FreezeConfig::vacant());
    assert_eq!(cfg.assert_authority(&acct(4, true)).unwrap_err(), FreezeError::Renounced);
}

#[test]
fn perform_freeze_at_rejects_non_holder_and_leaves_bytes() {
    let cfg = config_held_by(1, false);
    let mut data = vec![0xAA; 8];
    data.extend(cfg.encode().unwrap());
    let mut account = with_data(data.clone(), 9);
    assert_eq!(
        FreezeConfig::perform_freeze_at(&mut account, 8, &acct(2, true)).unwrap_err(),
        FreezeError::NotFreezeAuthority
    );
    assert_eq!(account.account.data, data);
    FreezeConfig::perform_freeze_at(&mut account, 8, &acct(1, true)).unwrap();
    assert!(FreezeConfig::from_account_at(&account, 8).unwrap().is_frozen);
    FreezeConfig::perform_release_at(&mut account, 8, &acct(1, true)).unwrap();
    assert_eq!(account.account.data, data, "release undoes freeze byte for byte");
}
