use freeze_authority::account::{Account, AccountId, AccountWithMetadata};
use freeze_authority::admin::AdminConfig;
use freeze_authority::config::{FreezeCandidate, FreezeConfig};
use freeze_authority::freeze_authority_renounce;

// Consumer layout: value 0..8, padding 8..32, admin slot 32..64,
// freeze window 64..97.

fn acct(id_byte: u8, signed: bool) -> AccountWithMetadata {
    AccountWithMetadata {
        account: Account::default(),
        is_authorized: signed,
        account_id: AccountId::new([id_byte; 32]),
    }
}

/// The consumer's account as its initialize writes it: value 7, padding,
/// the admin slot held by `admin`, the freeze window born vacant.
fn shared_account(admin: &AccountWithMetadata) -> AccountWithMetadata {
    let mut data = 7u64.to_le_bytes().to_vec();
    data.extend([0xAB; 24]);
    data.extend(admin.account_id.0);
    data.extend([0u8; 33]);
    AccountWithMetadata {
        account: Account { data, ..Account::default() },
        is_authorized: false,
        account_id: AccountId::new([9; 32]),
    }
}

fn value_of(account: &AccountWithMetadata) -> u64 {
    u64::from_le_bytes(account.account.data[0..8].try_into().unwrap())
}

const NO_PDA: AccountId = AccountId([0; 32]);

#[test]
fn freeze_toggle_preserves_admin_window() {
    let admin = acct(1, true);
    let holder = acct(3, true);
    let mut config_account = shared_account(&admin);
    FreezeConfig::perform_transfer_at(&mut config_account, 64, FreezeCandidate::Signer, &holder, &NO_PDA)
        .expect("appoint");
    FreezeConfig::perform_freeze_at(&mut config_account, 64, &holder).expect("freeze");

    let freeze = FreezeConfig::from_account_at(&config_account, 64).expect("decode");
    assert!(freeze.is_frozen);
    let admin_cfg = AdminConfig::from_account_at(&config_account, 32).expect("decode");
    assert!(
        admin_cfg.assert_admin(&admin).is_ok(),
        "admin window trampled by the freeze toggle"
    );
    assert_eq!(value_of(&config_account), 7);
    assert_eq!(&config_account.account.data[8..32], &[0xAB; 24]);
}

#[test]
fn freeze_slot_is_born_vacant_until_admin_appoints() {
    let admin = acct(1, true);
    let anyone = acct(4, true);
    let mut config_account = shared_account(&admin);

    let freeze = FreezeConfig::from_account_at(&config_account, 64).expect("decode");
    assert!(freeze.assert_authority(&anyone).is_err(), "born vacant slot must reject");

    FreezeConfig::perform_transfer_at(&mut config_account, 64, FreezeCandidate::Signer, &anyone, &NO_PDA)
        .expect("admin appoints");
    let freeze = FreezeConfig::from_account_at(&config_account, 64).expect("decode");
    assert!(freeze.assert_authority(&anyone).is_ok());
}

#[test]
fn shared_account_renounce_emits_single_post_state() {
    let admin = acct(1, true);
    let holder = acct(3, true);
    let mut config_account = shared_account(&admin);
    FreezeConfig::perform_transfer_at(&mut config_account, 64, FreezeCandidate::Signer, &holder, &NO_PDA)
        .expect("appoint");

    let out = freeze_authority_renounce(config_account.clone(), config_account, holder, 64, 32)
        .expect("renounce");
    assert_eq!(
        out.post_states.len(),
        2,
        "shared account must collapse to one post-state"
    );
}

#[test]
fn renounce_in_shared_account_keeps_neighbours() {
    let admin = acct(1, true);
    let holder = acct(3, true);
    let mut config_account = shared_account(&admin);
    FreezeConfig::perform_transfer_at(&mut config_account, 64, FreezeCandidate::Signer, &holder, &NO_PDA)
        .unwrap();
    let before = config_account.account.data.clone();
    let out = freeze_authority_renounce(config_account.clone(), config_account, admin, 64, 32).unwrap();
    let after = &out.post_states[0].account().data;
    assert_eq!(after.len(), before.len());
    assert_eq!(&after[..64], &before[..64]);
    assert_eq!(&after[64..96], &[0u8; 32]);
    assert_eq!(after[96], before[96]);
}
