//! Freeze authority library: a program-wide frozen flag and a
//! per-account blocklist, both managed by a single freeze authority whose
//! slot is governed by the admin.
//!
//! - `FreezeConfig` (the freeze authority slot plus the program-wide
//!   flag) and `FrozenAccountState` (the per-account flag).
//! - `require_not_frozen`, the freeze check every non-exempt instruction runs
//!   first.
//! - Seven management instructions: `freeze_initialize`,
//!   `freeze_authority_transfer`, `freeze_authority_renounce`,
//!   `freeze_program`, `freeze_program_release`, `freeze_account`,
//!   `freeze_account_release`.
use vstd::prelude::*;

pub mod account;
pub mod admin;
pub mod config;
pub mod errors;
pub mod frozen_account;
pub mod laws;
pub mod slot;

use crate::account::{
    is_default_owner, zero_id, Account, AccountId, AccountWithMetadata, InstructionOutput, PdaClaim, PostState,
};
use crate::admin::{admin_check, admin_decode_at, AdminConfig};
use crate::config::{
    config_decode_at, config_window, freeze_check, renounce_at, resolve_candidate,
    transfer_at, FreezeCandidate, FreezeConfig,
};
use crate::errors::{admin_to_freeze, FreezeError};
use crate::frozen_account::{marker_decode, marker_set, FrozenAccountState};
use crate::slot::{splice, AuthorityCandidate};

verus! {

/// A post-state with no claim, in spec form.
pub open spec fn unclaimed(a: Account) -> PostState {
    PostState { account: a, claim: None }
}

/// `after` is `before` with its data replaced by `data`.
pub open spec fn record_with_data(before: Account, after: Account, data: Seq<u8>) -> bool {
    &&& after.program_owner == before.program_owner
    &&& after.balance == before.balance
    &&& after.nonce == before.nonce
    &&& after.data@ == data
}

/// What the freeze check returns: the program-wide config at `offset` must decode
/// and not be frozen, then the caller's marker must decode (leniently)
/// and not be frozen.
pub open spec fn not_frozen_outcome(config_data: Seq<u8>, offset: int, marker_data: Seq<u8>) -> Result<
    (),
    FreezeError,
> {
    match config_decode_at(config_data, offset) {
        Err(e) => Err(e),
        Ok((_, frozen)) => if frozen {
            Err(FreezeError::Frozen)
        } else {
            match marker_decode(marker_data) {
                Err(e) => Err(e),
                Ok(m) => if m {
                    Err(FreezeError::AccountFrozen)
                } else {
                    Ok(())
                },
            }
        },
    }
}

/// The admin check of an instruction: the admin slot at `admin_offset`
/// of `admin_data` must decode and accept `caller`.
pub open spec fn admin_outcome(admin_data: Seq<u8>, admin_offset: int, caller: AccountWithMetadata) -> Result<
    (),
    FreezeError,
> {
    match admin_decode_at(admin_data, admin_offset) {
        Err(e) => Err(admin_to_freeze(e)),
        Ok(a) => match admin_check(a, caller) {
            Err(e) => Err(admin_to_freeze(e)),
            Ok(()) => Ok(()),
        },
    }
}

/// The admin slot at `admin_offset`, when it decodes.
pub open spec fn admin_if_decodable(admin_data: Seq<u8>, admin_offset: int) -> Option<Seq<u8>> {
    match admin_decode_at(admin_data, admin_offset) {
        Ok(a) => Some(a),
        Err(_) => None,
    }
}

/// Whether an account already exists, i.e. differs from the default
/// account: it holds data, a program has claimed it, or its balance or
/// nonce is not zero.
pub open spec fn account_exists(a: Account) -> bool {
    ||| a.data@.len() != 0
    ||| !is_default_owner(a.program_owner@)
    ||| a.balance != 0
    ||| a.nonce != 0
}

/// The new freeze config data written by `freeze_initialize`: the admin
/// check first, then an existing config is refused with
/// `AlreadyInitialized`, then the caller must be a valid signer
/// candidate.
pub open spec fn initialize_outcome(
    admin_data: Seq<u8>,
    caller: AccountWithMetadata,
    freeze_config: Account,
) -> Result<Seq<u8>, FreezeError> {
    match admin_outcome(admin_data, 0, caller) {
        Err(e) => Err(e),
        Ok(()) => if account_exists(freeze_config) {
            Err(FreezeError::AlreadyInitialized)
        } else {
            match resolve_candidate(AuthorityCandidate::Signer, caller, zero_id()) {
                Err(e) => Err(e),
                Ok(id) => Ok(config_window(id, false)),
            }
        },
    }
}

/// The config data written by the program-wide freeze (`state` true) or
/// release (`state` false) instruction: decode the window, check the
/// holder, then refuse a flag that already has the requested value with
/// `AlreadyFrozen` (freeze) or `NotFrozen` (release).
pub open spec fn program_flag_outcome(
    data: Seq<u8>,
    offset: int,
    caller: AccountWithMetadata,
    state: bool,
) -> Result<Seq<u8>, FreezeError> {
    match config_decode_at(data, offset) {
        Err(e) => Err(e),
        Ok((holder, frozen)) => match freeze_check(holder, caller) {
            Err(e) => Err(e),
            Ok(()) => if frozen == state {
                Err(
                    if state {
                        FreezeError::AlreadyFrozen
                    } else {
                        FreezeError::NotFrozen
                    },
                )
            } else {
                Ok(splice(data, offset, config_window(holder, state)))
            },
        },
    }
}

/// The config data written by `freeze_authority_transfer`.
pub open spec fn transfer_outcome(
    admin_data: Seq<u8>,
    admin_offset: int,
    caller: AccountWithMetadata,
    config_data: Seq<u8>,
    offset: int,
    candidate: AuthorityCandidate,
    evidence: AccountWithMetadata,
    derived_address: Seq<u8>,
) -> Result<Seq<u8>, FreezeError> {
    match admin_outcome(admin_data, admin_offset, caller) {
        Err(e) => Err(e),
        Ok(()) => transfer_at(config_data, offset, candidate, evidence, derived_address),
    }
}

/// The marker data written by `freeze_account`.
pub open spec fn account_freeze_outcome(
    config_data: Seq<u8>,
    offset: int,
    marker_data: Seq<u8>,
    caller: AccountWithMetadata,
) -> Result<Seq<u8>, FreezeError> {
    match config_decode_at(config_data, offset) {
        Err(e) => Err(e),
        Ok((holder, _)) => marker_set(marker_data, holder, caller, true),
    }
}

/// The marker data written by `freeze_account_release`: as for a
/// freeze, but a target that is not currently frozen is refused with
/// `AccountNotFrozen` once the caller has been accepted.
pub open spec fn account_release_outcome(
    config_data: Seq<u8>,
    offset: int,
    marker_data: Seq<u8>,
    caller: AccountWithMetadata,
) -> Result<Seq<u8>, FreezeError> {
    match config_decode_at(config_data, offset) {
        Err(e) => Err(e),
        Ok((holder, _)) => match marker_decode(marker_data) {
            Err(e) => Err(e),
            Ok(frozen) => match freeze_check(holder, caller) {
                Err(e) => Err(e),
                Ok(()) => if !frozen {
                    Err(FreezeError::AccountNotFrozen)
                } else {
                    marker_set(marker_data, holder, caller, false)
                },
            },
        },
    }
}

/// The freeze check: rejects with `Frozen` when the program-wide flag (in the
/// config window at `offset`, 0 for a dedicated config account) is set,
/// and with `AccountFrozen` when the caller's marker is set. A missing
/// config is `NotInitialized`; a missing marker reads as not frozen.
pub fn require_not_frozen(
    freeze_config: &AccountWithMetadata,
    freeze_account: &AccountWithMetadata,
    offset: usize,
) -> (r: Result<(), FreezeError>)
    ensures
        r == not_frozen_outcome(freeze_config.account.data@, offset as int, freeze_account.account.data@),
{
    let cfg = match FreezeConfig::from_account_at(freeze_config, offset) {
        Ok(c) => c,
        Err(e) => return Err(e),
    };
    if cfg.frozen() {
        return Err(FreezeError::Frozen);
    }
    let marker = match FrozenAccountState::from_data_or_default(freeze_account.account.data.as_slice()) {
        Ok(m) => m,
        Err(e) => return Err(e),
    };
    if marker.is_frozen {
        return Err(FreezeError::AccountFrozen);
    }
    Ok(())
}

/// Post-states for a fn that reads one account and writes another: when
/// both arrived as copies of one shared account (same identity) only the
/// written copy is handed back, since the runtime accepts one post-state
/// per account.
pub fn post_state_pair(read: AccountWithMetadata, written: AccountWithMetadata) -> (r: Vec<PostState>)
    ensures
        read.account_id@ == written.account_id@ ==> r@ == seq![unclaimed(written.account)],
        read.account_id@ != written.account_id@ ==> r@ == seq![
            unclaimed(read.account),
            unclaimed(written.account),
        ],
{
    if read.account_id.same_as(&written.account_id) {
        let mut v = Vec::new();
        v.push(PostState::unclaimed(written.account));
        v
    } else {
        let mut v = Vec::new();
        v.push(PostState::unclaimed(read.account));
        v.push(PostState::unclaimed(written.account));
        v
    }
}

/// Creates the dedicated freeze config and makes the caller its first
/// freeze authority. The caller must be the current admin (the admin
/// slot of `admin_config` at offset 0) and must have signed. A config
/// account that already exists (differs from the default account in
/// data, owner, balance or nonce) is refused
/// with `AlreadyInitialized` and left as it was. The config account is
/// handed back with a claim on the freeze config address.
pub fn freeze_initialize(
    admin_config: AccountWithMetadata,
    caller: AccountWithMetadata,
    freeze_config: AccountWithMetadata,
) -> (r: Result<InstructionOutput, FreezeError>)
    ensures
        match initialize_outcome(admin_config.account.data@, caller, freeze_config.account) {
            Ok(d) => r matches Ok(out) && {
                &&& out.post_states@.len() == 3
                &&& out.post_states@[0] == unclaimed(admin_config.account)
                &&& out.post_states@[1] == unclaimed(caller.account)
                &&& out.post_states@[2].claim == Some(PdaClaim::FreezeConfig)
                &&& record_with_data(freeze_config.account, out.post_states@[2].account, d)
            },
            Err(e) => r == Err::<InstructionOutput, FreezeError>(e),
        },
{
    let admin = match AdminConfig::from_account_at(&admin_config, 0) {
        Ok(a) => a,
        Err(e) => return Err(FreezeError::from(e)),
    };
    match admin.assert_admin(&caller) {
        Ok(()) => {},
        Err(e) => return Err(FreezeError::from(e)),
    }
    if freeze_config.account.data.len() != 0 || freeze_config.account.is_deployed()
        || freeze_config.account.balance != 0 || freeze_config.account.nonce != 0 {
        return Err(FreezeError::AlreadyInitialized);
    }
    let mut freeze_config = freeze_config;
    // A signer candidate resolves from its own account; no derived address.
    let unused = AccountId::zero();
    match FreezeConfig::bootstrap(&mut freeze_config, FreezeCandidate::Signer, &caller, &unused) {
        Ok(()) => {},
        Err(e) => return Err(e),
    }
    let mut post_states = Vec::new();
    post_states.push(PostState::unclaimed(admin_config.account));
    post_states.push(PostState::unclaimed(caller.account));
    post_states.push(PostState { account: freeze_config.account, claim: Some(PdaClaim::FreezeConfig) });
    Ok(InstructionOutput { post_states })
}

/// Installs a validated candidate as the freeze authority. The caller
/// must be the admin, read from `admin_config` at `admin_offset`. Also
/// the path that refills a vacant slot. `derived_address` is, for a PDA
/// candidate, the address derived from its program id and seed.
pub fn freeze_authority_transfer(
    admin_config: AccountWithMetadata,
    freeze_config: AccountWithMetadata,
    caller: AccountWithMetadata,
    new_account: AccountWithMetadata,
    candidate: FreezeCandidate,
    derived_address: AccountId,
    offset: usize,
    admin_offset: usize,
) -> (r: Result<InstructionOutput, FreezeError>)
    ensures
        match transfer_outcome(
            admin_config.account.data@,
            admin_offset as int,
            caller,
            freeze_config.account.data@,
            offset as int,
            candidate,
            new_account,
            derived_address@,
        ) {
            Ok(d) => r matches Ok(out) && {
                let n = out.post_states@.len();
                let written = if admin_config.account_id@ == freeze_config.account_id@ { 0int } else { 1int };
                &&& n == written + 3
                &&& admin_config.account_id@ != freeze_config.account_id@ ==> out.post_states@[0]
                    == unclaimed(admin_config.account)
                &&& out.post_states@[written].claim is None
                &&& record_with_data(freeze_config.account, out.post_states@[written].account, d)
                &&& out.post_states@[n - 2] == unclaimed(caller.account)
                &&& out.post_states@[n - 1] == unclaimed(new_account.account)
            },
            Err(e) => r == Err::<InstructionOutput, FreezeError>(e),
        },
{
    let admin = match AdminConfig::from_account_at(&admin_config, admin_offset) {
        Ok(a) => a,
        Err(e) => return Err(FreezeError::from(e)),
    };
    match admin.assert_admin(&caller) {
        Ok(()) => {},
        Err(e) => return Err(FreezeError::from(e)),
    }
    let mut freeze_config = freeze_config;
    match FreezeConfig::perform_transfer_at(&mut freeze_config, offset, candidate, &new_account, &derived_address) {
        Ok(()) => {},
        Err(e) => return Err(e),
    }
    let mut post_states = post_state_pair(admin_config, freeze_config);
    post_states.push(PostState::unclaimed(caller.account));
    post_states.push(PostState::unclaimed(new_account.account));
    Ok(InstructionOutput { post_states })
}

/// Vacates the freeze authority slot. Callable by the freeze authority
/// itself, or by the admin when one decodes from `admin_config` at
/// `admin_offset`. Not terminal: the admin can refill the slot through
/// `freeze_authority_transfer`.
pub fn freeze_authority_renounce(
    admin_config: AccountWithMetadata,
    freeze_config: AccountWithMetadata,
    caller: AccountWithMetadata,
    offset: usize,
    admin_offset: usize,
) -> (r: Result<InstructionOutput, FreezeError>)
    ensures
        match renounce_at(
            freeze_config.account.data@,
            offset as int,
            admin_if_decodable(admin_config.account.data@, admin_offset as int),
            caller,
        ) {
            Ok(d) => r matches Ok(out) && {
                let n = out.post_states@.len();
                let written = if admin_config.account_id@ == freeze_config.account_id@ { 0int } else { 1int };
                &&& n == written + 2
                &&& admin_config.account_id@ != freeze_config.account_id@ ==> out.post_states@[0]
                    == unclaimed(admin_config.account)
                &&& out.post_states@[written].claim is None
                &&& record_with_data(freeze_config.account, out.post_states@[written].account, d)
                &&& out.post_states@[n - 1] == unclaimed(caller.account)
            },
            Err(e) => r == Err::<InstructionOutput, FreezeError>(e),
        },
{
    let admin = match AdminConfig::from_account_at(&admin_config, admin_offset) {
        Ok(a) => Some(a),
        Err(_) => None,
    };
    let admin_ref = match &admin {
        Some(a) => Some(a),
        None => None,
    };
    let mut freeze_config = freeze_config;
    match FreezeConfig::perform_renounce_at(admin_ref, &mut freeze_config, offset, &caller) {
        Ok(()) => {},
        Err(e) => return Err(e),
    }
    let mut post_states = post_state_pair(admin_config, freeze_config);
    post_states.push(PostState::unclaimed(caller.account));
    Ok(InstructionOutput { post_states })
}

/// Sets the program-wide frozen flag. Only the freeze authority can call;
/// a program that is already frozen is refused with `AlreadyFrozen` and
/// the config left as it was. `freeze_account` is this fn's own freeze-check account and passes through
/// unchanged, in declared position.
pub fn freeze_program(
    freeze_config: AccountWithMetadata,
    freeze_account: AccountWithMetadata,
    caller: AccountWithMetadata,
    offset: usize,
) -> (r: Result<InstructionOutput, FreezeError>)
    ensures
        match program_flag_outcome(freeze_config.account.data@, offset as int, caller, true) {
            Ok(d) => r matches Ok(out) && {
                &&& out.post_states@.len() == 3
                &&& out.post_states@[0].claim is None
                &&& record_with_data(freeze_config.account, out.post_states@[0].account, d)
                &&& out.post_states@[1] == unclaimed(freeze_account.account)
                &&& out.post_states@[2] == unclaimed(caller.account)
            },
            Err(e) => r == Err::<InstructionOutput, FreezeError>(e),
        },
{
    match FreezeConfig::from_account_at(&freeze_config, offset) {
        Ok(cfg) => {
            match cfg.assert_authority(&caller) {
                Ok(()) => {},
                Err(e) => return Err(e),
            }
            if cfg.frozen() {
                return Err(FreezeError::AlreadyFrozen);
            }
        },
        Err(e) => return Err(e),
    }
    let mut freeze_config = freeze_config;
    match FreezeConfig::perform_freeze_at(&mut freeze_config, offset, &caller) {
        Ok(()) => {},
        Err(e) => return Err(e),
    }
    let mut post_states = Vec::new();
    post_states.push(PostState::unclaimed(freeze_config.account));
    post_states.push(PostState::unclaimed(freeze_account.account));
    post_states.push(PostState::unclaimed(caller.account));
    Ok(InstructionOutput { post_states })
}

/// Clears the program-wide frozen flag. Only the freeze authority can
/// call; callable while the program is frozen. A program that is not
/// frozen is refused with `NotFrozen` and the config left as it was.
pub fn freeze_program_release(freeze_config: AccountWithMetadata, caller: AccountWithMetadata, offset: usize) -> (r:
    Result<InstructionOutput, FreezeError>)
    ensures
        match program_flag_outcome(freeze_config.account.data@, offset as int, caller, false) {
            Ok(d) => r matches Ok(out) && {
                &&& out.post_states@.len() == 2
                &&& out.post_states@[0].claim is None
                &&& record_with_data(freeze_config.account, out.post_states@[0].account, d)
                &&& out.post_states@[1] == unclaimed(caller.account)
            },
            Err(e) => r == Err::<InstructionOutput, FreezeError>(e),
        },
{
    match FreezeConfig::from_account_at(&freeze_config, offset) {
        Ok(cfg) => {
            match cfg.assert_authority(&caller) {
                Ok(()) => {},
                Err(e) => return Err(e),
            }
            if !cfg.frozen() {
                return Err(FreezeError::NotFrozen);
            }
        },
        Err(e) => return Err(e),
    }
    let mut freeze_config = freeze_config;
    match FreezeConfig::perform_release_at(&mut freeze_config, offset, &caller) {
        Ok(()) => {},
        Err(e) => return Err(e),
    }
    let mut post_states = Vec::new();
    post_states.push(PostState::unclaimed(freeze_config.account));
    post_states.push(PostState::unclaimed(caller.account));
    Ok(InstructionOutput { post_states })
}

/// Sets the per-account frozen flag of `target` in its marker account.
/// Only the freeze authority (read from the config window at `offset`)
/// can call. The first write to an empty marker carries a claim on the
/// marker address derived from `"frozen"` and `target`; later toggles
/// carry none.
pub fn freeze_account(
    freeze_config: AccountWithMetadata,
    frozen_pda: AccountWithMetadata,
    caller: AccountWithMetadata,
    target: [u8; 32],
    offset: usize,
) -> (r: Result<InstructionOutput, FreezeError>)
    ensures
        match account_freeze_outcome(
            freeze_config.account.data@,
            offset as int,
            frozen_pda.account.data@,
            caller,
        ) {
            Ok(d) => r matches Ok(out) && {
                &&& out.post_states@.len() == 3
                &&& out.post_states@[0] == unclaimed(freeze_config.account)
                &&& record_with_data(frozen_pda.account, out.post_states@[1].account, d)
                &&& out.post_states@[1].claim == (if frozen_pda.account.data@.len() == 0 {
                    Some(PdaClaim::FrozenMarker { target })
                } else {
                    None
                })
                &&& out.post_states@[2] == unclaimed(caller.account)
            },
            Err(e) => r == Err::<InstructionOutput, FreezeError>(e),
        },
{
    let first_touch = frozen_pda.account.data.len() == 0;
    let authority = match FreezeConfig::from_account_at(&freeze_config, offset) {
        Ok(c) => c,
        Err(e) => return Err(e),
    };
    let mut frozen_pda = frozen_pda;
    match FrozenAccountState::perform_freeze(&authority, &mut frozen_pda, &caller) {
        Ok(()) => {},
        Err(e) => return Err(e),
    }
    let claim = if first_touch {
        Some(PdaClaim::FrozenMarker { target })
    } else {
        None
    };
    let mut post_states = Vec::new();
    post_states.push(PostState::unclaimed(freeze_config.account));
    post_states.push(PostState { account: frozen_pda.account, claim });
    post_states.push(PostState::unclaimed(caller.account));
    Ok(InstructionOutput { post_states })
}

/// Clears the per-account frozen flag of `target`. Only the freeze
/// authority can call; a target that is not currently frozen (never
/// frozen, or already released) is refused with `AccountNotFrozen`.
pub fn freeze_account_release(
    freeze_config: AccountWithMetadata,
    frozen_pda: AccountWithMetadata,
    caller: AccountWithMetadata,
    target: [u8; 32],
    offset: usize,
) -> (r: Result<InstructionOutput, FreezeError>)
    ensures
        match account_release_outcome(
            freeze_config.account.data@,
            offset as int,
            frozen_pda.account.data@,
            caller,
        ) {
            Ok(d) => r matches Ok(out) && {
                &&& out.post_states@.len() == 3
                &&& out.post_states@[0] == unclaimed(freeze_config.account)
                &&& out.post_states@[1].claim is None
                &&& record_with_data(frozen_pda.account, out.post_states@[1].account, d)
                &&& out.post_states@[2] == unclaimed(caller.account)
            },
            Err(e) => r == Err::<InstructionOutput, FreezeError>(e),
        },
{
    let _ = target;
    let authority = match FreezeConfig::from_account_at(&freeze_config, offset) {
        Ok(c) => c,
        Err(e) => return Err(e),
    };
    let current = match FrozenAccountState::from_account(&frozen_pda) {
        Ok(s) => s,
        Err(e) => return Err(e),
    };
    match authority.assert_authority(&caller) {
        Ok(()) => {},
        Err(e) => return Err(e),
    }
    if !current.is_frozen {
        return Err(FreezeError::AccountNotFrozen);
    }
    let mut frozen_pda = frozen_pda;
    match FrozenAccountState::perform_release(&authority, &mut frozen_pda, &caller) {
        Ok(()) => {},
        Err(e) => return Err(e),
    }
    let mut post_states = Vec::new();
    post_states.push(PostState::unclaimed(freeze_config.account));
    post_states.push(PostState::unclaimed(frozen_pda.account));
    post_states.push(PostState::unclaimed(caller.account));
    Ok(InstructionOutput { post_states })
}

} // verus!
