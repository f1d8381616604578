//! The freeze slot. `FreezeConfig` holds the freeze authority next to the
//! program-wide frozen flag. Its wire form is 33 bytes: the authority's
//! 32 identity bytes, then the flag byte (0 or 1). Every operation has a
//! plain form for a dedicated config account and an `_at` form that
//! reads and splices only the 33-byte window at an offset of an
//! embedding account, leaving every other byte untouched.
use vstd::prelude::*;

use crate::account::{same_but_data, zero_id, AccountId, AccountWithMetadata};
use crate::admin::{admin_check, AdminConfig};
use crate::errors::{authority_to_freeze, FreezeError};
use crate::slot::{
    candidate_check, slot_check, splice, AuthorityCandidate, AuthoritySlot, SLOT_LEN,
};

verus! {

broadcast use vstd::array::group_array_axioms;

/// Transfer-time claim describing the intended new freeze authority.
pub type FreezeCandidate = AuthorityCandidate;

/// Width in bytes of the freeze config's wire window.
pub const CONFIG_LEN: usize = 33;

/// The wire byte of a flag.
pub open spec fn flag_byte(b: bool) -> u8 {
    if b {
        1u8
    } else {
        0u8
    }
}

/// The 33-byte wire window of a config: holder bytes, then the flag byte.
pub open spec fn config_window(holder: Seq<u8>, frozen: bool) -> Seq<u8> {
    holder.push(flag_byte(frozen))
}

/// Strict decode of a whole config account's data: empty data is
/// `NotInitialized`; anything but exactly 33 bytes ending in 0 or 1 is
/// `DecodingFailed`.
pub open spec fn config_decode(data: Seq<u8>) -> Result<(Seq<u8>, bool), FreezeError> {
    if data.len() == 0 {
        Err(FreezeError::NotInitialized)
    } else if data.len() != CONFIG_LEN || (data[32] != 0u8 && data[32] != 1u8) {
        Err(FreezeError::DecodingFailed)
    } else {
        Ok((data.subrange(0, 32), data[32] == 1u8))
    }
}

/// Decode of the 33-byte window at `offset`: empty data is
/// `NotInitialized`; a window that does not fit is `SlotOutOfBounds`; a
/// flag byte other than 0 or 1 is `DecodingFailed`.
pub open spec fn config_decode_at(data: Seq<u8>, offset: int) -> Result<(Seq<u8>, bool), FreezeError> {
    if data.len() == 0 {
        Err(FreezeError::NotInitialized)
    } else if offset + CONFIG_LEN > data.len() {
        Err(FreezeError::SlotOutOfBounds)
    } else if data[offset + 32] != 0u8 && data[offset + 32] != 1u8 {
        Err(FreezeError::DecodingFailed)
    } else {
        Ok((data.subrange(offset, offset + 32), data[offset + 32] == 1u8))
    }
}

/// The holder check of the freeze slot, in the library's errors.
pub open spec fn freeze_check(holder: Seq<u8>, signer: AccountWithMetadata) -> Result<(), FreezeError> {
    match slot_check(holder, signer) {
        Ok(()) => Ok(()),
        Err(e) => Err(authority_to_freeze(e)),
    }
}

/// The identity a candidate installs: the candidate check's identity, in
/// the library's errors, the sentinel identity refused.
pub open spec fn resolve_candidate(
    candidate: AuthorityCandidate,
    evidence: AccountWithMetadata,
    derived_address: Seq<u8>,
) -> Result<Seq<u8>, FreezeError> {
    match candidate_check(candidate, evidence, derived_address) {
        Err(e) => Err(authority_to_freeze(e)),
        Ok(id) => if id == zero_id() {
            Err(FreezeError::InvalidCandidate)
        } else {
            Ok(id)
        },
    }
}

/// Who may renounce: the admin (when an admin config was decoded), or
/// the current holder.
pub open spec fn renounce_allowed(
    admin: Option<Seq<u8>>,
    holder: Seq<u8>,
    current: AccountWithMetadata,
) -> bool {
    ||| (admin matches Some(a) && admin_check(a, current) is Ok)
    ||| slot_check(holder, current) is Ok
}

/// The data after a window operation: decode the window at `offset`,
/// then splice in the window of the new state, or the first error.
pub open spec fn set_flag_at(
    data: Seq<u8>,
    offset: int,
    current: AccountWithMetadata,
    state: bool,
) -> Result<Seq<u8>, FreezeError> {
    match config_decode_at(data, offset) {
        Err(e) => Err(e),
        Ok((holder, _)) => match freeze_check(holder, current) {
            Err(e) => Err(e),
            Ok(()) => Ok(splice(data, offset, config_window(holder, state))),
        },
    }
}

/// The data after a transfer at `offset`.
pub open spec fn transfer_at(
    data: Seq<u8>,
    offset: int,
    candidate: AuthorityCandidate,
    evidence: AccountWithMetadata,
    derived_address: Seq<u8>,
) -> Result<Seq<u8>, FreezeError> {
    match config_decode_at(data, offset) {
        Err(e) => Err(e),
        Ok((_, frozen)) => match resolve_candidate(candidate, evidence, derived_address) {
            Err(e) => Err(e),
            Ok(id) => Ok(splice(data, offset, config_window(id, frozen))),
        },
    }
}

/// The data after a renounce at `offset`.
pub open spec fn renounce_at(
    data: Seq<u8>,
    offset: int,
    admin: Option<Seq<u8>>,
    current: AccountWithMetadata,
) -> Result<Seq<u8>, FreezeError> {
    match config_decode_at(data, offset) {
        Err(e) => Err(e),
        Ok((holder, frozen)) => if renounce_allowed(admin, holder, current) {
            Ok(splice(data, offset, config_window(zero_id(), frozen)))
        } else {
            Err(FreezeError::NotAdminOrFreezeAuthority)
        },
    }
}

/// The data after a bootstrap at `offset`.
pub open spec fn bootstrap_at_data(
    data: Seq<u8>,
    offset: int,
    candidate: AuthorityCandidate,
    evidence: AccountWithMetadata,
    derived_address: Seq<u8>,
) -> Result<Seq<u8>, FreezeError> {
    match resolve_candidate(candidate, evidence, derived_address) {
        Err(e) => Err(e),
        Ok(id) => if offset + CONFIG_LEN > data.len() {
            Err(FreezeError::SlotOutOfBounds)
        } else {
            Ok(splice(data, offset, config_window(id, false)))
        },
    }
}

/// How a data-producing outcome lands on an account: on `Ok` the data is
/// replaced, on `Err` the account is left exactly as it was; the other
/// fields never change.
pub open spec fn lands(
    outcome: Result<Seq<u8>, FreezeError>,
    r: Result<(), FreezeError>,
    before: AccountWithMetadata,
    after: AccountWithMetadata,
) -> bool {
    &&& same_but_data(before, after)
    &&& match outcome {
        Ok(d) => r is Ok && after.account.data@ == d,
        Err(e) => r == Err::<(), FreezeError>(e) && after == before,
    }
}

/// On-chain freeze authority state: the freeze authority slot and the
/// program-wide frozen flag. A vacant slot (all-zero holder) is the
/// renounced state, from which the admin can appoint a new holder.
#[derive(Clone, Copy, Debug, PartialEq, Eq)]
pub struct FreezeConfig {
    /// The freeze authority slot; vacant (all zeros) when renounced.
    pub slot: AuthoritySlot,
    /// Program-wide frozen flag.
    pub is_frozen: bool,
}

/// A decode outcome seen as holder bytes and flag.
pub open spec fn config_result(r: Result<FreezeConfig, FreezeError>) -> Result<(Seq<u8>, bool), FreezeError> {
    match r {
        Ok(c) => Ok(c@),
        Err(e) => Err(e),
    }
}

impl View for FreezeConfig {
    type V = (Seq<u8>, bool);

    open spec fn view(&self) -> (Seq<u8>, bool) {
        (self.slot@, self.is_frozen)
    }
}

impl FreezeConfig {
    /// The program-wide frozen flag.
    pub fn frozen(&self) -> (r: bool)
        ensures
            r == self@.1,
    {
        self.is_frozen
    }

    /// A config held by `freeze_authority`, not frozen. The sentinel
    /// identity is refused with `InvalidCandidate`, since it means vacant.
    pub fn initialize(freeze_authority: AccountId) -> (r: Result<FreezeConfig, FreezeError>)
        ensures
            freeze_authority@ != zero_id() ==> (r matches Ok(c) && c@ == (freeze_authority@, false)),
            freeze_authority@ == zero_id() ==> r == Err::<FreezeConfig, FreezeError>(
                FreezeError::InvalidCandidate,
            ),
    {
        match AuthoritySlot::initialize(freeze_authority) {
            Ok(slot) => Ok(FreezeConfig { slot, is_frozen: false }),
            Err(e) => Err(FreezeError::from(e)),
        }
    }

    /// A config whose slot is vacant and whose flag is clear: the state
    /// an embedding account's all-zero window decodes to.
    pub fn vacant() -> (r: FreezeConfig)
        ensures
            r@ == (zero_id(), false),
    {
        FreezeConfig { slot: AuthoritySlot::vacant(), is_frozen: false }
    }

    /// The freeze authority's identity (all zeros when vacant).
    pub fn holder(&self) -> (r: AccountId)
        ensures
            r@ == self@.0,
    {
        self.slot.holder()
    }

    /// Checks that `signer` is the freeze authority and signed. Errors:
    /// `Renounced` when the slot is vacant, then `NotFreezeAuthority`,
    /// then `MissingSignature`.
    pub fn assert_authority(&self, signer: &AccountWithMetadata) -> (r: Result<(), FreezeError>)
        ensures
            r == freeze_check(self@.0, *signer),
    {
        match self.slot.assert_holder(signer) {
            Ok(()) => Ok(()),
            Err(e) => Err(FreezeError::from(e)),
        }
    }

    /// The 33-byte wire form: holder bytes, then the flag byte.
    pub fn encode(&self) -> (r: Result<Vec<u8>, FreezeError>)
        ensures
            r matches Ok(v) && v@ == config_window(self@.0, self@.1),
    {
        let mut out: Vec<u8> = Vec::new();
        let mut i: usize = 0;
        while i < SLOT_LEN
            invariant
                0 <= i <= SLOT_LEN,
                self.slot@.len() == 32,
                out@ == self.slot@.take(i as int),
            decreases SLOT_LEN - i,
        {
            out.push(self.slot.holder.0[i]);
            i = i + 1;
            assert(out@ =~= self.slot@.take(i as int));
        }
        out.push(if self.is_frozen { 1u8 } else { 0u8 });
        assert(out@ =~= config_window(self@.0, self@.1));
        Ok(out)
    }

    /// Strict decode of a whole config account's data. Empty data is
    /// `NotInitialized`; anything but exactly 33 bytes whose last byte is
    /// 0 or 1 is `DecodingFailed`.
    pub fn decode(data: &[u8]) -> (r: Result<FreezeConfig, FreezeError>)
        ensures
            config_result(r) == config_decode(data@),
    {
        if data.len() == 0 {
            return Err(FreezeError::NotInitialized);
        }
        if data.len() != CONFIG_LEN || (data[32] != 0 && data[32] != 1) {
            return Err(FreezeError::DecodingFailed);
        }
        match AuthoritySlot::read_at(data, 0) {
            Ok(slot) => {
                let c = FreezeConfig { slot, is_frozen: data[32] == 1 };
                assert(c@ == (data@.subrange(0, 32), data@[32] == 1u8));
                Ok(c)
            },
            Err(_) => Err(FreezeError::SlotOutOfBounds),
        }
    }

    /// Decode of the config's 33-byte window at `offset`. Empty data is
    /// `NotInitialized` (the account does not exist yet); non-empty data
    /// too short for the window is `SlotOutOfBounds`; a flag byte other
    /// than 0 or 1 is `DecodingFailed`.
    pub fn decode_at(data: &[u8], offset: usize) -> (r: Result<FreezeConfig, FreezeError>)
        ensures
            config_result(r) == config_decode_at(data@, offset as int),
    {
        if data.len() == 0 {
            return Err(FreezeError::NotInitialized);
        }
        let slot = match AuthoritySlot::read_at(data, offset) {
            Ok(s) => s,
            Err(e) => return Err(FreezeError::from(e)),
        };
        if offset + SLOT_LEN >= data.len() {
            return Err(FreezeError::SlotOutOfBounds);
        }
        let flag = data[offset + SLOT_LEN];
        let is_frozen = if flag == 0 {
            false
        } else if flag == 1 {
            true
        } else {
            return Err(FreezeError::DecodingFailed);
        };
        Ok(FreezeConfig { slot, is_frozen })
    }

    /// Loads the config from a dedicated account's data (strict decode).
    pub fn from_account(account: &AccountWithMetadata) -> (r: Result<FreezeConfig, FreezeError>)
        ensures
            config_result(r) == config_decode(account.account.data@),
    {
        Self::decode(account.account.data.as_slice())
    }

    /// Loads the config from the window at `offset` of an account's data.
    pub fn from_account_at(account: &AccountWithMetadata, offset: usize) -> (r: Result<
        FreezeConfig,
        FreezeError,
    >)
        ensures
            config_result(r) == config_decode_at(account.account.data@, offset as int),
    {
        Self::decode_at(account.account.data.as_slice(), offset)
    }

    /// Sets the program-wide flag to `state`. Only the current freeze
    /// authority may: the holder check runs first, and on its error the
    /// config is left as it was.
    pub fn set_is_frozen(&mut self, current: &AccountWithMetadata, state: bool) -> (r: Result<
        (),
        FreezeError,
    >)
        ensures
            r == freeze_check(old(self)@.0, *current),
            r is Ok ==> final(self)@ == (old(self)@.0, state),
            r is Err ==> *final(self) == *old(self),
    {
        match self.slot.assert_holder(current) {
            Ok(()) => {
                self.is_frozen = state;
                Ok(())
            },
            Err(e) => Err(FreezeError::from(e)),
        }
    }

    /// Replaces a dedicated account's data with the 33-byte wire form.
    pub fn write_to(&self, account: &mut AccountWithMetadata) -> (r: Result<(), FreezeError>)
        ensures
            lands(Ok(config_window(self@.0, self@.1)), r, *old(account), *final(account)),
    {
        match self.encode() {
            Ok(bytes) => {
                account.account.data = bytes;
                Ok(())
            },
            Err(e) => Err(e),
        }
    }

    /// Splices the config's 33-byte window into the account's data at
    /// `offset`, leaving every other byte untouched. A window that does
    /// not fit is `SlotOutOfBounds`, and then nothing is written.
    pub fn write_to_at(&self, account: &mut AccountWithMetadata, offset: usize) -> (r: Result<
        (),
        FreezeError,
    >)
        ensures
            lands(
                if offset + CONFIG_LEN <= old(account).account.data@.len() {
                    Ok(splice(old(account).account.data@, offset as int, config_window(self@.0, self@.1)))
                } else {
                    Err(FreezeError::SlotOutOfBounds)
                },
                r,
                *old(account),
                *final(account),
            ),
    {
        let len = account.account.data.len();
        if len < CONFIG_LEN || offset > len - CONFIG_LEN {
            return Err(FreezeError::SlotOutOfBounds);
        }
        let ghost before = account.account.data@;
        let res = self.slot.write_at(&mut account.account.data, offset);
        assert(res is Ok);
        account.account.data.set(offset + SLOT_LEN, if self.is_frozen { 1u8 } else { 0u8 });
        assert(account.account.data@ =~= splice(before, offset as int, config_window(self@.0, self@.1)));
        Ok(())
    }

    /// Validates a candidate, builds a fresh unfrozen config held by it,
    /// and replaces the dedicated account's data with it. No check on who
    /// calls: callers decide who may bootstrap. On any error the account is
    /// left as it was.
    pub fn bootstrap(
        config_account: &mut AccountWithMetadata,
        new_authority: FreezeCandidate,
        new_authority_account: &AccountWithMetadata,
        derived_address: &AccountId,
    ) -> (r: Result<(), FreezeError>)
        ensures
            lands(
                match resolve_candidate(new_authority, *new_authority_account, derived_address@) {
                    Ok(id) => Ok(config_window(id, false)),
                    Err(e) => Err(e),
                },
                r,
                *old(config_account),
                *final(config_account),
            ),
    {
        let resolved = match new_authority.validate(new_authority_account, derived_address) {
            Ok(id) => id,
            Err(e) => return Err(FreezeError::from(e)),
        };
        let state = match Self::initialize(resolved) {
            Ok(s) => s,
            Err(e) => return Err(e),
        };
        state.write_to(config_account)
    }

    /// Validates a candidate, builds a fresh unfrozen config held by it,
    /// and splices it in at `offset` of an embedding account.
    pub fn bootstrap_at(
        config_account: &mut AccountWithMetadata,
        offset: usize,
        candidate: FreezeCandidate,
        new_account: &AccountWithMetadata,
        derived_address: &AccountId,
    ) -> (r: Result<(), FreezeError>)
        ensures
            lands(
                bootstrap_at_data(
                    old(config_account).account.data@,
                    offset as int,
                    candidate,
                    *new_account,
                    derived_address@,
                ),
                r,
                *old(config_account),
                *final(config_account),
            ),
    {
        let resolved = match candidate.validate(new_account, derived_address) {
            Ok(id) => id,
            Err(e) => return Err(FreezeError::from(e)),
        };
        let state = match Self::initialize(resolved) {
            Ok(s) => s,
            Err(e) => return Err(e),
        };
        state.write_to_at(config_account, offset)
    }

    /// Validates the candidate and installs it as the new holder, keeping
    /// the frozen flag. No check on who calls: callers decide who may
    /// transfer. Accepts a vacant slot. On error the config is unchanged.
    pub fn transfer(
        &mut self,
        candidate: FreezeCandidate,
        new_account: &AccountWithMetadata,
        derived_address: &AccountId,
    ) -> (r: Result<(), FreezeError>)
        ensures
            match resolve_candidate(candidate, *new_account, derived_address@) {
                Ok(id) => r is Ok && final(self)@ == (id, old(self)@.1),
                Err(e) => r == Err::<(), FreezeError>(e) && *final(self) == *old(self),
            },
    {
        let next = match candidate.validate(new_account, derived_address) {
            Ok(id) => id,
            Err(e) => return Err(FreezeError::from(e)),
        };
        match self.slot.transfer_to(next) {
            Ok(()) => Ok(()),
            Err(e) => {
                assert(self.slot.holder.0 =~= old(self).slot.holder.0);
                Err(FreezeError::from(e))
            },
        }
    }

    /// Vacates the slot, keeping the frozen flag. Passes when `admin_config`
    /// accepts `current` as the admin, or when `current` is the holder;
    /// otherwise `NotAdminOrFreezeAuthority` and the config is unchanged.
    /// `None` means no admin config could be decoded; the holder path
    /// still runs.
    pub fn renounce(&mut self, admin_config: Option<&AdminConfig>, current: &AccountWithMetadata) -> (r:
        Result<(), FreezeError>)
        ensures
            renounce_allowed(
                match admin_config {
                    Some(a) => Some(a@),
                    None => None,
                },
                old(self)@.0,
                *current,
            ) ==> r is Ok && final(self)@ == (zero_id(), old(self)@.1),
            !renounce_allowed(
                match admin_config {
                    Some(a) => Some(a@),
                    None => None,
                },
                old(self)@.0,
                *current,
            ) ==> r == Err::<(), FreezeError>(FreezeError::NotAdminOrFreezeAuthority) && *final(self)
                == *old(self),
    {
        let admin_ok = match admin_config {
            Some(a) => a.assert_admin(current).is_ok(),
            None => false,
        };
        if !admin_ok && self.slot.assert_holder(current).is_err() {
            return Err(FreezeError::NotAdminOrFreezeAuthority);
        }
        self.slot.renounce();
        Ok(())
    }

    /// Transfer on a dedicated account: the window at offset 0.
    pub fn perform_transfer(
        config_account: &mut AccountWithMetadata,
        candidate: FreezeCandidate,
        new_account: &AccountWithMetadata,
        derived_address: &AccountId,
    ) -> (r: Result<(), FreezeError>)
        ensures
            lands(
                transfer_at(old(config_account).account.data@, 0, candidate, *new_account, derived_address@),
                r,
                *old(config_account),
                *final(config_account),
            ),
    {
        Self::perform_transfer_at(config_account, 0, candidate, new_account, derived_address)
    }

    /// Loads the config at `offset`, installs the validated candidate
    /// (keeping the flag), and splices it back. No check on who calls.
    pub fn perform_transfer_at(
        config_account: &mut AccountWithMetadata,
        offset: usize,
        candidate: FreezeCandidate,
        new_account: &AccountWithMetadata,
        derived_address: &AccountId,
    ) -> (r: Result<(), FreezeError>)
        ensures
            lands(
                transfer_at(
                    old(config_account).account.data@,
                    offset as int,
                    candidate,
                    *new_account,
                    derived_address@,
                ),
                r,
                *old(config_account),
                *final(config_account),
            ),
    {
        let mut state = match Self::from_account_at(config_account, offset) {
            Ok(s) => s,
            Err(e) => return Err(e),
        };
        match state.transfer(candidate, new_account, derived_address) {
            Ok(()) => {},
            Err(e) => return Err(e),
        }
        state.write_to_at(config_account, offset)
    }

    /// Renounce on a dedicated account: the window at offset 0.
    pub fn perform_renounce(
        admin_config: Option<&AdminConfig>,
        current: &AccountWithMetadata,
        config_account: &mut AccountWithMetadata,
    ) -> (r: Result<(), FreezeError>)
        ensures
            lands(
                renounce_at(
                    old(config_account).account.data@,
                    0,
                    match admin_config {
                        Some(a) => Some(a@),
                        None => None,
                    },
                    *current,
                ),
                r,
                *old(config_account),
                *final(config_account),
            ),
    {
        Self::perform_renounce_at(admin_config, config_account, 0, current)
    }

    /// Loads the config at `offset`, vacates the slot (admin or holder
    /// only), and splices it back.
    pub fn perform_renounce_at(
        admin_config: Option<&AdminConfig>,
        config_account: &mut AccountWithMetadata,
        offset: usize,
        current: &AccountWithMetadata,
    ) -> (r: Result<(), FreezeError>)
        ensures
            lands(
                renounce_at(
                    old(config_account).account.data@,
                    offset as int,
                    match admin_config {
                        Some(a) => Some(a@),
                        None => None,
                    },
                    *current,
                ),
                r,
                *old(config_account),
                *final(config_account),
            ),
    {
        let mut state = match Self::from_account_at(config_account, offset) {
            Ok(s) => s,
            Err(e) => return Err(e),
        };
        match state.renounce(admin_config, current) {
            Ok(()) => {},
            Err(e) => return Err(e),
        }
        state.write_to_at(config_account, offset)
    }

    /// Sets the flag on a dedicated account (holder only).
    pub fn perform_freeze(config_account: &mut AccountWithMetadata, current: &AccountWithMetadata) -> (r:
        Result<(), FreezeError>)
        ensures
            lands(
                set_flag_at(old(config_account).account.data@, 0, *current, true),
                r,
                *old(config_account),
                *final(config_account),
            ),
    {
        Self::perform_freeze_at(config_account, 0, current)
    }

    /// Loads the config at `offset`, sets the flag (holder only), and
    /// splices it back.
    pub fn perform_freeze_at(
        config_account: &mut AccountWithMetadata,
        offset: usize,
        current: &AccountWithMetadata,
    ) -> (r: Result<(), FreezeError>)
        ensures
            lands(
                set_flag_at(old(config_account).account.data@, offset as int, *current, true),
                r,
                *old(config_account),
                *final(config_account),
            ),
    {
        Self::set_flag_in(config_account, offset, current, true)
    }

    /// Clears the flag on a dedicated account (holder only).
    pub fn perform_release(config_account: &mut AccountWithMetadata, current: &AccountWithMetadata) -> (r:
        Result<(), FreezeError>)
        ensures
            lands(
                set_flag_at(old(config_account).account.data@, 0, *current, false),
                r,
                *old(config_account),
                *final(config_account),
            ),
    {
        Self::perform_release_at(config_account, 0, current)
    }

    /// Loads the config at `offset`, clears the flag (holder only), and
    /// splices it back.
    pub fn perform_release_at(
        config_account: &mut AccountWithMetadata,
        offset: usize,
        current: &AccountWithMetadata,
    ) -> (r: Result<(), FreezeError>)
        ensures
            lands(
                set_flag_at(old(config_account).account.data@, offset as int, *current, false),
                r,
                *old(config_account),
                *final(config_account),
            ),
    {
        Self::set_flag_in(config_account, offset, current, false)
    }

    /// Loads the config at `offset`, sets the flag to `state` (holder
    /// only), and splices it back.
    fn set_flag_in(
        config_account: &mut AccountWithMetadata,
        offset: usize,
        current: &AccountWithMetadata,
        state: bool,
    ) -> (r: Result<(), FreezeError>)
        ensures
            lands(
                set_flag_at(old(config_account).account.data@, offset as int, *current, state),
                r,
                *old(config_account),
                *final(config_account),
            ),
    {
        let mut cfg = match Self::from_account_at(config_account, offset) {
            Ok(s) => s,
            Err(e) => return Err(e),
        };
        match cfg.set_is_frozen(current, state) {
            Ok(()) => {},
            Err(e) => return Err(e),
        }
        cfg.write_to_at(config_account, offset)
    }
}

} // verus!
