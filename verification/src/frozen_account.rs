//! Per-account freeze state: one flag per target, stored as a single
//! byte (0 or 1) in the target's marker account. Missing data reads as
//! "never frozen".
use vstd::prelude::*;

use crate::account::AccountWithMetadata;
use crate::config::{flag_byte, freeze_check, lands, FreezeConfig};
use crate::errors::FreezeError;

verus! {

/// Lenient decode of a marker's data: empty data is "not frozen"; a
/// single 0 or 1 byte is the flag; anything else is `DecodingFailed`.
pub open spec fn marker_decode(data: Seq<u8>) -> Result<bool, FreezeError> {
    if data.len() == 0 {
        Ok(false)
    } else if data.len() == 1 && data[0] == 0u8 {
        Ok(false)
    } else if data.len() == 1 && data[0] == 1u8 {
        Ok(true)
    } else {
        Err(FreezeError::DecodingFailed)
    }
}

/// The marker data after setting the flag to `state`: decode, holder
/// check against the freeze authority `holder`, then the one-byte form.
pub open spec fn marker_set(
    data: Seq<u8>,
    holder: Seq<u8>,
    current: AccountWithMetadata,
    state: bool,
) -> Result<Seq<u8>, FreezeError> {
    match marker_decode(data) {
        Err(e) => Err(e),
        Ok(_) => match freeze_check(holder, current) {
            Err(e) => Err(e),
            Ok(()) => Ok(seq![flag_byte(state)]),
        },
    }
}

/// Per-account freeze state.
#[derive(Clone, Copy, Debug, PartialEq, Eq, Structural)]
pub struct FrozenAccountState {
    /// Whether the target account is frozen for this program.
    pub is_frozen: bool,
}

impl Default for FrozenAccountState {
    fn default() -> (r: FrozenAccountState)
        ensures
            !r.is_frozen,
    {
        FrozenAccountState { is_frozen: false }
    }
}

impl FrozenAccountState {
    /// Lenient decode: empty bytes are the never-frozen default; a single
    /// 0 or 1 byte is the flag; anything else is `DecodingFailed`.
    pub fn from_data_or_default(data: &[u8]) -> (r: Result<FrozenAccountState, FreezeError>)
        ensures
            match r {
                Ok(s) => marker_decode(data@) == Ok::<bool, FreezeError>(s.is_frozen),
                Err(e) => marker_decode(data@) == Err::<bool, FreezeError>(e),
            },
    {
        if data.len() == 0 {
            return Ok(FrozenAccountState { is_frozen: false });
        }
        if data.len() == 1 && data[0] == 0 {
            Ok(FrozenAccountState { is_frozen: false })
        } else if data.len() == 1 && data[0] == 1 {
            Ok(FrozenAccountState { is_frozen: true })
        } else {
            Err(FreezeError::DecodingFailed)
        }
    }

    /// Loads the state from an account's data (lenient decode).
    pub fn from_account(account: &AccountWithMetadata) -> (r: Result<FrozenAccountState, FreezeError>)
        ensures
            match r {
                Ok(s) => marker_decode(account.account.data@) == Ok::<bool, FreezeError>(s.is_frozen),
                Err(e) => marker_decode(account.account.data@) == Err::<bool, FreezeError>(e),
            },
    {
        Self::from_data_or_default(account.account.data.as_slice())
    }

    /// The one-byte wire form.
    pub fn encode(&self) -> (r: Result<Vec<u8>, FreezeError>)
        ensures
            r matches Ok(v) && v@ == seq![flag_byte(self.is_frozen)],
    {
        let mut out: Vec<u8> = Vec::new();
        out.push(if self.is_frozen { 1u8 } else { 0u8 });
        assert(out@ =~= seq![flag_byte(self.is_frozen)]);
        Ok(out)
    }

    /// Replaces the account's data with the one-byte wire form.
    pub fn write_to(&self, account: &mut AccountWithMetadata) -> (r: Result<(), FreezeError>)
        ensures
            lands(Ok(seq![flag_byte(self.is_frozen)]), r, *old(account), *final(account)),
    {
        match self.encode() {
            Ok(bytes) => {
                account.account.data = bytes;
                Ok(())
            },
            Err(e) => Err(e),
        }
    }

    /// Sets the flag to `state`. Only the freeze authority of
    /// `authority_state` may; on its error the state is unchanged.
    pub fn set_is_frozen(
        &mut self,
        authority_state: &FreezeConfig,
        caller: &AccountWithMetadata,
        state: bool,
    ) -> (r: Result<(), FreezeError>)
        ensures
            r == freeze_check(authority_state@.0, *caller),
            r is Ok ==> final(self).is_frozen == state,
            r is Err ==> *final(self) == *old(self),
    {
        match authority_state.assert_authority(caller) {
            Ok(()) => {
                self.is_frozen = state;
                Ok(())
            },
            Err(e) => Err(e),
        }
    }

    /// Loads the marker, sets the flag (freeze authority only), writes
    /// it back. On any error the marker is unchanged.
    pub fn perform_freeze(
        authority_state: &FreezeConfig,
        config_account: &mut AccountWithMetadata,
        current: &AccountWithMetadata,
    ) -> (r: Result<(), FreezeError>)
        ensures
            lands(
                marker_set(old(config_account).account.data@, authority_state@.0, *current, true),
                r,
                *old(config_account),
                *final(config_account),
            ),
    {
        Self::set_in(authority_state, config_account, current, true)
    }

    /// Loads the marker, clears the flag (freeze authority only), writes
    /// it back. On any error the marker is unchanged.
    pub fn perform_release(
        authority_state: &FreezeConfig,
        config_account: &mut AccountWithMetadata,
        current: &AccountWithMetadata,
    ) -> (r: Result<(), FreezeError>)
        ensures
            lands(
                marker_set(old(config_account).account.data@, authority_state@.0, *current, false),
                r,
                *old(config_account),
                *final(config_account),
            ),
    {
        Self::set_in(authority_state, config_account, current, false)
    }

    /// Loads the marker, sets the flag to `state`, writes it back.
    fn set_in(
        authority_state: &FreezeConfig,
        config_account: &mut AccountWithMetadata,
        current: &AccountWithMetadata,
        state: bool,
    ) -> (r: Result<(), FreezeError>)
        ensures
            lands(
                marker_set(old(config_account).account.data@, authority_state@.0, *current, state),
                r,
                *old(config_account),
                *final(config_account),
            ),
    {
        let mut s = match Self::from_account(config_account) {
            Ok(s) => s,
            Err(e) => return Err(e),
        };
        match s.set_is_frozen(authority_state, current, state) {
            Ok(()) => {},
            Err(e) => return Err(e),
        }
        s.write_to(config_account)
    }
}

} // verus!
