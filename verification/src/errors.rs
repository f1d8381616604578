//! The library's error enum, the errors of the authority slot and of the
//! admin slot, and how both map onto the library's errors.
use vstd::prelude::*;

verus! {

/// Errors returned by the freeze authority operations.
#[derive(Clone, Copy, Debug, PartialEq, Eq, Structural)]
pub enum FreezeError {
    /// Config data is empty: the freeze config has not been created.
    NotInitialized,
    /// The freeze config was created twice.
    AlreadyInitialized,
    /// A signer candidate did not co-sign, or names the sentinel identity.
    InvalidCandidate,
    /// A PDA candidate has not been claimed by any program yet.
    UndeployedPda,
    /// A PDA candidate's derived address differs from the evidence account.
    CandidateMismatch,
    /// The signer is not the stored freeze authority.
    NotFreezeAuthority,
    /// The signer is not the admin.
    NotAdmin,
    /// The signer is neither the admin nor the freeze authority.
    NotAdminOrFreezeAuthority,
    /// The signer did not sign the transaction.
    MissingSignature,
    /// The freeze authority slot is vacant.
    Renounced,
    /// The program is already frozen.
    AlreadyFrozen,
    /// The program is not frozen.
    NotFrozen,
    /// The target account is already frozen.
    AccountAlreadyFrozen,
    /// The target account is not frozen.
    AccountNotFrozen,
    /// Encoding the state failed.
    EncodingFailed,
    /// Non-empty state bytes are malformed.
    DecodingFailed,
    /// Freeze-check rejection: the program is frozen.
    Frozen,
    /// Freeze-check rejection: the caller's account is frozen.
    AccountFrozen,
    /// The encoded state does not fit the account's data.
    AccountDataTooLarge,
    /// An embedded window does not fit inside the account's data.
    SlotOutOfBounds,
}

impl FreezeError {
    /// The human-readable text of each error.
    pub open spec fn spec_message(self) -> Seq<char> {
        match self {
            FreezeError::NotInitialized => "freeze authority not initialized"@,
            FreezeError::AlreadyInitialized => "freeze authority already initialized"@,
            FreezeError::InvalidCandidate => "invalid freeze candidate"@,
            FreezeError::UndeployedPda => "candidate PDA is not deployed"@,
            FreezeError::CandidateMismatch => "candidate address mismatch"@,
            FreezeError::NotFreezeAuthority => "signer is not the current freeze authority"@,
            FreezeError::NotAdmin => "signer is not the current admin"@,
            FreezeError::NotAdminOrFreezeAuthority => "signer is not the current admin or freeze authority"@,
            FreezeError::MissingSignature => "freeze signature missing"@,
            FreezeError::Renounced => "freeze authority renounced"@,
            FreezeError::AlreadyFrozen => "program is already frozen"@,
            FreezeError::NotFrozen => "program is not frozen"@,
            FreezeError::AccountAlreadyFrozen => "account is already frozen"@,
            FreezeError::AccountNotFrozen => "account is not frozen"@,
            FreezeError::EncodingFailed => "failed to encode freeze account state"@,
            FreezeError::DecodingFailed => "failed to decode freeze account state"@,
            FreezeError::Frozen => "program is frozen"@,
            FreezeError::AccountFrozen => "account is frozen"@,
            FreezeError::AccountDataTooLarge => "FreezeConfig too large for account data"@,
            FreezeError::SlotOutOfBounds => "embedded slot window out of bounds"@,
        }
    }

    /// The human-readable text of this error (what the runtime reports
    /// as the unauthorized-call message).
    pub fn message(&self) -> (r: &'static str)
        ensures
            r@ == self.spec_message(),
    {
        match self {
            FreezeError::NotInitialized => "freeze authority not initialized",
            FreezeError::AlreadyInitialized => "freeze authority already initialized",
            FreezeError::InvalidCandidate => "invalid freeze candidate",
            FreezeError::UndeployedPda => "candidate PDA is not deployed",
            FreezeError::CandidateMismatch => "candidate address mismatch",
            FreezeError::NotFreezeAuthority => "signer is not the current freeze authority",
            FreezeError::NotAdmin => "signer is not the current admin",
            FreezeError::NotAdminOrFreezeAuthority => "signer is not the current admin or freeze authority",
            FreezeError::MissingSignature => "freeze signature missing",
            FreezeError::Renounced => "freeze authority renounced",
            FreezeError::AlreadyFrozen => "program is already frozen",
            FreezeError::NotFrozen => "program is not frozen",
            FreezeError::AccountAlreadyFrozen => "account is already frozen",
            FreezeError::AccountNotFrozen => "account is not frozen",
            FreezeError::EncodingFailed => "failed to encode freeze account state",
            FreezeError::DecodingFailed => "failed to decode freeze account state",
            FreezeError::Frozen => "program is frozen",
            FreezeError::AccountFrozen => "account is frozen",
            FreezeError::AccountDataTooLarge => "FreezeConfig too large for account data",
            FreezeError::SlotOutOfBounds => "embedded slot window out of bounds",
        }
    }
}

/// Errors of the single-holder authority slot.
#[derive(Clone, Copy, Debug, PartialEq, Eq, Structural)]
pub enum AuthorityError {
    /// A signer candidate did not co-sign, or names the sentinel identity.
    InvalidCandidate,
    /// A PDA candidate has not been claimed by any program yet.
    UndeployedPda,
    /// A PDA candidate's derived address differs from the evidence account.
    CandidateMismatch,
    /// The signer is not the slot's holder.
    NotHolder,
    /// The slot is vacant.
    Renounced,
    /// The signer did not sign the transaction.
    MissingSignature,
    /// The slot's window does not fit inside the account's data.
    SlotOutOfBounds,
}

/// Errors of the admin slot.
#[derive(Clone, Copy, Debug, PartialEq, Eq, Structural)]
pub enum AdminError {
    /// Admin config data is empty.
    NotInitialized,
    /// The admin slot is vacant.
    Renounced,
    /// The signer is not the admin.
    NotAdmin,
    /// The signer did not sign the transaction.
    MissingSignature,
    /// A signer candidate did not co-sign, or names the sentinel identity.
    InvalidCandidate,
    /// A PDA candidate has not been claimed by any program yet.
    UndeployedPda,
    /// A PDA candidate's derived address differs from the evidence account.
    CandidateMismatch,
    /// Encoding the admin state failed.
    EncodingFailed,
    /// Non-empty admin bytes are malformed.
    DecodingFailed,
    /// The encoded admin state does not fit the account's data.
    AccountDataTooLarge,
    /// The admin window does not fit inside the account's data.
    SlotOutOfBounds,
}

/// How an authority slot error reads as a freeze error.
pub open spec fn authority_to_freeze(e: AuthorityError) -> FreezeError {
    match e {
        AuthorityError::InvalidCandidate => FreezeError::InvalidCandidate,
        AuthorityError::UndeployedPda => FreezeError::UndeployedPda,
        AuthorityError::CandidateMismatch => FreezeError::CandidateMismatch,
        AuthorityError::NotHolder => FreezeError::NotFreezeAuthority,
        AuthorityError::Renounced => FreezeError::Renounced,
        AuthorityError::MissingSignature => FreezeError::MissingSignature,
        AuthorityError::SlotOutOfBounds => FreezeError::SlotOutOfBounds,
    }
}

/// How an admin slot error reads as a freeze error.
pub open spec fn admin_to_freeze(e: AdminError) -> FreezeError {
    match e {
        AdminError::NotInitialized => FreezeError::NotInitialized,
        AdminError::Renounced => FreezeError::Renounced,
        AdminError::NotAdmin => FreezeError::NotAdmin,
        AdminError::MissingSignature => FreezeError::MissingSignature,
        AdminError::InvalidCandidate => FreezeError::InvalidCandidate,
        AdminError::UndeployedPda => FreezeError::UndeployedPda,
        AdminError::CandidateMismatch => FreezeError::CandidateMismatch,
        AdminError::EncodingFailed => FreezeError::EncodingFailed,
        AdminError::DecodingFailed => FreezeError::DecodingFailed,
        AdminError::AccountDataTooLarge => FreezeError::AccountDataTooLarge,
        AdminError::SlotOutOfBounds => FreezeError::SlotOutOfBounds,
    }
}

impl From<AuthorityError> for FreezeError {
    fn from(e: AuthorityError) -> (r: FreezeError) {
        match e {
            AuthorityError::InvalidCandidate => FreezeError::InvalidCandidate,
            AuthorityError::UndeployedPda => FreezeError::UndeployedPda,
            AuthorityError::CandidateMismatch => FreezeError::CandidateMismatch,
            AuthorityError::NotHolder => FreezeError::NotFreezeAuthority,
            AuthorityError::Renounced => FreezeError::Renounced,
            AuthorityError::MissingSignature => FreezeError::MissingSignature,
            AuthorityError::SlotOutOfBounds => FreezeError::SlotOutOfBounds,
        }
    }
}

impl vstd::std_specs::convert::FromSpecImpl<AuthorityError> for FreezeError {
    open spec fn obeys_from_spec() -> bool {
        true
    }

    open spec fn from_spec(e: AuthorityError) -> FreezeError {
        authority_to_freeze(e)
    }
}

impl From<AdminError> for FreezeError {
    fn from(e: AdminError) -> (r: FreezeError) {
        match e {
            AdminError::NotInitialized => FreezeError::NotInitialized,
            AdminError::Renounced => FreezeError::Renounced,
            AdminError::NotAdmin => FreezeError::NotAdmin,
            AdminError::MissingSignature => FreezeError::MissingSignature,
            AdminError::InvalidCandidate => FreezeError::InvalidCandidate,
            AdminError::UndeployedPda => FreezeError::UndeployedPda,
            AdminError::CandidateMismatch => FreezeError::CandidateMismatch,
            AdminError::EncodingFailed => FreezeError::EncodingFailed,
            AdminError::DecodingFailed => FreezeError::DecodingFailed,
            AdminError::AccountDataTooLarge => FreezeError::AccountDataTooLarge,
            AdminError::SlotOutOfBounds => FreezeError::SlotOutOfBounds,
        }
    }
}

impl vstd::std_specs::convert::FromSpecImpl<AdminError> for FreezeError {
    open spec fn obeys_from_spec() -> bool {
        true
    }

    open spec fn from_spec(e: AdminError) -> FreezeError {
        admin_to_freeze(e)
    }
}

} // verus!
