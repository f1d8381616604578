//! The single-holder authority slot: one 32-byte holder identity, the
//! all-zero identity meaning "vacant", and the candidate check that a new
//! holder must pass. Its wire form is exactly the holder's 32 bytes.
use vstd::prelude::*;

use crate::account::{is_default_owner, zero_id, AccountId, AccountWithMetadata, ProgramId};
use crate::errors::AuthorityError;

verus! {

broadcast use vstd::array::group_array_axioms;

/// Width in bytes of a slot's wire window.
pub const SLOT_LEN: usize = 32;

/// `data` with the bytes from `offset` on replaced by `window`, every
/// other byte kept.
pub open spec fn splice(data: Seq<u8>, offset: int, window: Seq<u8>) -> Seq<u8> {
    data.take(offset) + window + data.skip(offset + window.len())
}

/// The check a slot holding `holder` applies to `signer`: a vacant slot
/// accepts nobody; otherwise the signer must be the holder and must have
/// signed.
pub open spec fn slot_check(holder: Seq<u8>, signer: AccountWithMetadata) -> Result<(), AuthorityError> {
    if holder == zero_id() {
        Err(AuthorityError::Renounced)
    } else if signer.account_id@ != holder {
        Err(AuthorityError::NotHolder)
    } else if !signer.is_authorized {
        Err(AuthorityError::MissingSignature)
    } else {
        Ok(())
    }
}

/// Whether a slot holding `holder` accepts `signer`.
pub open spec fn holder_accepts(holder: Seq<u8>, signer: AccountWithMetadata) -> bool {
    slot_check(holder, signer) is Ok
}

/// A single-holder authority slot.
#[derive(Clone, Copy, Debug, PartialEq, Eq)]
pub struct AuthoritySlot {
    /// The current holder; all zeros when the slot is vacant.
    pub holder: AccountId,
}

impl View for AuthoritySlot {
    type V = Seq<u8>;

    open spec fn view(&self) -> Seq<u8> {
        self.holder@
    }
}

impl AuthoritySlot {
    /// A slot held by `holder`. The sentinel identity is refused, since it
    /// means "vacant".
    pub fn initialize(holder: AccountId) -> (r: Result<AuthoritySlot, AuthorityError>)
        ensures
            match r {
                Ok(s) => holder@ != zero_id() && s@ == holder@,
                Err(e) => holder@ == zero_id() && e == AuthorityError::InvalidCandidate,
            },
    {
        if holder.is_default() {
            Err(AuthorityError::InvalidCandidate)
        } else {
            Ok(AuthoritySlot { holder })
        }
    }

    /// A vacant slot.
    pub fn vacant() -> (r: AuthoritySlot)
        ensures
            r@ == zero_id(),
    {
        AuthoritySlot { holder: AccountId::zero() }
    }

    /// The current holder.
    pub fn holder(&self) -> (r: AccountId)
        ensures
            r@ == self@,
    {
        self.holder
    }

    /// Whether the slot is vacant.
    pub fn is_renounced(&self) -> (r: bool)
        ensures
            r == (self@ == zero_id()),
    {
        self.holder.is_default()
    }

    /// Checks that `signer` is the holder and signed. Errors: `Renounced`
    /// on a vacant slot, then `NotHolder`, then `MissingSignature`.
    pub fn assert_holder(&self, signer: &AccountWithMetadata) -> (r: Result<(), AuthorityError>)
        ensures
            r == slot_check(self@, *signer),
    {
        if self.holder.is_default() {
            Err(AuthorityError::Renounced)
        } else if !signer.account_id.same_as(&self.holder) {
            Err(AuthorityError::NotHolder)
        } else if !signer.is_authorized {
            Err(AuthorityError::MissingSignature)
        } else {
            Ok(())
        }
    }

    /// Installs `next` as the holder; refuses the sentinel identity and
    /// then leaves the slot as it was.
    pub fn transfer_to(&mut self, next: AccountId) -> (r: Result<(), AuthorityError>)
        ensures
            next@ == zero_id() ==> r == Err::<(), AuthorityError>(AuthorityError::InvalidCandidate)
                && final(self)@ == old(self)@,
            next@ != zero_id() ==> r is Ok && final(self)@ == next@,
    {
        if next.is_default() {
            Err(AuthorityError::InvalidCandidate)
        } else {
            self.holder = next;
            Ok(())
        }
    }

    /// Vacates the slot.
    pub fn renounce(&mut self)
        ensures
            final(self)@ == zero_id(),
    {
        self.holder = AccountId::zero();
    }

    /// Reads the slot from the 32 bytes of `data` at `offset`.
    pub fn read_at(data: &[u8], offset: usize) -> (r: Result<AuthoritySlot, AuthorityError>)
        ensures
            offset + SLOT_LEN <= data@.len() ==> (r matches Ok(s) && s@ == data@.subrange(
                offset as int,
                offset + SLOT_LEN,
            )),
            offset + SLOT_LEN > data@.len() ==> r == Err::<AuthoritySlot, AuthorityError>(
                AuthorityError::SlotOutOfBounds,
            ),
    {
        if data.len() < SLOT_LEN || offset > data.len() - SLOT_LEN {
            return Err(AuthorityError::SlotOutOfBounds);
        }
        let mut bytes = [0u8; 32];
        let mut i: usize = 0;
        while i < SLOT_LEN
            invariant
                0 <= i <= SLOT_LEN,
                offset + SLOT_LEN <= data.len(),
                bytes@.len() == 32,
                forall|j: int| 0 <= j < i ==> bytes@[j] == data@[offset + j],
            decreases SLOT_LEN - i,
        {
            bytes[i] = data[offset + i];
            i = i + 1;
        }
        let s = AuthoritySlot { holder: AccountId(bytes) };
        assert(s@ =~= data@.subrange(offset as int, offset + SLOT_LEN));
        Ok(s)
    }

    /// Writes the holder's 32 bytes into `data` at `offset`, leaving every
    /// other byte as it was. Refuses a window that does not fit, and then
    /// leaves `data` as it was.
    pub fn write_at(&self, data: &mut Vec<u8>, offset: usize) -> (r: Result<(), AuthorityError>)
        ensures
            offset + SLOT_LEN <= old(data)@.len() ==> r is Ok && final(data)@ == splice(
                old(data)@,
                offset as int,
                self@,
            ),
            offset + SLOT_LEN > old(data)@.len() ==> r == Err::<(), AuthorityError>(
                AuthorityError::SlotOutOfBounds,
            ) && final(data)@ == old(data)@,
    {
        if data.len() < SLOT_LEN || offset > data.len() - SLOT_LEN {
            return Err(AuthorityError::SlotOutOfBounds);
        }
        let ghost before = data@;
        let mut i: usize = 0;
        while i < SLOT_LEN
            invariant
                0 <= i <= SLOT_LEN,
                offset + SLOT_LEN <= before.len(),
                data@.len() == before.len(),
                offset + SLOT_LEN <= data.len(),
                self@.len() == 32,
                forall|j: int| 0 <= j < offset ==> data@[j] == before[j],
                forall|j: int| offset + SLOT_LEN <= j < before.len() ==> data@[j] == before[j],
                forall|j: int| offset + i <= j < offset + SLOT_LEN ==> data@[j] == before[j],
                forall|k: int| 0 <= k < i ==> data@[offset + k] == self@[k],
            decreases SLOT_LEN - i,
        {
            data.set(offset + i, self.holder.0[i]);
            i = i + 1;
        }
        assert(data@ =~= splice(before, offset as int, self@));
        Ok(())
    }
}

/// The claim describing an intended new holder: `Signer` proves key
/// control by co-signing; `Pda` names a program-derived address, proved
/// by address derivation plus a deployment check. Always paired with an
/// evidence account that carries the chain state.
#[derive(Clone, Copy, Debug, PartialEq, Eq)]
pub enum AuthorityCandidate {
    /// The evidence account itself, which must have signed.
    Signer,
    /// The address derived from `program_id` and `seed`.
    Pda { program_id: ProgramId, seed: [u8; 32] },
}

/// The identity a candidate resolves to, given its evidence account and,
/// for a PDA candidate, the address derived from its program id and seed.
pub open spec fn candidate_check(
    candidate: AuthorityCandidate,
    evidence: AccountWithMetadata,
    derived_address: Seq<u8>,
) -> Result<Seq<u8>, AuthorityError> {
    match candidate {
        AuthorityCandidate::Signer => {
            if evidence.is_authorized && evidence.account_id@ != zero_id() {
                Ok(evidence.account_id@)
            } else {
                Err(AuthorityError::InvalidCandidate)
            }
        },
        AuthorityCandidate::Pda { .. } => {
            if derived_address != evidence.account_id@ {
                Err(AuthorityError::CandidateMismatch)
            } else if is_default_owner(evidence.account.program_owner@) {
                Err(AuthorityError::UndeployedPda)
            } else {
                Ok(evidence.account_id@)
            }
        },
    }
}

impl AuthorityCandidate {
    /// Resolves the candidate against its evidence account. A `Signer`
    /// must have signed and must not be the sentinel identity. For a
    /// `Pda`, `derived_address` is the address the runtime derives from
    /// the candidate's program id and seed (unused for a `Signer`): it
    /// must equal the evidence account's identity, and that account must
    /// already be claimed by a program.
    pub fn validate(&self, evidence: &AccountWithMetadata, derived_address: &AccountId) -> (r: Result<
        AccountId,
        AuthorityError,
    >)
        ensures
            match r {
                Ok(id) => candidate_check(*self, *evidence, derived_address@) == Ok::<
                    Seq<u8>,
                    AuthorityError,
                >(id@),
                Err(e) => candidate_check(*self, *evidence, derived_address@) == Err::<
                    Seq<u8>,
                    AuthorityError,
                >(e),
            },
    {
        match self {
            AuthorityCandidate::Signer => {
                if evidence.is_authorized && !evidence.account_id.is_default() {
                    Ok(evidence.account_id)
                } else {
                    Err(AuthorityError::InvalidCandidate)
                }
            },
            AuthorityCandidate::Pda { .. } => {
                if !derived_address.same_as(&evidence.account_id) {
                    Err(AuthorityError::CandidateMismatch)
                } else if !evidence.account.is_deployed() {
                    Err(AuthorityError::UndeployedPda)
                } else {
                    Ok(evidence.account_id)
                }
            },
        }
    }
}

} // verus!
