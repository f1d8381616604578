//! The admin slot as this library reads it: the admin's identity, stored
//! as an authority slot inside an admin config account, and the check
//! that a signer is that admin.
use vstd::prelude::*;

use crate::account::{zero_id, AccountWithMetadata};
use crate::errors::AdminError;
use crate::slot::{AuthoritySlot, SLOT_LEN};

verus! {

/// Decoding the admin slot at `offset` of `data`: empty data means the
/// admin config does not exist; otherwise the 32-byte window must fit.
pub open spec fn admin_decode_at(data: Seq<u8>, offset: int) -> Result<Seq<u8>, AdminError> {
    if data.len() == 0 {
        Err(AdminError::NotInitialized)
    } else if offset + SLOT_LEN > data.len() {
        Err(AdminError::SlotOutOfBounds)
    } else {
        Ok(data.subrange(offset, offset + SLOT_LEN))
    }
}

/// The admin check: a vacant admin slot accepts nobody; otherwise the
/// signer must be the admin and must have signed.
pub open spec fn admin_check(admin: Seq<u8>, signer: AccountWithMetadata) -> Result<(), AdminError> {
    if admin == zero_id() {
        Err(AdminError::Renounced)
    } else if signer.account_id@ != admin {
        Err(AdminError::NotAdmin)
    } else if !signer.is_authorized {
        Err(AdminError::MissingSignature)
    } else {
        Ok(())
    }
}

/// The admin slot.
#[derive(Clone, Copy, Debug, PartialEq, Eq)]
pub struct AdminConfig {
    /// The slot holding the admin's identity.
    pub slot: AuthoritySlot,
}

impl View for AdminConfig {
    type V = Seq<u8>;

    open spec fn view(&self) -> Seq<u8> {
        self.slot@
    }
}

impl AdminConfig {
    /// Reads the admin slot from `account`'s data at `offset`.
    pub fn from_account_at(account: &AccountWithMetadata, offset: usize) -> (r: Result<
        AdminConfig,
        AdminError,
    >)
        ensures
            match r {
                Ok(a) => admin_decode_at(account.account.data@, offset as int) == Ok::<
                    Seq<u8>,
                    AdminError,
                >(a@),
                Err(e) => admin_decode_at(account.account.data@, offset as int) == Err::<
                    Seq<u8>,
                    AdminError,
                >(e),
            },
    {
        if account.account.data.len() == 0 {
            return Err(AdminError::NotInitialized);
        }
        match AuthoritySlot::read_at(account.account.data.as_slice(), offset) {
            Ok(slot) => Ok(AdminConfig { slot }),
            Err(_) => Err(AdminError::SlotOutOfBounds),
        }
    }

    /// Checks that `signer` is the admin and signed. Errors: `Renounced`
    /// on a vacant slot, then `NotAdmin`, then `MissingSignature`.
    pub fn assert_admin(&self, signer: &AccountWithMetadata) -> (r: Result<(), AdminError>)
        ensures
            r == admin_check(self@, *signer),
    {
        if self.slot.is_renounced() {
            Err(AdminError::Renounced)
        } else if !signer.account_id.same_as(&self.slot.holder) {
            Err(AdminError::NotAdmin)
        } else if !signer.is_authorized {
            Err(AdminError::MissingSignature)
        } else {
            Ok(())
        }
    }
}

} // verus!
