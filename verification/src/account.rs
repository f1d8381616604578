//! Account identities, the account records the library reads and writes,
//! and the post-states an instruction hands back.
use vstd::prelude::*;

verus! {

broadcast use vstd::array::group_array_axioms;

/// A 32-byte account identity. The all-zero identity is the reserved
/// "nobody" sentinel (a vacant authority slot holds it).
#[derive(Clone, Copy, Debug, PartialEq, Eq)]
pub struct AccountId(pub [u8; 32]);

impl View for AccountId {
    type V = Seq<u8>;

    open spec fn view(&self) -> Seq<u8> {
        self.0@
    }
}

/// The all-zero 32-byte sequence: the identity of nobody.
pub open spec fn zero_id() -> Seq<u8> {
    Seq::new(32, |i: int| 0u8)
}

/// The identity of a program that owns an account: eight 32-bit words.
pub type ProgramId = [u32; 8];

/// Whether a program owner is the all-zero default owner (an account
/// that no program has claimed yet).
pub open spec fn is_default_owner(owner: Seq<u32>) -> bool {
    forall|i: int| 0 <= i < owner.len() ==> owner[i] == 0u32
}

impl AccountId {
    /// Wraps raw identity bytes.
    pub fn new(bytes: [u8; 32]) -> (r: AccountId)
        ensures
            r@ == bytes@,
    {
        AccountId(bytes)
    }

    /// The all-zero sentinel identity.
    pub fn zero() -> (r: AccountId)
        ensures
            r@ == zero_id(),
    {
        let r = AccountId([0u8; 32]);
        assert(r@ =~= zero_id());
        r
    }

    /// Whether this is the all-zero sentinel identity.
    pub fn is_default(&self) -> (r: bool)
        ensures
            r == (self@ == zero_id()),
    {
        let mut i: usize = 0;
        while i < 32
            invariant
                0 <= i <= 32,
                self@.len() == 32,
                forall|j: int| 0 <= j < i ==> self@[j] == 0u8,
            decreases 32 - i,
        {
            if self.0[i] != 0 {
                assert(self@[i as int] != zero_id()[i as int]);
                return false;
            }
            i = i + 1;
        }
        assert(self@ =~= zero_id());
        true
    }

    /// Whether two identities are the same bytes.
    pub fn same_as(&self, other: &AccountId) -> (r: bool)
        ensures
            r == (self@ == other@),
    {
        let mut i: usize = 0;
        while i < 32
            invariant
                0 <= i <= 32,
                self@.len() == 32,
                other@.len() == 32,
                forall|j: int| 0 <= j < i ==> self@[j] == other@[j],
            decreases 32 - i,
        {
            if self.0[i] != other.0[i] {
                return false;
            }
            i = i + 1;
        }
        assert(self@ =~= other@);
        true
    }
}

/// An on-chain account record: its owning program, balance, data bytes
/// and nonce. The library only ever reads and writes `data`.
#[derive(Clone, Debug, PartialEq, Eq)]
pub struct Account {
    /// The program that owns this account; all zeros when unclaimed.
    pub program_owner: ProgramId,
    /// The account's balance.
    pub balance: u128,
    /// The account's data bytes.
    pub data: Vec<u8>,
    /// The account's nonce.
    pub nonce: u128,
}

impl Account {
    /// Whether a program has claimed this account, i.e. its owner is not
    /// the default all-zero program.
    pub fn is_deployed(&self) -> (r: bool)
        ensures
            r == !is_default_owner(self.program_owner@),
    {
        let mut i: usize = 0;
        while i < 8
            invariant
                0 <= i <= 8,
                self.program_owner@.len() == 8,
                forall|j: int| 0 <= j < i ==> self.program_owner@[j] == 0u32,
            decreases 8 - i,
        {
            if self.program_owner[i] != 0 {
                return true;
            }
            i = i + 1;
        }
        false
    }
}

impl Default for Account {
    fn default() -> (r: Account)
        ensures
            is_default_owner(r.program_owner@),
            r.balance == 0,
            r.data@.len() == 0,
            r.nonce == 0,
    {
        Account { program_owner: [0u32; 8], balance: 0, data: Vec::new(), nonce: 0 }
    }
}

/// An account as an instruction sees it: the record, whether the
/// transaction's witness set authorised it, and its identity.
#[derive(Clone, Debug, PartialEq, Eq)]
pub struct AccountWithMetadata {
    /// The account record.
    pub account: Account,
    /// Whether the account signed the transaction.
    pub is_authorized: bool,
    /// The account's identity.
    pub account_id: AccountId,
}

/// `after` differs from `before` at most in the data bytes.
pub open spec fn same_but_data(before: AccountWithMetadata, after: AccountWithMetadata) -> bool {
    &&& after.account.program_owner == before.account.program_owner
    &&& after.account.balance == before.account.balance
    &&& after.account.nonce == before.account.nonce
    &&& after.is_authorized == before.is_authorized
    &&& after.account_id == before.account_id
}

/// The address claim an instruction asks the runtime to make for a
/// freshly written account.
#[derive(Clone, Copy, Debug, PartialEq, Eq)]
pub enum PdaClaim {
    /// Claim the program's single freeze config address, derived from
    /// the literal seed `"freeze_config"`.
    FreezeConfig,
    /// Claim the per-target marker address, derived from the seeds
    /// `"frozen"` and the target's identity bytes.
    FrozenMarker { target: [u8; 32] },
}

/// One account as an instruction hands it back, with the claim (if
/// any) the runtime must make for it.
#[derive(Clone, Debug, PartialEq, Eq)]
pub struct PostState {
    /// The account record after the instruction.
    pub account: Account,
    /// The address claim to make, if any.
    pub claim: Option<PdaClaim>,
}

impl PostState {
    /// A post-state with no claim.
    pub fn unclaimed(account: Account) -> (r: PostState)
        ensures
            r.account == account,
            r.claim is None,
    {
        PostState { account, claim: None }
    }

    /// The account record.
    pub fn account(&self) -> (r: &Account)
        ensures
            *r == self.account,
    {
        &self.account
    }

    /// The claim the runtime must make, if any.
    pub fn required_claim(&self) -> (r: Option<PdaClaim>)
        ensures
            r == self.claim,
    {
        self.claim
    }
}

/// What an instruction returns on success: one post-state per account,
/// in declared order.
#[derive(Clone, Debug, PartialEq, Eq)]
pub struct InstructionOutput {
    /// The post-states, in declared account order.
    pub post_states: Vec<PostState>,
}

} // verus!
