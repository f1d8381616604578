//! Laws of the library, proved over the specifications that the
//! operations' own contracts use.
use vstd::prelude::*;

use crate::account::{is_default_owner, zero_id, Account, AccountWithMetadata};
use crate::admin::{admin_check, admin_decode_at};
use crate::config::{
    config_decode, config_decode_at, config_window, flag_byte, freeze_check,
    renounce_at, resolve_candidate, set_flag_at, transfer_at, FreezeConfig, CONFIG_LEN,
};
use crate::errors::FreezeError;
use crate::frozen_account::{marker_decode, marker_set};
use crate::slot::{holder_accepts, splice, AuthorityCandidate};
use crate::{
    account_exists, account_freeze_outcome, account_release_outcome, admin_if_decodable,
    initialize_outcome, not_frozen_outcome, program_flag_outcome, transfer_outcome,
};

verus! {

/// Splicing a window that fits keeps the length, puts the window's bytes
/// in place and keeps every other byte.
pub proof fn lemma_splice(data: Seq<u8>, offset: int, window: Seq<u8>)
    requires
        0 <= offset,
        offset + window.len() <= data.len(),
    ensures
        splice(data, offset, window).len() == data.len(),
        splice(data, offset, window).subrange(offset, offset + window.len()) == window,
        forall|i: int|
            0 <= i < data.len() && !(offset <= i < offset + window.len()) ==> #[trigger] splice(
                data,
                offset,
                window,
            )[i] == data[i],
        forall|i: int|
            offset <= i < offset + window.len() ==> #[trigger] splice(data, offset, window)[i]
                == window[i - offset],
{
    let s = splice(data, offset, window);
    assert(s.subrange(offset, offset + window.len()) =~= window);
}

/// Decoding the window a write just spliced in gives back the written
/// holder and flag (read after write), at any offset where it fits.
pub proof fn law_read_after_write_at(data: Seq<u8>, offset: int, holder: Seq<u8>, frozen: bool)
    requires
        0 <= offset,
        offset + CONFIG_LEN <= data.len(),
        holder.len() == 32,
    ensures
        config_decode_at(splice(data, offset, config_window(holder, frozen)), offset) == Ok::<
            (Seq<u8>, bool),
            FreezeError,
        >((holder, frozen)),
{
    let w = config_window(holder, frozen);
    lemma_splice(data, offset, w);
    let s = splice(data, offset, w);
    assert(s[offset + 32] == w[32]);
    assert(s.subrange(offset, offset + 32) =~= holder) by {
        assert forall|i: int| 0 <= i < 32 implies s.subrange(offset, offset + 32)[i] == holder[i] by {
            assert(s[offset + i] == w[i]);
        }
    }
}

/// The whole-account wire form decodes back to the config it encodes.
pub proof fn law_encode_decode_roundtrip(c: FreezeConfig)
    ensures
        config_decode(config_window(c@.0, c@.1)) == Ok::<(Seq<u8>, bool), FreezeError>(c@),
{
    let w = config_window(c@.0, c@.1);
    assert(w.subrange(0, 32) =~= c@.0);
}

/// A strict decode of a dedicated account agrees with the window decode
/// at offset 0: dedicated mode is the degenerate embedded case.
pub proof fn law_dedicated_is_offset_zero(data: Seq<u8>)
    requires
        config_decode(data) is Ok,
    ensures
        config_decode_at(data, 0) == config_decode(data),
{
}

/// Window writes touch only their window: after a successful flag
/// toggle, transfer or renounce at `offset`, the data has its old length
/// and every byte outside `[offset, offset + 33)` is unchanged.
pub proof fn law_window_isolation(
    data: Seq<u8>,
    offset: int,
    current: AccountWithMetadata,
    state: bool,
    candidate: AuthorityCandidate,
    evidence: AccountWithMetadata,
    derived_address: Seq<u8>,
    admin: Option<Seq<u8>>,
)
    requires
        0 <= offset,
    ensures
        set_flag_at(data, offset, current, state) matches Ok(d) ==> d.len() == data.len() && (
        forall|i: int|
            0 <= i < data.len() && !(offset <= i < offset + CONFIG_LEN) ==> #[trigger] d[i]
                == data[i]),
        transfer_at(data, offset, candidate, evidence, derived_address) matches Ok(d) ==> d.len()
            == data.len() && (forall|i: int|
            0 <= i < data.len() && !(offset <= i < offset + CONFIG_LEN) ==> #[trigger] d[i]
                == data[i]),
        renounce_at(data, offset, admin, current) matches Ok(d) ==> d.len() == data.len() && (
        forall|i: int|
            0 <= i < data.len() && !(offset <= i < offset + CONFIG_LEN) ==> #[trigger] d[i]
                == data[i]),
{
    if let Ok((h, f)) = config_decode_at(data, offset) {
        assert(h.len() == 32);
        lemma_splice(data, offset, config_window(h, state));
        lemma_splice(data, offset, config_window(zero_id(), f));
        if let Ok(id) = resolve_candidate(candidate, evidence, derived_address) {
            assert(id.len() == 32);
            lemma_splice(data, offset, config_window(id, f));
        }
    }
}

/// Only the freeze authority moves the program-wide flag: a toggle that
/// succeeds was made by the slot's holder, who signed, on a slot that is
/// not vacant; and afterwards the window holds the same holder and the
/// requested flag.
pub proof fn law_only_holder_toggles(data: Seq<u8>, offset: int, current: AccountWithMetadata, state: bool)
    requires
        0 <= offset,
        set_flag_at(data, offset, current, state) is Ok,
    ensures
        config_decode_at(data, offset) matches Ok((holder, _)) && holder_accepts(holder, current)
            && holder != zero_id() && current.account_id@ == holder && current.is_authorized
            && config_decode_at(set_flag_at(data, offset, current, state).unwrap(), offset) == Ok::<
            (Seq<u8>, bool),
            FreezeError,
        >((holder, state)),
{
    let (h, f) = config_decode_at(data, offset).unwrap();
    law_read_after_write_at(data, offset, h, state);
}

/// Releasing undoes freezing: on an unfrozen window, a successful freeze
/// followed by a release by the same caller restores the exact bytes.
pub proof fn law_release_undoes_freeze(data: Seq<u8>, offset: int, current: AccountWithMetadata)
    requires
        0 <= offset,
        config_decode_at(data, offset) matches Ok((_, frozen)) && !frozen,
        set_flag_at(data, offset, current, true) is Ok,
    ensures
        set_flag_at(set_flag_at(data, offset, current, true).unwrap(), offset, current, false)
            == Ok::<Seq<u8>, FreezeError>(data),
{
    let (h, f) = config_decode_at(data, offset).unwrap();
    let d1 = set_flag_at(data, offset, current, true).unwrap();
    law_read_after_write_at(data, offset, h, true);
    lemma_splice(data, offset, config_window(h, true));
    lemma_splice(d1, offset, config_window(h, false));
    let d2 = splice(d1, offset, config_window(h, false));
    assert(d2 =~= data) by {
        assert forall|i: int| 0 <= i < data.len() implies d2[i] == data[i] by {
            if offset <= i < offset + 32 {
                assert(data.subrange(offset, offset + 32)[i - offset] == data[i]);
            }
        }
    }
}

/// A transfer installs the resolved candidate and keeps the program-wide
/// flag: rotating the authority never unfreezes the program.
pub proof fn law_transfer_keeps_flag(
    data: Seq<u8>,
    offset: int,
    candidate: AuthorityCandidate,
    evidence: AccountWithMetadata,
    derived_address: Seq<u8>,
)
    requires
        0 <= offset,
        transfer_at(data, offset, candidate, evidence, derived_address) is Ok,
    ensures
        config_decode_at(data, offset) matches Ok((_, frozen)) && resolve_candidate(
            candidate,
            evidence,
            derived_address,
        ) matches Ok(id) && config_decode_at(
            transfer_at(data, offset, candidate, evidence, derived_address).unwrap(),
            offset,
        ) == Ok::<(Seq<u8>, bool), FreezeError>((id, frozen)),
{
    let (h, f) = config_decode_at(data, offset).unwrap();
    let id = resolve_candidate(candidate, evidence, derived_address).unwrap();
    assert(id.len() == 32);
    law_read_after_write_at(data, offset, id, f);
}

/// Renounce vacates the slot and keeps the flag; from then on every
/// flag toggle is refused with `Renounced`, whoever calls.
pub proof fn law_renounce_vacates(
    data: Seq<u8>,
    offset: int,
    admin: Option<Seq<u8>>,
    current: AccountWithMetadata,
    anyone: AccountWithMetadata,
    state: bool,
)
    requires
        0 <= offset,
        renounce_at(data, offset, admin, current) is Ok,
    ensures
        config_decode_at(data, offset) matches Ok((_, frozen)) && config_decode_at(
            renounce_at(data, offset, admin, current).unwrap(),
            offset,
        ) == Ok::<(Seq<u8>, bool), FreezeError>((zero_id(), frozen)),
        set_flag_at(renounce_at(data, offset, admin, current).unwrap(), offset, anyone, state)
            == Err::<Seq<u8>, FreezeError>(FreezeError::Renounced),
{
    let (h, f) = config_decode_at(data, offset).unwrap();
    law_read_after_write_at(data, offset, zero_id(), f);
}

/// Renounce is not terminal: after a renounce, a transfer with a
/// candidate that resolves installs that candidate, who can then toggle
/// the flag.
pub proof fn law_renounce_recoverable(
    data: Seq<u8>,
    offset: int,
    admin: Option<Seq<u8>>,
    current: AccountWithMetadata,
    candidate: AuthorityCandidate,
    evidence: AccountWithMetadata,
    derived_address: Seq<u8>,
)
    requires
        0 <= offset,
        renounce_at(data, offset, admin, current) is Ok,
        resolve_candidate(candidate, evidence, derived_address) is Ok,
    ensures
        transfer_at(renounce_at(data, offset, admin, current).unwrap(), offset, candidate, evidence, derived_address) matches Ok(d)
            && config_decode_at(d, offset) matches Ok((holder, _)) && holder == resolve_candidate(
            candidate,
            evidence,
            derived_address,
        ).unwrap(),
{
    let (h, f) = config_decode_at(data, offset).unwrap();
    let d0 = renounce_at(data, offset, admin, current).unwrap();
    law_read_after_write_at(data, offset, zero_id(), f);
    lemma_splice(data, offset, config_window(zero_id(), f));
    let id = resolve_candidate(candidate, evidence, derived_address).unwrap();
    assert(id.len() == 32);
    law_read_after_write_at(d0, offset, id, f);
}

/// The one-byte marker form decodes back to its flag.
pub proof fn law_marker_roundtrip(b: bool)
    ensures
        marker_decode(seq![flag_byte(b)]) == Ok::<bool, FreezeError>(b),
{
}

/// The freeze check follows the program-wide flag: once a freeze succeeds the
/// check refuses every caller with `Frozen`; once a release succeeds the
/// check lets through every caller whose marker decodes as not frozen.
pub proof fn law_freeze_check_follows_program_flag(
    data: Seq<u8>,
    offset: int,
    current: AccountWithMetadata,
    marker: Seq<u8>,
)
    requires
        0 <= offset,
    ensures
        set_flag_at(data, offset, current, true) matches Ok(d) ==> not_frozen_outcome(d, offset, marker)
            == Err::<(), FreezeError>(FreezeError::Frozen),
        set_flag_at(data, offset, current, false) matches Ok(d) ==> (marker_decode(marker)
            == Ok::<bool, FreezeError>(false) ==> not_frozen_outcome(d, offset, marker) is Ok),
{
    if let Ok((h, f)) = config_decode_at(data, offset) {
        law_read_after_write_at(data, offset, h, true);
        law_read_after_write_at(data, offset, h, false);
    }
}

/// The freeze check follows the per-account flag: on an unfrozen program, a
/// caller whose marker was just frozen is refused with `AccountFrozen`,
/// and once the marker is released the caller passes again.
pub proof fn law_freeze_check_follows_account_flag(
    config_data: Seq<u8>,
    offset: int,
    marker: Seq<u8>,
    holder: Seq<u8>,
    current: AccountWithMetadata,
)
    requires
        config_decode_at(config_data, offset) matches Ok((_, frozen)) && !frozen,
    ensures
        marker_set(marker, holder, current, true) matches Ok(m) ==> not_frozen_outcome(config_data, offset, m)
            == Err::<(), FreezeError>(FreezeError::AccountFrozen),
        marker_set(marker, holder, current, false) matches Ok(m) ==> not_frozen_outcome(config_data, offset, m)
            is Ok,
{
}

/// One freeze authority at a time: after a transfer to a different
/// identity, the previous holder can no longer toggle the flag.
pub proof fn law_transfer_replaces_holder(
    data: Seq<u8>,
    offset: int,
    candidate: AuthorityCandidate,
    evidence: AccountWithMetadata,
    derived_address: Seq<u8>,
    previous: AccountWithMetadata,
    state: bool,
)
    requires
        0 <= offset,
        transfer_at(data, offset, candidate, evidence, derived_address) is Ok,
        config_decode_at(data, offset) matches Ok((holder, _)) && previous.account_id@ == holder,
        resolve_candidate(candidate, evidence, derived_address) matches Ok(id) && id
            != previous.account_id@,
    ensures
        set_flag_at(
            transfer_at(data, offset, candidate, evidence, derived_address).unwrap(),
            offset,
            previous,
            state,
        ) == Err::<Seq<u8>, FreezeError>(FreezeError::NotFreezeAuthority),
{
    law_transfer_keeps_flag(data, offset, candidate, evidence, derived_address);
}

/// A candidate only resolves to a real, consenting identity: never the
/// sentinel; a signer must have signed and is the evidence account; a
/// PDA must be the derived address of an account some program owns.
pub proof fn law_candidate_validity(
    candidate: AuthorityCandidate,
    evidence: AccountWithMetadata,
    derived_address: Seq<u8>,
)
    requires
        resolve_candidate(candidate, evidence, derived_address) is Ok,
    ensures
        resolve_candidate(candidate, evidence, derived_address) matches Ok(id) && id != zero_id()
            && id == evidence.account_id@,
        candidate is Signer ==> evidence.is_authorized,
        candidate is Pda ==> derived_address == evidence.account_id@ && !is_default_owner(
            evidence.account.program_owner@,
        ),
{
}

/// Only the admin creates the freeze config, and only once: a
/// successful initialize was signed by the admin of the admin config,
/// found no existing config account, and its first holder is that
/// caller, not frozen. An existing config is never overwritten, whoever
/// calls.
pub proof fn law_initialize_requires_admin(
    admin_data: Seq<u8>,
    caller: AccountWithMetadata,
    freeze_config: Account,
)
    ensures
        initialize_outcome(admin_data, caller, freeze_config) is Ok ==> (admin_decode_at(
            admin_data,
            0,
        ) matches Ok(admin) && admin_check(admin, caller) is Ok && !account_exists(freeze_config)
            && initialize_outcome(admin_data, caller, freeze_config) == Ok::<Seq<u8>, FreezeError>(
            config_window(caller.account_id@, false),
        )),
        account_exists(freeze_config) ==> initialize_outcome(admin_data, caller, freeze_config) is Err,
{
}

/// The program-wide instructions only move the flag: freezing a frozen
/// program or releasing an unfrozen one is refused, and a successful
/// call flips the flag and keeps the holder.
pub proof fn law_program_flag_flips(data: Seq<u8>, offset: int, caller: AccountWithMetadata, state: bool)
    requires
        0 <= offset,
    ensures
        config_decode_at(data, offset) matches Ok((_, frozen)) && frozen == state
            ==> program_flag_outcome(data, offset, caller, state) is Err,
        program_flag_outcome(data, offset, caller, state) is Ok ==> (config_decode_at(data, offset) matches Ok((
            holder,
            frozen,
        )) && frozen != state && holder_accepts(holder, caller) && config_decode_at(
            program_flag_outcome(data, offset, caller, state).unwrap(),
            offset,
        ) == Ok::<(Seq<u8>, bool), FreezeError>((holder, state))),
{
    if let Ok((h, f)) = config_decode_at(data, offset) {
        law_read_after_write_at(data, offset, h, state);
    }
}

/// Only the admin moves the freeze authority: a successful transfer
/// instruction was signed by the admin read at the admin offset.
pub proof fn law_transfer_requires_admin(
    admin_data: Seq<u8>,
    admin_offset: int,
    caller: AccountWithMetadata,
    config_data: Seq<u8>,
    offset: int,
    candidate: AuthorityCandidate,
    evidence: AccountWithMetadata,
    derived_address: Seq<u8>,
)
    requires
        transfer_outcome(
            admin_data,
            admin_offset,
            caller,
            config_data,
            offset,
            candidate,
            evidence,
            derived_address,
        ) is Ok,
    ensures
        admin_decode_at(admin_data, admin_offset) matches Ok(admin) && admin_check(admin, caller)
            is Ok,
{
}

/// Renounce takes either the admin or the holder: a successful renounce
/// was signed by the admin (when one decodes) or by the current holder.
pub proof fn law_renounce_requires_admin_or_holder(
    admin_data: Seq<u8>,
    admin_offset: int,
    config_data: Seq<u8>,
    offset: int,
    caller: AccountWithMetadata,
)
    requires
        renounce_at(config_data, offset, admin_if_decodable(admin_data, admin_offset), caller) is Ok,
    ensures
        config_decode_at(config_data, offset) matches Ok((holder, _)) && (holder_accepts(
            holder,
            caller,
        ) || (admin_decode_at(admin_data, admin_offset) matches Ok(admin) && admin_check(
            admin,
            caller,
        ) is Ok)),
{
}

/// Only the freeze authority freezes or releases an account: a
/// successful per-account freeze or release was made by the holder of
/// the config window; a release also needs the target to be frozen.
pub proof fn law_only_holder_marks_accounts(
    config_data: Seq<u8>,
    offset: int,
    marker: Seq<u8>,
    caller: AccountWithMetadata,
)
    ensures
        account_freeze_outcome(config_data, offset, marker, caller) is Ok ==> (config_decode_at(
            config_data,
            offset,
        ) matches Ok((holder, _)) && freeze_check(holder, caller) is Ok),
        account_release_outcome(config_data, offset, marker, caller) is Ok ==> (config_decode_at(
            config_data,
            offset,
        ) matches Ok((holder, _)) && freeze_check(holder, caller) is Ok && marker_decode(marker)
            == Ok::<bool, FreezeError>(true)),
{
}

/// A missing marker and a released marker read the same to the freeze
/// check.
pub proof fn law_absent_marker_is_unfrozen(config_data: Seq<u8>, offset: int)
    ensures
        not_frozen_outcome(config_data, offset, Seq::<u8>::empty()) == not_frozen_outcome(
            config_data,
            offset,
            seq![0u8],
        ),
{
}

/// Initialization happens once: once `freeze_initialize` has written a
/// config into an account, no later `freeze_initialize` on that account
/// succeeds, whoever calls, and neither does one after a renounce has
/// vacated the slot.
pub proof fn law_initialize_once(
    admin_data: Seq<u8>,
    caller: AccountWithMetadata,
    fresh: Account,
    written: Account,
    later_admin_data: Seq<u8>,
    later_caller: AccountWithMetadata,
    renounce_admin: Option<Seq<u8>>,
    renouncer: AccountWithMetadata,
    renounced: Account,
)
    requires
        initialize_outcome(admin_data, caller, fresh) is Ok,
        written.data@ == initialize_outcome(admin_data, caller, fresh).unwrap(),
    ensures
        initialize_outcome(later_admin_data, later_caller, written) is Err,
        renounce_at(written.data@, 0, renounce_admin, renouncer) matches Ok(d) ==> (renounced.data@
            == d ==> initialize_outcome(later_admin_data, later_caller, renounced) is Err),
{
    if let Ok(d) = renounce_at(written.data@, 0, renounce_admin, renouncer) {
        let (h, f) = config_decode_at(written.data@, 0).unwrap();
        lemma_splice(written.data@, 0, config_window(zero_id(), f));
    }
}

/// The config window at `offset` of `data` is well formed: it fits, and
/// its flag byte is 0 or 1.
pub open spec fn window_well_formed(data: Seq<u8>, offset: int) -> bool {
    &&& 0 <= offset
    &&& offset + 33 <= data.len()
    &&& (data[offset + 32] == 0u8 || data[offset + 32] == 1u8)
}

/// `caller` is the non-vacant holder stored in the window at `offset`,
/// and signed.
pub open spec fn caller_holds_window(data: Seq<u8>, offset: int, caller: AccountWithMetadata) -> bool {
    &&& caller.account_id@ == data.subrange(offset, offset + 32)
    &&& caller.account_id@ != zero_id()
    &&& caller.is_authorized
}

/// A frozen program refuses every gated call: whenever the window's flag
/// byte is 1 the freeze check answers `Frozen`, whatever the holder
/// bytes (a vacant, renounced slot included) and whatever the marker.
pub proof fn law_frozen_flag_refuses_every_call(data: Seq<u8>, offset: int, marker: Seq<u8>)
    requires
        0 <= offset,
        offset + 33 <= data.len(),
        data[offset + 32] == 1u8,
    ensures
        not_frozen_outcome(data, offset, marker) == Err::<(), FreezeError>(FreezeError::Frozen),
{
}

/// Renouncing a frozen program leaves it frozen: after a successful
/// renounce of a window whose flag byte is 1, the freeze check refuses
/// every caller with `Frozen`.
pub proof fn law_renounce_keeps_program_frozen(
    data: Seq<u8>,
    offset: int,
    admin: Option<Seq<u8>>,
    current: AccountWithMetadata,
    marker: Seq<u8>,
)
    requires
        window_well_formed(data, offset),
        data[offset + 32] == 1u8,
        renounce_at(data, offset, admin, current) is Ok,
    ensures
        not_frozen_outcome(renounce_at(data, offset, admin, current).unwrap(), offset, marker)
            == Err::<(), FreezeError>(FreezeError::Frozen),
{
    lemma_splice(data, offset, config_window(zero_id(), true));
    assert(config_window(zero_id(), true)[32] == 1u8);
}

/// The admin rotates the freeze authority whatever the program-wide
/// flag: when the admin slot accepts the caller, the window is well
/// formed and the candidate resolves, the transfer succeeds, the new
/// holder is the candidate, the flag byte is kept, and every byte
/// outside the holder bytes is unchanged.
pub proof fn law_transfer_works_while_frozen(
    admin_data: Seq<u8>,
    admin_offset: int,
    caller: AccountWithMetadata,
    data: Seq<u8>,
    offset: int,
    candidate: AuthorityCandidate,
    evidence: AccountWithMetadata,
    derived_address: Seq<u8>,
)
    requires
        0 <= admin_offset,
        admin_offset + 32 <= admin_data.len(),
        caller.account_id@ == admin_data.subrange(admin_offset, admin_offset + 32),
        caller.account_id@ != zero_id(),
        caller.is_authorized,
        window_well_formed(data, offset),
        resolve_candidate(candidate, evidence, derived_address) is Ok,
    ensures
        transfer_outcome(
            admin_data,
            admin_offset,
            caller,
            data,
            offset,
            candidate,
            evidence,
            derived_address,
        ) matches Ok(d) && d.len() == data.len() && d.subrange(offset, offset + 32)
            == evidence.account_id@ && d[offset + 32] == data[offset + 32] && (forall|i: int|
            0 <= i < data.len() && !(offset <= i < offset + 32) ==> #[trigger] d[i] == data[i]),
{
    let (h, f) = config_decode_at(data, offset).unwrap();
    let id = resolve_candidate(candidate, evidence, derived_address).unwrap();
    assert(id.len() == 32);
    lemma_splice(data, offset, config_window(id, f));
    let d = splice(data, offset, config_window(id, f));
    assert(d[offset + 32] == config_window(id, f)[32]);
}

/// The same for a signer candidate, stated on the evidence account: an
/// admin-signed transfer to a co-signing, non-sentinel account succeeds
/// on any well-formed window, frozen or not, and installs that account.
pub proof fn law_signer_transfer_works_while_frozen(
    admin_data: Seq<u8>,
    admin_offset: int,
    caller: AccountWithMetadata,
    data: Seq<u8>,
    offset: int,
    evidence: AccountWithMetadata,
    derived_address: Seq<u8>,
)
    requires
        0 <= admin_offset,
        admin_offset + 32 <= admin_data.len(),
        caller.account_id@ == admin_data.subrange(admin_offset, admin_offset + 32),
        caller.account_id@ != zero_id(),
        caller.is_authorized,
        window_well_formed(data, offset),
        evidence.is_authorized,
        evidence.account_id@ != zero_id(),
    ensures
        transfer_outcome(
            admin_data,
            admin_offset,
            caller,
            data,
            offset,
            AuthorityCandidate::Signer,
            evidence,
            derived_address,
        ) matches Ok(d) && d.subrange(offset, offset + 32) == evidence.account_id@ && d[offset
            + 32] == data[offset + 32],
{
    law_transfer_works_while_frozen(
        admin_data,
        admin_offset,
        caller,
        data,
        offset,
        AuthorityCandidate::Signer,
        evidence,
        derived_address,
    );
}

/// The holder blocks accounts whatever the program-wide flag: when the
/// window is well formed, the caller holds it, and the marker is empty
/// or a single 0/1 byte, freezing the account succeeds and writes the
/// marker byte 1.
pub proof fn law_account_freeze_works_while_frozen(
    data: Seq<u8>,
    offset: int,
    marker: Seq<u8>,
    caller: AccountWithMetadata,
)
    requires
        window_well_formed(data, offset),
        caller_holds_window(data, offset, caller),
        marker.len() == 0 || (marker.len() == 1 && (marker[0] == 0u8 || marker[0] == 1u8)),
    ensures
        account_freeze_outcome(data, offset, marker, caller) == Ok::<Seq<u8>, FreezeError>(
            seq![1u8],
        ),
{
}

/// The holder unblocks accounts whatever the program-wide flag: when the
/// window is well formed, the caller holds it, and the marker is the
/// frozen byte 1, releasing the account succeeds and writes the marker
/// byte 0.
pub proof fn law_account_release_works_while_frozen(
    data: Seq<u8>,
    offset: int,
    caller: AccountWithMetadata,
)
    requires
        window_well_formed(data, offset),
        caller_holds_window(data, offset, caller),
    ensures
        account_release_outcome(data, offset, seq![1u8], caller) == Ok::<Seq<u8>, FreezeError>(
            seq![0u8],
        ),
{
}

/// The program-wide instructions always work for the holder on a
/// well-formed window (a whole 33-byte dedicated config included) when
/// the flag differs from the requested state: the result changes the
/// flag byte to the requested value and keeps every other byte.
pub proof fn law_program_flag_complete(
    data: Seq<u8>,
    offset: int,
    caller: AccountWithMetadata,
    state: bool,
)
    requires
        window_well_formed(data, offset),
        caller_holds_window(data, offset, caller),
        data[offset + 32] != flag_byte(state),
    ensures
        program_flag_outcome(data, offset, caller, state) matches Ok(d) && d.len() == data.len()
            && d[offset + 32] == flag_byte(state) && (forall|i: int|
            0 <= i < data.len() && i != offset + 32 ==> #[trigger] d[i] == data[i]),
{
    let h = data.subrange(offset, offset + 32);
    let w = config_window(h, state);
    lemma_splice(data, offset, w);
    let d = splice(data, offset, w);
    assert forall|i: int| 0 <= i < data.len() && i != offset + 32 implies #[trigger] d[i] == data[i] by {
        if offset <= i < offset + 32 {
            assert(d[i] == w[i - offset]);
            assert(h[i - offset] == data[i]);
        }
    }
    assert(d[offset + 32] == w[32]);
}

/// A whole dedicated config can be frozen and released by its holder.
pub proof fn law_dedicated_config_toggles(holder: Seq<u8>, caller: AccountWithMetadata, frozen: bool)
    requires
        holder.len() == 32,
        caller.account_id@ == holder,
        holder != zero_id(),
        caller.is_authorized,
    ensures
        program_flag_outcome(config_window(holder, frozen), 0, caller, !frozen) == Ok::<
            Seq<u8>,
            FreezeError,
        >(config_window(holder, !frozen)),
{
    let data = config_window(holder, frozen);
    assert(data.subrange(0, 32) =~= holder);
    law_program_flag_complete(data, 0, caller, !frozen);
    let d = program_flag_outcome(data, 0, caller, !frozen).unwrap();
    assert(d =~= config_window(holder, !frozen)) by {
        assert forall|i: int| 0 <= i < 33 implies d[i] == config_window(holder, !frozen)[i] by {
            if i < 32 {
                assert(d[i] == data[i]);
            }
        }
    }
}

/// The freeze check on an unfrozen program looks only at the caller's
/// marker: a missing or released marker passes, a frozen marker is
/// refused with `AccountFrozen`, whatever the holder bytes.
pub proof fn law_unfrozen_program_checks_marker(data: Seq<u8>, offset: int)
    requires
        0 <= offset,
        offset + 33 <= data.len(),
        data[offset + 32] == 0u8,
    ensures
        not_frozen_outcome(data, offset, Seq::<u8>::empty()) is Ok,
        not_frozen_outcome(data, offset, seq![0u8]) is Ok,
        not_frozen_outcome(data, offset, seq![1u8]) == Err::<(), FreezeError>(
            FreezeError::AccountFrozen,
        ),
{
}

/// The program-wide instructions refuse everyone but the holder, and
/// refuse a flag that already has the requested value: a caller other
/// than the stored holder never succeeds, and the holder asking for the
/// current value gets `AlreadyFrozen` (freeze) or `NotFrozen` (release).
pub proof fn law_program_flag_refusals(
    data: Seq<u8>,
    offset: int,
    caller: AccountWithMetadata,
    state: bool,
)
    requires
        window_well_formed(data, offset),
    ensures
        caller.account_id@ != data.subrange(offset, offset + 32) ==> program_flag_outcome(
            data,
            offset,
            caller,
            state,
        ) is Err,
        !caller.is_authorized ==> program_flag_outcome(data, offset, caller, state) is Err,
        caller_holds_window(data, offset, caller) && data[offset + 32] == flag_byte(state)
            ==> program_flag_outcome(data, offset, caller, state) == Err::<Seq<u8>, FreezeError>(
            if state {
                FreezeError::AlreadyFrozen
            } else {
                FreezeError::NotFrozen
            },
        ),
{
}

/// Releasing an account that is not frozen (no marker, or marker byte 0)
/// is refused with `AccountNotFrozen` for the holder, and a release by
/// anyone but the holder never succeeds.
pub proof fn law_account_release_refusals(
    data: Seq<u8>,
    offset: int,
    marker: Seq<u8>,
    caller: AccountWithMetadata,
)
    requires
        window_well_formed(data, offset),
    ensures
        caller_holds_window(data, offset, caller) && (marker.len() == 0 || marker == seq![0u8])
            ==> account_release_outcome(data, offset, marker, caller) == Err::<Seq<u8>, FreezeError>(
            FreezeError::AccountNotFrozen,
        ),
        caller.account_id@ != data.subrange(offset, offset + 32) ==> account_release_outcome(
            data,
            offset,
            marker,
            caller,
        ) is Err && account_freeze_outcome(data, offset, marker, caller) is Err,
{
}

/// Renounce works for the holder, and for the admin when one decodes:
/// on a well-formed window it succeeds, zeroes the holder bytes, keeps
/// the flag byte and every other byte.
pub proof fn law_renounce_complete(
    admin_data: Seq<u8>,
    admin_offset: int,
    data: Seq<u8>,
    offset: int,
    caller: AccountWithMetadata,
)
    requires
        window_well_formed(data, offset),
        caller_holds_window(data, offset, caller) || (0 <= admin_offset && admin_offset + 32
            <= admin_data.len() && caller.account_id@ == admin_data.subrange(
            admin_offset,
            admin_offset + 32,
        ) && caller.account_id@ != zero_id() && caller.is_authorized),
    ensures
        renounce_at(data, offset, admin_if_decodable(admin_data, admin_offset), caller) matches Ok(
            d,
        ) && d.len() == data.len() && d.subrange(offset, offset + 32) == zero_id() && d[offset + 32]
            == data[offset + 32] && (forall|i: int|
            0 <= i < data.len() && !(offset <= i < offset + 32) ==> #[trigger] d[i] == data[i]),
{
    let f = data[offset + 32] == 1u8;
    let w = config_window(zero_id(), f);
    lemma_splice(data, offset, w);
    let d = splice(data, offset, w);
    assert(d[offset + 32] == w[32]);
}

/// Initialize works for the admin on a fresh account: when the admin
/// slot at offset 0 holds the signing caller, and the config account is
/// the default account, initialize writes the 33 bytes of the caller's
/// identity followed by the flag byte 0.
pub proof fn law_initialize_complete(admin_data: Seq<u8>, caller: AccountWithMetadata, fresh: Account)
    requires
        32 <= admin_data.len(),
        caller.account_id@ == admin_data.subrange(0, 32),
        caller.account_id@ != zero_id(),
        caller.is_authorized,
        fresh.data@.len() == 0,
        is_default_owner(fresh.program_owner@),
        fresh.balance == 0,
        fresh.nonce == 0,
    ensures
        initialize_outcome(admin_data, caller, fresh) matches Ok(d) && d.len() == 33
            && d.subrange(0, 32) == caller.account_id@ && d[32] == 0u8,
{
    let w = config_window(caller.account_id@, false);
    assert(w.subrange(0, 32) =~= caller.account_id@);
}

} // verus!
