# freeze_authority

A verified library for the freeze pattern: a program-wide frozen flag and
a per-account blocklist, both managed by one freeze authority whose slot
is governed by the admin.

## Layout

- `src/account.rs` — account identities, account records, post-states.
- `src/slot.rs` — the single-holder authority slot (32-byte holder, all
  zeros = vacant) and the candidate check for a new holder.
- `src/admin.rs` — the admin slot as this library reads it.
- `src/config.rs` — `FreezeConfig`: the 33-byte freeze window (holder,
  then flag byte), its strict and windowed decoders, and every operation
  in a whole-account form and an `_at` form that splices only its window.
- `src/frozen_account.rs` — `FrozenAccountState`: the one-byte
  per-account flag, where missing data reads as "not frozen".
- `src/lib.rs` — the freeze check `require_not_frozen` and the seven
  management instructions.
- `src/laws.rs` — proved laws: read-after-write, window isolation,
  holder-only toggles, release undoing freeze, renounce vacating and
  being recoverable, admin-only transfer, and the freeze check following
  both flags.
- `app/lib.rs` — borsh-serialisable copies of the state types and a
  `Display` view of the error.

Every function in `src/` is verified by Verus against its contract.
