# tipz

A creator tipping ledger with machine-checked contracts. Creators register
profiles, supporters tip them, creators withdraw their balance less a
protocol fee, tippers may ask for refunds within a time window, and three
leaderboards (all-time, monthly, weekly) rank the creators.

The whole ledger state is a plain value (`storage::Tipz`). Every operation
takes the state, the caller and the current time, and either returns an
error and leaves the state unchanged, or applies its change and hands back
the funds to move (`tips::Transfer`). The contracts of every operation are
proved with Verus.

Credit scores are computed by a scoring function the caller passes in: the
operations that change a creator's totals call it on the updated profile
and store what it returns.

Layout:

- `src/`: the verified library.
  - `types.rs`, `errors.rs`: data types and error codes.
  - `table.rs`: a keyed table with a map view.
  - `storage.rs`: the state and its typed getters and setters.
  - `validation.rs`: input checks and rate limiting.
  - `fees.rs`: fee arithmetic.
  - `profile.rs`, `tips.rs`, `refund.rs`, `leaderboard.rs`, `streaks.rs`, `admin.rs`: the
    operations and the laws that relate them.
- `tests/`: tests of the library on concrete values.
- `app/`: host glue for Soroban (clock, address numbering, payments, storage
  time-to-live).
