# solar_grid

A pay-as-you-go solar energy registry for a Soroban smart contract. Households pay in a
token to top up a smart meter; an IoT oracle reports consumption, which is charged against
the meter's credit; a meter without credit, or whose paid period has ended, has no access.

Layout:

- `src/` — the verified library (Verus).
  - `types.rs`: addresses, meter ids, errors, payment plans, meter records (current and
    old layout) and the migration between them.
  - `table.rs`: a keyed store whose contents are a map from key text to value.
  - `model.rs`: the abstract contract store (`GridView`) and, for each entry point, the
    errors it reports, the host work it asks for, the events it emits and the store it
    leaves behind.
  - `outcome.rs`: host calls (authorizations, token deposits and payouts), events, and the
    `Invocation` an entry point answers with.
  - `contract.rs`: `SolarGridContract`, whose entry points are proved to follow `model`.
  - `laws.rs`: properties across entry points (the store's invariants are kept; payment
    grants access; spending the credit revokes it; plans last one day, one week or
    indefinitely; the allowlist; registration; batches; migration; revenue).
- `app/` — the Soroban contract: loads the touched storage entries, runs the library step,
  performs authorizations and token transfers, writes back and publishes events.
- `tests/` — the contract's scenarios against the library, with a small stand-in ledger.
