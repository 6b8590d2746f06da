# escrow

A verified model of the LiquiFact invoice escrow: investors fund an invoice
until its target is met, then the buyer settles principal plus yield.

- `src/state.rs` — the escrow record, the events, the refusal reasons and the
  status values.
- `src/arith.rs` — the total due (principal plus yield in basis points,
  rounded toward zero) with its overflow conditions.
- `src/contract.rs` — `LiquifactEscrow`, the contract's instance storage, with
  `init`, `get_escrow`, `fund`, `settle` and `update_maturity`, each specified
  by an outcome function; it also records each investor's contribution and
  answers the record's schema version. Settlement takes the ledger time and
  waits for maturity; a maturity update takes the party whose authorization
  the call carries and needs it to be the stored admin.
- `src/laws.rs` — properties that hold across operations (validity is kept,
  status only moves forward, the invoice terms never change, settlement stays
  within the total due, paying in parts equals paying in whole).
- `app/` — the Soroban contract: reads and writes ledger storage, checks the
  admin's authorization and publishes events around the library's decisions.

Out of scope: withdrawal by the SME, legal holds, investor payout claims and
the funding-close snapshot. Settlement takes an amount and may be paid in
parts; once the total due is paid the escrow is settled and takes no more.
