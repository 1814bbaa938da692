# latch

Split-control escrow for Solana, with its rules verified in Verus.

Two or more parties lock tokens in a program-owned vault. Funds move only on
the parties' sign-offs, the resolution rule they chose at formation, or their
party-chosen recovery signers.

## Layout

- `src/` — the verified library.
  - `state/` — the deal account, its well-formedness (`Deal::wf`) and lookups.
  - `instructions/` — one module per instruction: the rule as a spec function
    from the deal and the instruction's inputs to the next deal and the event
    (`*_step`), the executable handler proved to follow it, and the account
    checks (`validate`).
  - `mint_guard.rs` — mint vetting over what the token library reads from the
    mint account.
  - `laws.rs` — properties of the whole state machine: every instruction keeps
    a well-formed deal well-formed and its terms unchanged, every run from a
    new deal stays well-formed, how each resolution path pays out, and so on.
  - `demo.rs` — the decisions of the devnet demo: step order, deal formation,
    digests and timestamps on the certificate.
- `tests/` — the instruction flows on an in-memory ledger, and unit tests.
- `app/` — the Anchor program around the library (accounts, token transfers,
  events) and the demo server.
