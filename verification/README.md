# betting_platform

The integration layer of a Solana prediction-market program: oracle
aggregation (Polymarket, Pyth, Chainlink, median and fallback feeds),
market data normalisation, bootstrap vault and incentive logic, security
(rate limits, API keys, request checks, vampire-attack protection),
deployment and launch checks, health monitoring, partial liquidation,
dispute handling and an end-to-end test harness.

## Layout

- `src/` — the library, written in Verus. Each module states its types'
  well-formedness and gives every public function a `requires`/`ensures`
  contract over spec functions; properties that span several calls are
  public `lemma_*` proof functions next to the code they are about.
  - `error.rs`, `constants.rs`, `events.rs`, `bytes.rs`, `text.rs`: shared
    error codes, constants, event records and byte/text helpers.
  - `crypto.rs`: the calls into `solana_program` (hashing, program
    addresses, fresh keys), each behind a small trusted wrapper whose
    contract names what it computes; `text.rs` does the same for
    `str::to_lowercase`, which vstd leaves unspecified.
  - the remaining modules follow the program's subsystems one file each.
- `tests/` — ordinary Rust tests against the compiled library.
- `app/` — the unverified shell: account (de)serialisation with Borsh,
  instruction processors that read accounts, call the library and write
  the results back, the SPL token transfers, and the statistics that work
  on floating-point numbers.
