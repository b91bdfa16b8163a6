# tariff_perp

A tariff index oracle and a perpetual futures market on it, verified with Verus.

- `src/` is the library. Every instruction is a function on plain accounts. It refuses with the
  first rule that is violated and changes nothing, or succeeds with exactly the accounts, the
  report and the token transfers that its contract states.
  - `oracle`: baseline, country add-ons, basket weights and the index.
  - `market`, `admin`: virtual reserves, limits, switches and configuration.
  - `margin`, `collateral`: margin accounts, deposits and withdrawals.
  - `trading`, `funding`, `liquidation`: what moves positions.
  - `pyth`: the SOL/USD price feed that gates the instructions that move risk. The calls into
    `pyth-sdk-solana` and `pyth-sdk` stand here, behind contracts that are trusted.
  - `math`, `accounts`, `events`, `error`: what the others share.
  - `laws`: what holds of the instructions together.
- `app/` is the on-chain program around the library: accounts, the clock, token transfers and
  events.
- `tests/` runs the library.

Prices are Q64.64 fixed-point numbers, collateral is in micro-USDC and positions are in micro-base.
