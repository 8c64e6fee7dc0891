# igra

An over-collateralised stablecoin whose unit of account is one kilowatt hour,
with every protocol parameter frozen at compile time.

- `src/` is the verified library: parameter sets and their validation, the
  ENRK/kFIAT token ledgers and the supply-level kFIAT cap, vaults, Dutch-auction
  liquidation, the stability pool, the circuit breaker, oracle price selection,
  Kaspa address validation and transaction identifiers. Amounts are `i128`;
  every public function states its result in its contract, and the laws that
  relate operations (a burn undoes a mint, a transfer back restores balances,
  the cap holds after every kFIAT mint, a pause is never lifted, expiry is
  permanent) are proof functions.
- Prices are binary64 values. The arithmetic on them (peg index, collateral
  ratios, fees, auction prices, feed indices) lives in `app/`, which hands the
  library the integers and decisions it computes, and holds the serialisable
  records and the `std::error::Error` form of the errors.
- `tests/` exercises the library through its public API.
