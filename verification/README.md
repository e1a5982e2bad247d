# anchor_basset

The logic of the bAsset liquid-staking contracts on Terra, verified with Verus.

- `src/hub/` — the hub: bonding Luna for bLuna or stLuna at the exchange rates,
  unbond requests gathered in batches, slashing, conversion between the two
  tokens, the release of unbonded batches and withdrawals, configuration and
  validator whitelist, storage keys and migration of stored values.
- `src/reward/` — the bLuna reward index and the holders' rewards.
- `src/dispatcher/` — the rewards dispatcher: swapping rewards to the two
  target denoms and splitting them, less the protocol fee and the transfer tax.
- `src/gov/` — the governance contract of the first bLuna design: epochs,
  minting and burning at the pool's exchange rate.
- `src/airdrop.rs` — the airdrop registry.
- `src/decimal.rs`, `src/tax.rs` — 18-digit decimals and the arithmetic of
  `cosmwasm_std`, Terra's transfer tax and the protocol fee.
- `src/laws.rs` — properties that hold across the operations.
- `app/` — the CosmWasm contracts around the library: messages, storage,
  queries to the chain and the messages sent.
