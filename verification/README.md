# vault

A mystery-box staking vault, verified with Verus.

`src/` holds the vault's logic with its contracts: the accounts
(`state`), errors (`error`), account keys (`pubkey`), reward accrual
(`reward`), what a box contains (`mystery_box`), the NFT metadata requested
for it (`metadata`), the instructions as account transitions (`vault`), the
simple staking program (`staking`) and the properties proved across them
(`laws`).

`app/` is the on-chain program around the library: account validation,
clock reads, token transfers, NFT minting and logging.
