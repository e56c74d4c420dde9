# achievement_programs

The rules of four small Solana programs, written in Verus and proved against
their contracts:

- `nft_achievement`: an issuer creates an achievement with its own mint and
  later grants it as a single token;
- `ephemeral_nft_achievements`: a granter records an achievement with an
  expiry for a recipient;
- `identity` and `profile`: users create profiles, checked for name and URI
  length, and add delegates.

`src/` holds the library. Accounts are handed to it as 32-byte keys, and it
answers with plain values: the records to store, the errors to report, and the
cross-program calls to make, in order and with the seeds that sign them, with
the system-program instructions built by the Solana program library. Each
instruction takes the keys that signed the transaction and refuses when an
account that must sign did not. Each creation takes what the target account
holds now and refuses an account at the wrong address or already in use,
which is what keeps one achievement per mint and one profile per owner or
name; a record that would not fit its account is refused too. A grant takes
the mint's supply and authority and refuses once the single token has been
minted. `account_util` plans account creation and
checks derived addresses; `system` and `token` hold the few calls into the
Solana crates, each with the contract that it is trusted to meet.

`app/` is the on-chain side: it reads the accounts and sysvars, computes the
rent-exempt minimum, calls the library and performs the calls it plans.
`tests/` runs the library against the real Solana crates.
