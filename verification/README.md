# spl_token_tools

Helpers with which a governance program works with SPL Token and Token-2022
accounts, verified with Verus.

- `src/keys.rs`: public keys, the two token program ids, and the selection of
  the token program from a mint's owner or a token program account's key.
- `src/account.rs`: what the helpers read of an account, the byte layout of
  token accounts and mints, the validity checks, the field readers, and the
  mint-authority and owner signer checks.
- `src/instruction.rs`: instructions for other programs and the SPL Token and
  System program instruction builders.
- `src/address.rs`: program-derived addresses and signer seeds.
- `src/cpi.rs`: the planned cross-program invocations (create a token account
  at a derived address, transfer, mint, burn, set an authority).
- `app/lib.rs`: the runtime side: converts runtime accounts for the library
  and performs the planned invocations.
