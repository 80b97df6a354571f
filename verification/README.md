# dkg-gadget

The decision logic of a distributed key generation gadget, verified with Verus.

- `src/` is the library. Its functions carry contracts, and the laws that span functions
  are proof functions whose names start with `law_`. The two `transform` methods are
  different for each type of message; their traits promise nothing of the result, and the
  impl for signed messages does.
  - `signers`: whose messages are accepted
  - `scale`: the wire format under a signature
  - `async_protocol_handlers`: what becomes of incoming and outgoing messages
  - `persistence::storage`: storing and loading the local key share
  - `persistence::resume`: resuming a key generation, and telling whether it is stuck
  - `set_verifier`: decoding a proposal for a new verifier
- `tests/` exercises the library with the real `sp-core`, `parity-scale-codec`,
  `ethereum-types` and `multi-party-ecdsa`.
- `app/` is the node side: channels, futures, files, and the interfaces to the keystore,
  the cipher and the chain.

Four functions are trusted rather than proved, each a call into another crate:
`scale::encode_parts`, `scale::encode_account`, `signers::sr25519_verify` and
`set_verifier::address_from`. What the third answers has a name in the contracts,
`signers::sr25519_verifies`, and is not described further.

`substrate-bip39` is named in `Cargo.toml` for its version alone: `sp-core` 7.0.0 does not
compile with the later releases that its own requirement admits.
