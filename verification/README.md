# payme_router

A verified payment connector for PayMe, with the authorize flow that drives a
connector and the blocklist lookup store beside it. The library is written in
Verus: every function states in its contract what it returns, and Verus proves it.
Believed, not proved, are the contracts of the five outside functions at the edge: the
four wrappers in `src/codec.rs` (hexadecimal, MD5, form decoding, lossy UTF-8) and
`String::push` in `src/text.rs`.

- `src/payme.rs`, `src/payme_laws.rs`: what the connector accepts, where its
  requests go, which message and which amount they carry, how replies and errors
  are read.
- `src/webhooks.rs`: where a webhook comes from (an MD5 signature in a form body),
  what it speaks of and what it carries.
- `src/authorize_flow.rs`, `src/mandates.rs`, `src/authorize_laws.rs`: the authorize
  flow as a state machine that hands out actions and takes replies.
- `src/blocklist_lookup.rs`: the store of blocked fingerprints, in the same manner.
- `src/text.rs`, `src/codec.rs`: decimal text, escaped bytes, hexadecimal, and the
  few outside functions that the proofs rest on.
- `app/`: JSON and form decoding, and the loops that drive the library against
  traits for the network, the databases and the record of calls.
