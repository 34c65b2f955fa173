# ngtcp2

The logic of a QUIC endpoint on top of the ngtcp2 engine, written and verified in Verus. The library
does no I/O: sockets, timers and the calls into the native engine and its TLS stack are made outside,
and their results are handed in as plain values.

## Layout

- `src/` is the verified library.
  - Wire formats: `varint`, `packet`, `version`, `alpn`, `addr`, `bytes`, `text`.
  - Connections: `conn` and `inflight` hold the state beside the engine, `setup` and `crypto` the order
    of the calls that make connections and TLS sessions, `calls` and `callbacks` what goes to the engine
    and comes back, `event` and `stats` what an application sees.
  - Configuration: `config`, `settings`, `types`, `error`.
  - Address validation and Stateless Reset: `retry`, `reset`, `rand`.
  - Tests against other QUIC stacks: `interop`, `driver`, `cert`.
- `tests/` runs the compiled library.
- `app/` makes the calls: the native engine behind a trait, sockets, files, and the driver of another
  QUIC stack.

## How it is verified

Each function states what it returns in terms of sequences and numbers. What relates several functions
stands in public lemmas, for example:

- the packets of a datagram join to the datagram again (`packet::lemma_split_joins`);
- a variable-length integer is read back as it was written (`varint::lemma_roundtrip`);
- of a stream, exactly the bytes that were sent and are not acknowledged are held
  (`inflight::lemma_history_retains`);
- a Version Negotiation packet is never answered with another one
  (`version::lemma_negotiation_not_renegotiated`);
- a Stateless Reset is never longer than the packet that caused it
  (`reset::lemma_reset_not_longer_than_trigger`).

What the library takes from other crates without proof is marked `external_body` or
`assume_specification`: random bytes (`aws-lc-rs`, `getrandom`), certificates (`rcgen`), and the lossy
decoding of UTF-8 by the standard library.
