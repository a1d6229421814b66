# otter

A library for writing Erlang NIFs in Rust, split in two.

- `src/` is the verified core, checked by Verus. It holds every decision the
  library takes once the BEAM has answered: term handles and their typed
  resolution, the codec rules (integer narrowing, booleans, strings, list and
  tuple shapes), the external-term-format encoding of big integers, owned
  binary buffers, the bookkeeping of message arenas, the resource-type
  registry and per-build private data, resource-type names and the ABI tag,
  and the address arithmetic of the BEAM-backed allocator.
- `app/` is the BEAM-facing layer: the env handles, the `enif_*` calls, the
  `Encoder`/`Decoder` traits, resources and their callbacks, the global
  allocator and the runtime services. It performs the calls and hands their
  results to `src/`.

Module map of `src/`:

| Module | Contents |
|---|---|
| `types::terms` | term handles, `TermType`/`TypedTerm`, decode checks, atoms, list walks, tuple views, `StaticAtom` |
| `types::binarybuf` | `BinaryBuf`, `BinaryBuilder` |
| `types::arena` | generation stamps and arena state |
| `codec` | `CodecError`, narrowing, bool/string/list/tuple decisions |
| `etf` | ETF integer parsing and bignum encoding |
| `resource` | resource block layout and type names |
| `priv_data` | `ResourceRegistry`, `PrivData` |
| `abi` | the build's ABI tag and its cache |
| `allocator` | `EnifAlloc` layout arithmetic |
| `env`, `system` | env kinds, `OwnedTermBuilder`, thread types |
