# resolver_lookup

The lookup results of a DNS resolver, and the course that a lookup takes over several names, in
Rust that Verus verifies.

- `src/lookup.rs`: a `Lookup` (query, records, deadline), how lookups are joined, and the walks
  through their records.
- `src/record_lookup.rs`, `src/srv_lookup.rs`: lookups for records of one type, and the addresses
  that come along with SRV records; `src/select.rs` picks the data of one type.
- `src/lookup_future.rs`: which name is asked for next, and when a lookup is over.
- `src/handle.rs`: the handles that requests go through.
- `src/rr.rs`, `src/op.rs`, `src/error.rs`, `src/time.rs`: records, questions, errors, instants.
- `src/shared.rs`: the operations of `Arc` that are taken on trust. `src/time.rs` takes the
  machine's clock on trust.
- `src/walk.rs`: what a walk hands out, call by call.
- `app/`: lookups as futures, the walks as iterators, addresses and instants as those of the
  standard library.
- `tests/`: scenarios on concrete values.
