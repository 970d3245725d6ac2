# no_std_path

`OsStr` and `OsString` for path handling without the standard library's
platform layer: both hold raw bytes with Unix semantics, so every byte
sequence is a valid OS string. The library is written in Verus; every
operation states what it does to the bytes in its contract.

Layout of `src/`:

- `os_str.rs`: the two types, their constructors, conversions and buffer
  operations, and the `AsOsStr` trait for values that stand for bytes.
- `utf8.rs`: UTF-8 conversions through the standard library's decoders.
- `display.rs`: the `Display` helper, the lossy display text and the escaped
  debug text.
- `ascii.rs`: ASCII case mapping and its laws.
- `lex.rs`, `order.rs`: byte-wise equality and lexicographic order, with the
  laws of a strict total order.
- `laws.rs`: laws relating several operations (UTF-8 round trips, push and
  truncate).
- `capacity.rs`: capacity management through `Vec`'s own methods.
