# sx126x

Verified encodings of the RF, modulation and packet commands of the Semtech SX126x
radio transceivers.

- `src/commands/rf.rs`: the commands, their parameter types and their serializations.
  Every parameter type has a spec function `wire` that says which bytes it is sent as,
  and `to_bytes` is proved to return exactly those bytes.
- `src/commands/rf_laws.rs`: properties of the encodings as a whole: each setting has
  its own code; the TX, LoRa modulation, packet, CAD, buffer and symbol-timeout
  parameters are recovered from their bytes; GFSK modulation keeps its pulse shape,
  its bandwidth and the low 24 bits of its two registers; frequencies below 4.096 GHz
  keep their order and stay distinct; the packet type reads back from its code; and
  the opcodes differ.
- `src/byte_order.rs`: big-endian byte views of integers.
- `src/regiface_items.rs`: the items of the `regiface` crate that the encodings use.
- `app/lib.rs`: the `regiface` trait impls (`Command`, `ToByteArray`, `FromByteArray`)
  that forward to the library.
