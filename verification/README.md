# futurist

An open protocol library and command-line tool for the Stark Varg electric
motorcycle, with the library's behaviour stated in Verus contracts and
proved.

- `src/` — the verified library: byte-level decoders for every GATT
  characteristic, TLV demultiplexing and the aggregated telemetry snapshot,
  pairing PIN / Wi-Fi credential / V2 authentication derivation, VCU
  configuration packets, firmware-flash planning, and every line the telemetry
  dump prints. Calls into `sha2`, `aes`/`cbc` and `getrandom` sit behind small
  trusted wrappers whose contracts name what those crates compute.
- `app/` — the `futurist` binary: argument parsing, Bluetooth (btleplug),
  the cloud API (reqwest), TCP flashing, the configuration reader's
  printing, and writing out the dump's lines with their timestamps.
- `tests/` — the library's tests, run against the compiled crate.

Laws proved in `src/` include: TLV encode/decode round trips, that a
repeated notification leaves the snapshot unchanged, that TLV entries carry
the same data as the dedicated characteristics, that a generated PIN parses
back to its passkey, that sold-on date normalization is idempotent, that
misc configuration writes read back as written, and that map writes do so
whenever the power is a multiple of 4 hp.
