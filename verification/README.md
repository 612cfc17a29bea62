# hashbench

The verified core of a set of hash benchmarking programs (MD5, SHA-1, SHA-2,
SHA-3 and BLAKE3 over chunked input, with a power-measurement driver).

- `src/` is the library, verified with Verus:
  - `primitives`: the hash crates behind trusted wrappers,
  - `hashers`: incremental hashers and hashing in chunks,
  - `hex`, `text`, `unit`: hex, decimal and binary-unit rendering, decimal parsing, trimming,
  - `data`, `native`, `power`: the rules of the reference-data generator, the
    native benchmark and the power driver (names, CSV text, command lines,
    the run schedule, argument parsing).
- `app/` holds the programs themselves: argument parsing with clap, files,
  clocks, processes, random input, and the floating-point statistics.
- `tests/` runs the library against the real hash crates.
