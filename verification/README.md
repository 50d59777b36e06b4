# glft_mm_rust

A GLFT (Guéant–Lehalle–Fernandez-Tapia) market-making toolkit on
Nautilus Trader, with its decision logic verified by Verus.

- `src/` is the verified library: the rules of the historical-data loaders
  and converters (timestamps, order-book delta layout, flags and sequence
  numbers, precision detection, trade sides), the venue and logging settings,
  the pre-quote guards, the loss kill switch and reduce-only filter, the risk
  state machine and side choice of the GLFT strategy, and the bookkeeping of
  the market-state indicators and the arrival estimator.
  Calls into `chrono` and the string functions of std go through small
  trusted wrappers whose contracts are stated in `src/text.rs`,
  `src/rfc3339.rs` and `src/data/mod.rs`.
- `app/` is the program around it: file and network I/O, argument parsing,
  the Nautilus strategies and engines, and the floating-point pricing model.
  It hands the library plain values and acts on what it returns.
- `tests/` runs the library on concrete cases.
