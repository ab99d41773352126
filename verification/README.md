# dd_fft

Buffer geometry and error handling of a double-double precision real FFT.

- `src/` is the verified library: the length of a real signal's spectrum,
  the buffer checks of the forward and inverse transforms, the check of the
  spectrum's edge bins after an inverse transform, the error type and its
  messages, and the laws that tie them together (`src/laws.rs`).
- `app/` holds what computes on floating-point values: the `Dd` double-double
  type over `twofloat`, the transforms over `realfft`, and the `realfft`
  trait impls. It asks the library for every decision on lengths and errors.
  The engine is the published `realfft`/`rustfft`, run over `Dd`: it builds
  its twiddle factors in `f64`, so `Dd::twiddle_factor` goes unused and only
  the accumulation is in double-double precision.
- `tests/` runs the library on concrete values.
