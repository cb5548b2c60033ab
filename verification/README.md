# apxinf_cuda

The host side of a CUDA inference runtime, written in Verus.

The library checks requests, selects implementations, plans memory and decides
which native calls to make and in which order. It never touches a device: every
operation gives plain values that describe the calls, and takes the outcomes of
the calls back where it has to go on from them. What each operation accepts,
refuses and plans is stated in its contract and proved.

## Layout

- `src/`: the library.
  - `shape`, `dtype`, `storage`, `tensor`, `buffer`: tensors and the device
    ranges behind them.
  - `context`, `timing`, `graph`, `workspace`, `kv_cache`: devices and streams,
    event timing, capture and replay, the arena of a captured graph with the
    state of a thread, and the key/value cache.
  - `ops`: the operators; `ops::gemm` holds those with prepared instances.
  - `fp8`: static FP8 products, their tuning records and their autotuning.
  - `backend`: the operations of a portable backend.
- `tests/`: tests of the library, most of them on a simulated device.
- `app/`: the native side, which makes the calls. What only the embedding
  runtime can declare is behind the trait in `app/native.rs`.

Floating-point numbers pass through the library as bit patterns. Products of
scales are kept as their two factors and multiplied on the native side.
