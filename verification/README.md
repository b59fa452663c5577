# torus

A verified core for the Torus asynchronous I/O framework: applications write
`Flow`s into a virtual submission ring and read `TorusResult`s back from a
virtual completion ring, whatever the platform's native engine is.

The library (`src/`) is written in Verus; every function carries a contract
that Verus checks. It holds the framework's logic:

- `flow`, `operation`, `result`, `error`: submissions, operations, completions.
- `rings`: the virtual rings and their occupancy arithmetic.
- `context`: the Torus context over a backend, and a round-robin pool of them;
  `raw_api`: submissions that bypass buffer leasing.
- `uring`: the io_uring backend's decisions (submission entries, registered
  buffers, ring layout, completion handling); `sys` holds the kernel ABI.
- `iocp`: the Windows completion-port backend's decisions.
- `kqueue`: the macOS/BSD kqueue backend's decisions (the call or readiness
  registration each flow starts with, what a call's answer and a readiness
  event lead to, when a wait ends) and its reactor state.
- `async_api`: the registry and state machine behind the asynchronous API.
- `lease`: registered buffer regions lent out to in-flight operations.
- `cgroup`: memory limits from cgroup files and the resource limiter.
- `observability`: latency histograms and counters.
- `torus_panic`, `scaffold`, `ffi`, `text`: the panic report, the project
  generator's arguments and manifest, the C interface's conversions, and
  number formatting.
- `hw`: hardware bypass bookkeeping for NVMe, DMA pools, GPU-Direct, DPDK,
  SPDK and AF_XDP. The SPDK and DPDK device entry points answer that the
  library is not available, as a build without those libraries does; their
  command encodings, pools and rings are verified all the same.

`app/` is ordinary Rust around the library: system calls (the io_uring
rings on Linux, the kqueue event loop on macOS), memory mappings,
the CUDA driver loader, threads, the C interface and the command line. It
hands the library plain values and carries out what the library decides.
Two drivers are absent: there is no Windows completion-port driver (the
`iocp` module's decisions have no Win32 calls behind them here), and no
run-time loader for the SPDK and DPDK libraries.

`Backend` is the trait a platform implements. Each implementation states,
through the trait's relations (`submits`, `reaps`, `waits`, `pending`,
`registers`, `unregisters`), what its operations do; the contracts of
`Torus`, `TorusPool`, the raw API and the futures say exactly what they hand
to the backend and that they pass its answers back.

`tests/` exercises the library on concrete values.
