# mempool-ipc

Messaging primitives for the MemPool RISC-V many-core cluster, verified with Verus.

- `src/primitives.rs`: cluster topology (tiles, groups) and the polling decision of
  the hardware spin wait, with laws on how cores, tiles and groups nest.
- `src/hw.rs`: the control-register map; each register operation yields the MMIO
  access it stands for. Also the host-target exit word.
- `src/queue.rs`: the single-producer single-consumer ring buffer as a sequential
  model, with laws on what a consumer takes after the producer publishes.
- `app/`: the bare-metal side (inline assembly, volatile MMIO, C runtime bindings,
  the two-core cluster test). Register accesses, topology queries and polling
  decisions come from the library. The ring that the cores share, with its
  atomic sequence words and cacheline layout, is kept in `app/entry.rs`. It
  follows the protocol of `src/queue.rs` and takes its slot index and payload
  check from there, but the verified model does not cover that code itself.
