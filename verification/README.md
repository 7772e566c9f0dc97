# aegis_mk

The core of a small capability-based x86_64 microkernel, written in Verus.

- `src/` is the verified library: the capability table and its policy hook,
  the IPC queue, the round-robin run queue, the task registry, syscall
  dispatch, security manifests, boot-time memory map translation and its
  measured-boot encoding, the frame allocator, the early framebuffer
  console, the compositor's drawing plans, the VT-x set-up decisions and
  the device models.  Contracts are stated over `Seq`-based views; laws
  that relate several operations are public proof functions next to the
  operations they speak of.
- `src/bounded.rs` declares the `heapless` collections the tables use and
  gives each method the kernel calls a contract.
- `app/` performs what the library decides: inline assembly, port and
  memory-mapped I/O, the UEFI entry point, the global state behind locks and
  the service loops.
- `tests/` runs the library on concrete values.
