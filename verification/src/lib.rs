//! A capability-based microkernel core: capability table, IPC queue, run
//! queue, task registry, syscall dispatch and the boot-time and device logic
//! around them.
pub mod boot;
pub mod bounded;
pub mod caps;
pub mod ipc;
pub mod sched;
pub mod security;
pub mod task;
pub mod syscalls;
pub mod time;
pub mod arch;
pub mod hv;
pub mod drivers;
pub mod gfx;
pub mod posix;
pub mod enterprise;
pub mod radiation;
pub mod rt;
pub mod vm;
pub mod servers;
pub mod boot_console;
