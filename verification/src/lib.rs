//! The core of a small multi-processor x86_64 kernel: typed addresses, a
//! four-level page-table engine, the local-APIC driver and the thread core.

pub mod apic;
pub mod asm_routines;
pub mod elf;
pub mod frame_allocator;
pub mod gnu_efi;
pub mod initialize_once;
pub mod interrupts;
pub mod kernel;
pub mod loader;
pub mod mem;
pub mod page_table;
pub mod palloc;
pub mod per_cpu;
pub mod pit;
pub mod serial;
pub mod threads;
