//! Verified core of the Mentacore boot path and kernel low-level logic.
pub mod boot_protocol;
pub mod boot_state;
pub mod elf;
pub mod loader_memory;
pub mod gdt;
pub mod cpu;
pub mod lapic;
pub mod idt;
pub mod ports;
pub mod interrupts;
pub mod kernel_init;
pub mod format;
pub mod display;
pub mod frames;
pub mod handoff;
