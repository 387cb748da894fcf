//! The hardware-facing core of a small bare-metal kernel: addresses and the
//! memory behind them, the text-mode display driver, the trap table, and the
//! in-kernel test harness with its exit protocol.

pub mod harness;
pub mod interrupts;
pub mod memory;
pub mod qemu;
pub mod screen;
pub mod unsafe_ptr;
pub mod vga_buffer;
