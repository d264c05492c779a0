//! The privileged core of a small ARM kernel: locking primitives for state
//! shared before any scheduler exists, a bounded driver registry that brings
//! drivers up in registration order, an interrupt controller's handler table
//! and dispatch, the staging of the drop from EL2 to EL1, and the logic of
//! the board's timer, console and UART.
//!
//! Register and memory-mapped I/O stay with the caller: the functions here
//! take what was read as plain values and return what is to be written.

pub mod boot;
pub mod bsp;
pub mod console;
pub mod driver;
pub mod gicv2;
pub mod irq;
pub mod sync;
pub mod time;
pub mod uart;
