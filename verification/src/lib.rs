//! Interrupt-handling core of a small bare-metal kernel: vector numbering,
//! the chained interrupt controllers, the vector table and the handler
//! routines, each as a function on plain values with a proved contract.

pub mod interrupts;
pub mod pic;
pub mod keyboard;
pub mod idt;
