//! A software model of a memory-mapped UART peripheral.
//!
//! The model reproduces what software sees of the device: the seven registers
//! with their bit fields, the side effects of reading and writing them, the
//! receive queue, and the interrupt line derived from the two watermark
//! conditions. It keeps no time: every operation completes at once.

pub mod device;
pub mod laws;
pub mod model;
pub mod registers;

pub use device::{read_double_word, reset, write_char, write_double_word, Uart};
pub use model::{Operation, Signal, UartModel};
pub use registers::Register;
