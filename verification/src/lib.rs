//! A driver for the MCP2518FD CAN FD controller, which is attached over SPI.
//!
//! The driver performs no I/O itself. [`spi::MCP2518FD`] turns a request into an operation, the
//! operation asks for one access to the device after the other, and each access asks for one SPI
//! transaction after the other; the caller performs them and hands the outcome back. So the same
//! driver serves blocking and asynchronous code, and everything it decides is a function from
//! plain values to plain values.
//!
//! - [`bits`]: fields of register words, and the byte order of words on the wire
//! - [`memory`]: the address space and the registers
//! - [`message`]: messages to transmit and received messages
//! - [`settings`]: settings of the device, its FIFOs and its filters
//! - [`rx_fifo`]: bulk reading of receive FIFOs
//! - [`spi`]: the driver, and laws on what it achieves on a model of the device

pub mod bits;
pub mod memory;
pub mod message;
pub mod rx_fifo;
pub mod settings;
pub mod spi;
