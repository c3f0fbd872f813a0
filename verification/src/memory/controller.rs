//! Registers of the CAN controller.

pub mod configuration;
pub mod fifo;
pub mod filter;
pub mod interrupt;
