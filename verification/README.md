# mcp2518fd

A driver for the MCP2518FD CAN FD controller, written in Verus: what it does is stated in
contracts, and proved.

The library under `src/` performs no I/O. A method of `spi::MCP2518FD` gives an operation; the
operation asks for accesses to registers and RAM and for delays, one after the other; each access
asks for SPI transactions, one after the other. The caller performs them and hands the outcome
back. `app/` does that with `embedded-hal`, and with `embedded-hal-async`.

- `src/bits.rs`: fields of register words, and the byte order of words
- `src/memory.rs`, `src/memory/`: the address space and the registers
- `src/message.rs`, `src/message/`: messages and message objects
- `src/settings.rs`: settings of the device, its FIFOs and its filters
- `src/rx_fifo.rs`: bulk reading of receive FIFOs
- `src/spi.rs`, `src/spi/`: the driver
  - `transfer.rs`, `checksum.rs`: accesses as SPI transactions, with and without CRC protection
  - `operation.rs`, `modify.rs`: operations on single registers and on RAM
  - `edit.rs`, `task.rs`: changes to registers, FIFOs and filters
  - `setup.rs`: reset and configuration
  - `transmit.rs`, `receive.rs`: messages and transmit events
  - `device.rs`, `effect.rs`, `bringup.rs`: a model of the device, and laws on what transfers,
    operations and the configuration achieve on it

Three functions are trusted: the checksum, which the `crc` crate computes, and two small facts
about identifiers, which come from `embedded-can`. Their doc comments say what is believed of
them.
