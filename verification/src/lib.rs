//! Device-control core for the Microchip ENC28J60, a stand-alone 10BASE-T
//! Ethernet controller attached over an SPI bus.
//!
//! The chip is driven purely through SPI transactions, so this library is
//! written sans-I/O: every operation on the [`driver::Driver`] state computes
//! the exact byte frames to put on the bus (as a [`cmd::Cmd`] sequence or an
//! [`cmd::Xfer`] descriptor) and decodes the bytes that come back. A host
//! harness owns the bus, the interrupt line and the network stack; it runs the
//! command sequences verbatim and feeds the observed values back into the
//! decision functions here.
//!
//! The contracts pin the wire format byte for byte, and the [`model`] module
//! gives a specification-level register file of the chip against which the
//! emitted sequences are proved: bank selection, register writes and the
//! 16-bit round trip are stated as laws in [`laws`].

use vstd::prelude::*;

pub mod cmd;
pub mod driver;
pub mod irq;
pub mod laws;
pub mod lifecycle;
pub mod model;
pub mod regs;
pub mod rx;
pub mod spi;
pub mod tx;

verus! {

/// First byte of the on-chip SRAM given to the circular RX FIFO.
pub const RX_START: u16 = 0x0000;

/// Last byte of the RX FIFO: the partition gives it 6.5 KiB.
pub const RX_END: u16 = 0x19ff;

/// First byte of the linear TX region.
pub const TX_START: u16 = 0x1a00;

/// Last byte of the 8 KiB SRAM, all of whose tail is the TX region.
pub const TX_END: u16 = 0x1fff;

/// Largest Ethernet frame the driver accepts, and the value programmed into
/// MAMXFL; one control byte more still fits the TX region.
pub const ETH_MAX_FRAME_LEN: u16 = 1518;

/// LED behaviour programmed into PHLCON at init.
pub const LAMPS_MODE: u16 = 0x3476;

/// The failures that the device-control core itself can report.
///
/// Bus-transport failures belong to the harness that owns the SPI device; a
/// frame with a bad status vector is dropped rather than reported (the RX
/// pipeline advances past it).
#[derive(Clone, Copy, PartialEq, Eq, Structural, Debug)]
pub enum Error {
    /// The revision register read 0x00 or 0xFF at probe: no chip answered.
    DeviceAbsent,
    /// A caller-supplied FIFO range lies outside the region it must occupy.
    ConfigurationError,
}

} // verus!
