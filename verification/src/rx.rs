//! RX pipeline: the status-vector record that prefixes each received packet,
//! the read-pointer erratum workaround, the FIFO wrap computation, and the
//! per-packet decisions.
//!
//! The harness drains all pending packets per interrupt: it reads EPKTCNT,
//! and for each pending packet runs [`Driver::rx_packet_plan`], decodes the
//! status vector, reads the payload where [`Driver::rx_packet_eval`] accepts
//! it, then runs [`Driver::rx_packet_finish`] and [`Driver::rx_packet_dec`].

use vstd::prelude::*;

use crate::cmd::{Cmd, Xfer, views};
use crate::driver::{Driver, bfs8_cmds, same_but_bank, write16_cmds};
use crate::model::combine16;
use crate::regs::{Bank, ECON2_PKTDEC, Reg16, Reg8};
use crate::spi::RBM_OPCODE;
use crate::{ETH_MAX_FRAME_LEN, RX_END, RX_START};

verus! {

/// Length of the RX status vector that prefixes each packet in the FIFO.
pub const RSV_SIZE: usize = 6;

// Status bits of the RX status vector (bit positions per the datasheet).
pub const RSV_CRC_ERROR: u16 = 0x0010;
pub const RSV_LENGTH_CHECK_ERROR: u16 = 0x0020;
pub const RSV_LENGTH_OUT_OF_RANGE: u16 = 0x0040;
pub const RSV_RX_OK: u16 = 0x0080;
pub const RSV_RX_MULTICAST: u16 = 0x0100;
pub const RSV_RX_BROADCAST: u16 = 0x0200;

/// The six-byte RX status vector, decoded: where the next packet starts, how
/// long this one is, and its receive status bits. All fields little-endian on
/// the wire.
#[derive(Clone, Copy, PartialEq, Eq, Structural, Debug)]
pub struct RxStatusVector {
    pub next_ptr: u16,
    pub byte_count: u16,
    pub status: u16,
}

impl RxStatusVector {
    /// Decode the six bytes read from the FIFO, little-endian fields in
    /// order: next packet pointer, byte count, status.
    pub fn parse(data: &Vec<u8>) -> (rsv: RxStatusVector)
        requires
            data@.len() == RSV_SIZE,
        ensures
            rsv.next_ptr == combine16(data@[0], data@[1]),
            rsv.byte_count == combine16(data@[2], data@[3]),
            rsv.status == combine16(data@[4], data@[5]),
    {
        RxStatusVector {
            next_ptr: ((data[1] as u16) << 8) | (data[0] as u16),
            byte_count: ((data[3] as u16) << 8) | (data[2] as u16),
            status: ((data[5] as u16) << 8) | (data[4] as u16),
        }
    }

    /// Whether the status bits under `mask` are set.
    pub open spec fn flag_spec(self, mask: u16) -> bool {
        self.status & mask != 0
    }

    /// Whether the status bits under `mask` are set.
    pub fn flag(&self, mask: u16) -> (r: bool)
        ensures
            r == self.flag_spec(mask),
    {
        self.status & mask != 0
    }
}

/// Whether a packet with this status vector is handed to the host stack: the
/// chip marked it received OK and it fits the largest accepted frame.
pub open spec fn rx_accept_spec(rsv: RxStatusVector) -> bool {
    rsv.flag_spec(RSV_RX_OK) && rsv.byte_count <= ETH_MAX_FRAME_LEN
}

/// Whether a packet with this status vector is handed to the host stack;
/// anything else is dropped and the FIFO advanced past it.
pub fn rx_accept(rsv: &RxStatusVector) -> (r: bool)
    ensures
        r == rx_accept_spec(*rsv),
{
    rsv.flag(RSV_RX_OK) && rsv.byte_count <= ETH_MAX_FRAME_LEN
}

/// The value written to ERXRDPT in place of a next-packet pointer `p`: one
/// less where that stays inside the FIFO, else the FIFO's last byte.
///
/// Erratum 14 of the datasheet forbids ERXRDPT taking an even value at a
/// packet boundary; writing one below the boundary (wrapping) satisfies it
/// for every boundary.
pub open spec fn erxrdpt_workaround_spec(p: u16, start: u16, end: u16) -> u16 {
    if p >= 1 && start <= p - 1 && p - 1 <= end {
        (p - 1) as u16
    } else {
        end
    }
}

/// The value written to ERXRDPT in place of a next-packet pointer.
#[verifier::when_used_as_spec(erxrdpt_workaround_spec)]
pub fn erxrdpt_workaround(next_packet_ptr: u16, start: u16, end: u16) -> (r: u16)
    ensures
        r == erxrdpt_workaround_spec(next_packet_ptr, start, end),
{
    if next_packet_ptr >= 1 && start <= next_packet_ptr - 1 && next_packet_ptr - 1 <= end {
        next_packet_ptr - 1
    } else {
        end
    }
}

/// Where a packet's payload starts: six status-vector bytes past its start,
/// wrapped around the circular FIFO in modular arithmetic.
pub open spec fn next_rx_start_ptr_spec(p: u16) -> u16 {
    if p + RSV_SIZE <= RX_END {
        (p + RSV_SIZE) as u16
    } else {
        (p + RSV_SIZE - (RX_END - RX_START + 1)) as u16
    }
}

/// Where a packet's payload starts, six bytes past `ptr` around the FIFO.
#[verifier::when_used_as_spec(next_rx_start_ptr_spec)]
pub fn next_rx_start_ptr(ptr: u16) -> (r: u16)
    requires
        ptr <= RX_END,
    ensures
        r == next_rx_start_ptr_spec(ptr),
{
    let rsv_end = ptr + (RSV_SIZE as u16);
    if rsv_end <= RX_END {
        rsv_end
    } else {
        rsv_end - (RX_END - RX_START + 1)
    }
}

impl Driver {
    /// Plan reading the six status-vector bytes of the next pending packet:
    /// point ERDPT at it, then one RBM transfer.
    pub fn rx_packet_plan(&mut self) -> (res: (Vec<Cmd>, Xfer))
        ensures
            views(res.0@) == write16_cmds(old(self).bank, Reg16::Erdpt, old(self).next_packet_ptr),
            res.1.tx@ == seq![RBM_OPCODE],
            res.1.rx_len == RSV_SIZE,
            final(self).bank == Bank::Bank0,
            same_but_bank(*old(self), *final(self)),
    {
        let ptr = self.next_packet_ptr;
        self.read_buffer_plan(ptr, RSV_SIZE)
    }

    /// Decide what to do with the packet whose status vector was read: where
    /// it is accepted, the FIFO address its payload starts at and its length,
    /// to be read with [`Driver::read_buffer_plan`] and handed to the host
    /// stack; `None` drops it (a frame error advances pointers and goes on).
    pub fn rx_packet_eval(&self, rsv: &RxStatusVector) -> (r: Option<(u16, u16)>)
        requires
            self.wf(),
        ensures
            rx_accept_spec(*rsv) ==> r == Some(
                (next_rx_start_ptr_spec(self.next_packet_ptr), rsv.byte_count),
            ),
            !rx_accept_spec(*rsv) ==> r is None,
    {
        if rx_accept(rsv) {
            Some((next_rx_start_ptr(self.next_packet_ptr), rsv.byte_count))
        } else {
            None
        }
    }

    /// Advance past the packet, accepted or dropped: remember where the next
    /// one starts and write ERXRDPT with the erratum workaround, never the
    /// raw pointer.
    ///
    /// A conforming chip's next-packet pointer always lies inside the FIFO it
    /// was configured with; the harness must treat anything else as a device
    /// failure rather than call this.
    pub fn rx_packet_finish(&mut self, rsv_next_ptr: u16) -> (cmds: Vec<Cmd>)
        requires
            old(self).wf(),
            rsv_next_ptr <= RX_END,
        ensures
            views(cmds@) == write16_cmds(
                old(self).bank,
                Reg16::Erxrdpt,
                erxrdpt_workaround_spec(rsv_next_ptr, RX_START, RX_END),
            ),
            final(self).next_packet_ptr == rsv_next_ptr,
            final(self).bank == Bank::Bank0,
            final(self).hw_enabled == old(self).hw_enabled,
            final(self).tx_pending == old(self).tx_pending,
            final(self).queue_stopped == old(self).queue_stopped,
            final(self).wf(),
    {
        self.next_packet_ptr = rsv_next_ptr;
        let erxrdpt = erxrdpt_workaround(rsv_next_ptr, RX_START, RX_END);
        self.write_u16(Reg16::Erxrdpt, erxrdpt)
    }

    /// Tell the chip one packet was consumed: set ECON2.PKTDEC so it
    /// decrements EPKTCNT.
    pub fn rx_packet_dec(&mut self) -> (cmds: Vec<Cmd>)
        ensures
            views(cmds@) == bfs8_cmds(old(self).bank, Reg8::Econ2, ECON2_PKTDEC),
            final(self).bank == old(self).bank,
            same_but_bank(*old(self), *final(self)),
    {
        self.bit_set(Reg8::Econ2, ECON2_PKTDEC)
    }
}

} // verus!
