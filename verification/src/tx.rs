//! TX pipeline: parking an outbound frame, the worker that writes it into
//! the chip and arms transmission, and the completion and error-recovery
//! handlers driven by the TXIF and TXERIF interrupt flags.
//!
//! At most one transmission is ever in flight: the host TX queue is stopped
//! when a frame is parked and woken only by the completion handlers.

use vstd::prelude::*;

use crate::cmd::{Cmd, CmdS, Xfer, views};
use crate::driver::{
    Driver, bfc8_cmds, bfs8_cmds, same_but_bank, write16_cmds,
};
use crate::lifecycle::txfifo_cmds;
use crate::model::combine16;
use crate::regs::{Bank, ECON1_TXRTS, EIR_TXERIF, EIR_TXIF, Reg16, Reg8};
use crate::spi::{RBM_OPCODE, wbm_bytes};
use crate::{ETH_MAX_FRAME_LEN, TX_END, TX_START};

verus! {

/// Length of the TX status vector the chip writes after each attempt.
pub const TSV_SIZE: usize = 7;

/// The seven-byte TX status vector, decoded; read for diagnostics after a
/// failed transmission. All 16-bit fields little-endian on the wire.
#[derive(Clone, Copy, PartialEq, Eq, Structural, Debug)]
pub struct TxStatusVector {
    pub byte_count: u16,
    pub status1: u16,
    pub total_bytes_transmitted: u16,
    pub status2: u8,
}

impl TxStatusVector {
    /// Decode the seven bytes read from buffer memory right after ETXND.
    pub fn parse(data: &Vec<u8>) -> (tsv: TxStatusVector)
        requires
            data@.len() == TSV_SIZE,
        ensures
            tsv.byte_count == combine16(data@[0], data@[1]),
            tsv.status1 == combine16(data@[2], data@[3]),
            tsv.total_bytes_transmitted == combine16(data@[4], data@[5]),
            tsv.status2 == data@[6],
    {
        TxStatusVector {
            byte_count: ((data[1] as u16) << 8) | (data[0] as u16),
            status1: ((data[3] as u16) << 8) | (data[2] as u16),
            total_bytes_transmitted: ((data[5] as u16) << 8) | (data[4] as u16),
            status2: data[6],
        }
    }
}

/// The worker's writes for one frame: the write pointer to the TX region's
/// start, ETXND to the frame's last byte (one control byte precedes it), one
/// WBM burst with the control byte, one with the frame, then TXRTS set to arm
/// transmission.
pub open spec fn tx_worker_cmds(cur: Bank, frame: Seq<u8>) -> Seq<CmdS> {
    write16_cmds(cur, Reg16::Ewrpt, TX_START) + write16_cmds(
        Bank::Bank0,
        Reg16::Etxnd,
        (TX_START + frame.len()) as u16,
    ) + seq![CmdS::Write(wbm_bytes(seq![0u8])), CmdS::Write(wbm_bytes(frame))] + bfs8_cmds(
        Bank::Bank0,
        Reg8::Econ1,
        ECON1_TXRTS,
    )
}

/// The recovery writes after a TX error: TXRTS pulsed set then clear (the
/// errata workaround), the TX region pointers restored, then both completion
/// flags cleared.
pub open spec fn tx_recover_cmds(cur: Bank) -> Seq<CmdS> {
    bfs8_cmds(cur, Reg8::Econ1, ECON1_TXRTS) + bfc8_cmds(cur, Reg8::Econ1, ECON1_TXRTS)
        + txfifo_cmds(cur, TX_START, TX_END) + bfc8_cmds(
        Bank::Bank0,
        Reg8::Eir,
        EIR_TXERIF | EIR_TXIF,
    )
}

impl Driver {
    /// A frame was handed in by the host stack: stop the TX queue and park
    /// it, so no second transmission can start until this one completes.
    pub fn on_start_xmit(&mut self)
        requires
            old(self).wf(),
        ensures
            final(self).tx_pending,
            final(self).queue_stopped,
            final(self).bank == old(self).bank,
            final(self).next_packet_ptr == old(self).next_packet_ptr,
            final(self).hw_enabled == old(self).hw_enabled,
            final(self).wf(),
    {
        self.queue_stopped = true;
        self.tx_pending = true;
    }

    /// The TX worker's plan for the parked frame: write it behind a zero
    /// control byte (per-frame MACON3 defaults) and arm transmission.
    ///
    /// The frame must fit the largest accepted Ethernet frame, which the TX
    /// region holds with its control byte; the harness checks before calling.
    pub fn tx_worker_plan(&mut self, frame: &Vec<u8>) -> (cmds: Vec<Cmd>)
        requires
            old(self).wf(),
            frame@.len() <= ETH_MAX_FRAME_LEN,
        ensures
            views(cmds@) == tx_worker_cmds(old(self).bank, frame@),
            final(self).bank == Bank::Bank0,
            same_but_bank(*old(self), *final(self)),
    {
        let mut cmds = self.write_u16(Reg16::Ewrpt, TX_START);
        let ghost p0 = cmds@;
        let len: u16 = frame.len() as u16;
        let mut part = self.write_u16(Reg16::Etxnd, TX_START + len);
        let ghost p1 = part@;
        cmds.append(&mut part);
        proof {
            crate::cmd::lemma_views_concat(p0, p1);
        }
        let mut control: Vec<u8> = Vec::new();
        control.push(0);
        proof {
            assert(control@ =~= seq![0u8]);
        }
        cmds.push(Cmd::Write(crate::spi::wbm_frame(&control)));
        cmds.push(Cmd::Write(crate::spi::wbm_frame(frame)));
        let ghost q = cmds@;
        let mut arm = self.bit_set(Reg8::Econ1, ECON1_TXRTS);
        let ghost p2 = arm@;
        cmds.append(&mut arm);
        proof {
            crate::cmd::lemma_views_concat(q, p2);
            assert(views(cmds@) =~= tx_worker_cmds(old(self).bank, frame@));
        }
        cmds
    }

    /// Plan reading the TX status vector, which the chip writes into buffer
    /// memory right after the frame's last byte: point ERDPT one past ETXND,
    /// then one RBM transfer of its seven bytes.
    pub fn tsv_read_plan(&mut self, etxnd: u16) -> (res: (Vec<Cmd>, Xfer))
        requires
            etxnd < 0xffff,
        ensures
            views(res.0@) == write16_cmds(old(self).bank, Reg16::Erdpt, (etxnd + 1) as u16),
            res.1.tx@ == seq![RBM_OPCODE],
            res.1.rx_len == TSV_SIZE,
            final(self).bank == Bank::Bank0,
            same_but_bank(*old(self), *final(self)),
    {
        self.read_buffer_plan(etxnd + 1, TSV_SIZE)
    }

    /// TXIF arrived without TXERIF: the frame went out. Unpark it, disarm
    /// TXRTS, wake the host queue and clear the flag.
    pub fn tx_complete_ok(&mut self) -> (cmds: Vec<Cmd>)
        requires
            old(self).wf(),
        ensures
            views(cmds@) == bfc8_cmds(old(self).bank, Reg8::Econ1, ECON1_TXRTS) + bfc8_cmds(
                old(self).bank,
                Reg8::Eir,
                EIR_TXIF,
            ),
            !final(self).tx_pending,
            !final(self).queue_stopped,
            final(self).bank == old(self).bank,
            final(self).next_packet_ptr == old(self).next_packet_ptr,
            final(self).hw_enabled == old(self).hw_enabled,
            final(self).wf(),
    {
        self.tx_pending = false;
        let mut cmds = self.bit_clear(Reg8::Econ1, ECON1_TXRTS);
        let ghost p0 = cmds@;
        self.queue_stopped = false;
        let mut part = self.bit_clear(Reg8::Eir, EIR_TXIF);
        let ghost p1 = part@;
        cmds.append(&mut part);
        proof {
            crate::cmd::lemma_views_concat(p0, p1);
        }
        cmds
    }

    /// TXERIF arrived: the attempt failed. Unpark the frame, pulse TXRTS set
    /// then clear, restore the TX region pointers, wake the host queue and
    /// clear both completion flags. The harness reads the status vector first
    /// (via [`Driver::tsv_read_plan`]) for diagnostics.
    pub fn tx_complete_err(&mut self) -> (cmds: Vec<Cmd>)
        requires
            old(self).wf(),
        ensures
            views(cmds@) == tx_recover_cmds(old(self).bank),
            !final(self).tx_pending,
            !final(self).queue_stopped,
            final(self).bank == Bank::Bank0,
            final(self).next_packet_ptr == old(self).next_packet_ptr,
            final(self).hw_enabled == old(self).hw_enabled,
            final(self).wf(),
    {
        self.tx_pending = false;
        self.queue_stopped = false;
        let mut cmds = self.bit_set(Reg8::Econ1, ECON1_TXRTS);
        let ghost p0 = cmds@;
        let mut part = self.bit_clear(Reg8::Econ1, ECON1_TXRTS);
        let ghost p1 = part@;
        cmds.append(&mut part);
        proof {
            crate::cmd::lemma_views_concat(p0, p1);
        }
        let ghost q1 = cmds@;
        let mut part = self.set_txfifo(TX_START, TX_END);
        let ghost p2 = part@;
        cmds.append(&mut part);
        proof {
            crate::cmd::lemma_views_concat(q1, p2);
        }
        let ghost q2 = cmds@;
        let mut part = self.bit_clear(Reg8::Eir, EIR_TXERIF | EIR_TXIF);
        let ghost p3 = part@;
        cmds.append(&mut part);
        proof {
            crate::cmd::lemma_views_concat(q2, p3);
            assert(views(cmds@) == tx_recover_cmds(old(self).bank));
        }
        cmds
    }
}

} // verus!
