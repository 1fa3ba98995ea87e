//! Hardware lifecycle: power-on reset, identity check, FIFO partition,
//! filter and MAC configuration, PHY link configuration, and the enable and
//! disable sequences.
//!
//! The harness runs probe and open as: [`Driver::init_begin`], a read of
//! EREVID, [`Driver::init_config`] with the value read (which refuses 0x00
//! and 0xFF), then on open [`Driver::set_hw_macaddr`] and
//! [`Driver::enable_hardware`].

use vstd::prelude::*;

use crate::Error;
use crate::cmd::{Cmd, CmdS, views};
use crate::driver::{
    Driver, bfc8_cmds, bfs8_cmds, phy_write_cmds, same_but_bank, write16_cmds, write8_cmds,
};
use crate::regs::{Bank, PhyRegister, Reg16, Reg8};
use crate::regs::{
    ECON1_RXEN, ECON2_AUTOINC, EIE_INTIE, EIE_LINKIE, EIE_PKTIE, EIE_RXERIE, EIE_TXERIE, EIE_TXIE,
    EIR_DMAIF, EIR_LINKIF, EIR_PKTIF, EIR_RXERIF, EIR_TXERIF, EIR_TXIF, ERXFCON_BCEN,
    ERXFCON_CRCEN, ERXFCON_UCEN, MACON1_MARXEN, MACON1_RXPAUS, MACON1_TXPAUS, MACON3_FRMLNEN,
    MACON3_FULDPX, MACON3_PADCFG0, MACON3_TXCRCEN, PHCON1_PDPXMD, PHIE_PGEIE, PHIE_PLNKIE,
};
use crate::rx::erxrdpt_workaround_spec;
use crate::spi::{SRC_OPCODE, src_frame, wcr_bytes, wcr_frame};
use crate::{ETH_MAX_FRAME_LEN, LAMPS_MODE, RX_END, RX_START, TX_END, TX_START};

verus! {

/// A receive FIFO range is valid when it is non-empty and lies inside the
/// region the partition gives to RX.
pub open spec fn valid_rx_range(start: u16, end: u16) -> bool {
    start <= end && end <= RX_END
}

/// A transmit range is valid when it is non-empty and lies inside the region
/// the partition gives to TX.
pub open spec fn valid_tx_range(start: u16, end: u16) -> bool {
    TX_START <= start && start <= end && end <= TX_END
}

/// The writes that set up the RX FIFO: its bounds into ERXST and ERXND, and
/// the read pointer one below the start per the erratum workaround.
pub open spec fn rxfifo_cmds(cur: Bank, start: u16, end: u16) -> Seq<CmdS> {
    write16_cmds(cur, Reg16::Erxst, start) + write16_cmds(
        Bank::Bank0,
        Reg16::Erxrdpt,
        erxrdpt_workaround_spec(start, start, end),
    ) + write16_cmds(Bank::Bank0, Reg16::Erxnd, end)
}

/// The writes that set up the TX region's bounds, ETXST and ETXND.
pub open spec fn txfifo_cmds(cur: Bank, start: u16, end: u16) -> Seq<CmdS> {
    write16_cmds(cur, Reg16::Etxst, start) + write16_cmds(Bank::Bank0, Reg16::Etxnd, end)
}

/// The reset prologue: the System Reset Command, two milliseconds of settling
/// that the datasheet demands, then ECON1 cleared (which selects bank 0).
pub open spec fn init_begin_cmds() -> Seq<CmdS> {
    seq![
        CmdS::Write(seq![SRC_OPCODE]),
        CmdS::SleepMs(2),
        CmdS::Write(wcr_bytes(Reg8::Econ1.addr_spec(), 0)),
    ]
}

/// Everything configured after the identity check passed: auto-increment,
/// the FIFO partition, receive filters, MAC timing and length limits, and the
/// PHY's LED, duplex and loopback setup — PHCON2 last.
pub open spec fn init_config_cmds(cur: Bank) -> Seq<CmdS> {
    write8_cmds(cur, Reg8::Econ2, ECON2_AUTOINC) + rxfifo_cmds(cur, RX_START, RX_END)
        + txfifo_cmds(Bank::Bank0, TX_START, TX_END) + write8_cmds(
        Bank::Bank0,
        Reg8::Erxfcon,
        ERXFCON_UCEN | ERXFCON_CRCEN | ERXFCON_BCEN,
    ) + write8_cmds(Bank::Bank1, Reg8::Macon1, MACON1_MARXEN | MACON1_RXPAUS | MACON1_TXPAUS)
        + write8_cmds(
        Bank::Bank2,
        Reg8::Macon3,
        MACON3_FULDPX | MACON3_FRMLNEN | MACON3_TXCRCEN | MACON3_PADCFG0,
    ) + write16_cmds(Bank::Bank2, Reg16::Maipg, 0x12) + write8_cmds(
        Bank::Bank2,
        Reg8::Mabbipg,
        0x15,
    ) + write16_cmds(Bank::Bank2, Reg16::Mamxfl, ETH_MAX_FRAME_LEN) + phy_write_cmds(
        Bank::Bank2,
        PhyRegister::Phlcon,
        LAMPS_MODE,
    ) + phy_write_cmds(Bank::Bank3, PhyRegister::Phcon1, PHCON1_PDPXMD) + phy_write_cmds(
        Bank::Bank3,
        PhyRegister::Phcon2,
        0,
    )
}

/// The enable sequence: PHY link-change interrupts on, every stale flag
/// cleared, all interrupt sources enabled, then receive enabled.
pub open spec fn enable_cmds(cur: Bank) -> Seq<CmdS> {
    phy_write_cmds(cur, PhyRegister::Phie, PHIE_PGEIE | PHIE_PLNKIE) + bfc8_cmds(
        Bank::Bank3,
        Reg8::Eir,
        EIR_DMAIF | EIR_LINKIF | EIR_TXIF | EIR_TXERIF | EIR_RXERIF | EIR_PKTIF,
    ) + write8_cmds(
        Bank::Bank3,
        Reg8::Eie,
        EIE_INTIE | EIE_PKTIE | EIE_LINKIE | EIE_TXIE | EIE_TXERIE | EIE_RXERIE,
    ) + bfs8_cmds(Bank::Bank3, Reg8::Econ1, ECON1_RXEN)
}

/// The disable sequence: all interrupt sources off, then receive disabled.
pub open spec fn disable_cmds(cur: Bank) -> Seq<CmdS> {
    write8_cmds(cur, Reg8::Eie, 0) + bfc8_cmds(cur, Reg8::Econ1, ECON1_RXEN)
}

/// The MAC-address writes, IEEE byte order: MAADR1 takes the first
/// (most significant) byte of the six-byte address.
pub open spec fn set_mac_cmds(cur: Bank, mac: Seq<u8>) -> Seq<CmdS> {
    write8_cmds(cur, Reg8::Maadr1, mac[0]) + write8_cmds(Bank::Bank3, Reg8::Maadr2, mac[1])
        + write8_cmds(Bank::Bank3, Reg8::Maadr3, mac[2]) + write8_cmds(
        Bank::Bank3,
        Reg8::Maadr4,
        mac[3],
    ) + write8_cmds(Bank::Bank3, Reg8::Maadr5, mac[4]) + write8_cmds(
        Bank::Bank3,
        Reg8::Maadr6,
        mac[5],
    )
}

impl Driver {
    /// Set the RX FIFO pointers as given, and take the FIFO start as the next
    /// packet position. [`Driver::init_rxfifo`] validates the range first.
    pub(crate) fn set_rxfifo(&mut self, start: u16, end: u16) -> (cmds: Vec<Cmd>)
        requires
            start <= RX_END,
        ensures
            views(cmds@) == rxfifo_cmds(old(self).bank, start, end),
            final(self).next_packet_ptr == start,
            final(self).bank == Bank::Bank0,
            final(self).hw_enabled == old(self).hw_enabled,
            final(self).tx_pending == old(self).tx_pending,
            final(self).queue_stopped == old(self).queue_stopped,
    {
        self.next_packet_ptr = start;
        let mut cmds = self.write_u16(Reg16::Erxst, start);
        let ghost part_a = cmds@;
        let erxrdpt = crate::rx::erxrdpt_workaround(start, start, end);
        let mut rdpt = self.write_u16(Reg16::Erxrdpt, erxrdpt);
        let ghost part_b = rdpt@;
        cmds.append(&mut rdpt);
        let ghost part_ab = cmds@;
        let mut nd = self.write_u16(Reg16::Erxnd, end);
        let ghost part_c = nd@;
        cmds.append(&mut nd);
        proof {
            crate::cmd::lemma_views_concat(part_a, part_b);
            crate::cmd::lemma_views_concat(part_ab, part_c);
            assert(views(cmds@) =~= rxfifo_cmds(old(self).bank, start, end));
        }
        cmds
    }

    /// Set the TX region pointers as given. [`Driver::init_txfifo`] validates
    /// the range first; the TX error recovery reuses this with the fixed
    /// partition.
    pub(crate) fn set_txfifo(&mut self, start: u16, end: u16) -> (cmds: Vec<Cmd>)
        ensures
            views(cmds@) == txfifo_cmds(old(self).bank, start, end),
            final(self).bank == Bank::Bank0,
            same_but_bank(*old(self), *final(self)),
    {
        let mut cmds = self.write_u16(Reg16::Etxst, start);
        let ghost part_a = cmds@;
        let mut nd = self.write_u16(Reg16::Etxnd, end);
        let ghost part_b = nd@;
        cmds.append(&mut nd);
        proof {
            crate::cmd::lemma_views_concat(part_a, part_b);
            assert(views(cmds@) =~= txfifo_cmds(old(self).bank, start, end));
        }
        cmds
    }

    /// Initialize the RX FIFO over `start..=end`, refusing a range that is
    /// empty or leaves the RX region.
    pub fn init_rxfifo(&mut self, start: u16, end: u16) -> (res: Result<Vec<Cmd>, Error>)
        requires
            old(self).wf(),
        ensures
            res is Ok <==> valid_rx_range(start, end),
            res matches Ok(cmds) ==> {
                &&& views(cmds@) == rxfifo_cmds(old(self).bank, start, end)
                &&& final(self).next_packet_ptr == start
                &&& final(self).bank == Bank::Bank0
                &&& final(self).hw_enabled == old(self).hw_enabled
                &&& final(self).tx_pending == old(self).tx_pending
                &&& final(self).queue_stopped == old(self).queue_stopped
                &&& final(self).wf()
            },
            res matches Err(e) ==> e == Error::ConfigurationError && *final(self) == *old(self),
    {
        if start > end || end > RX_END {
            return Err(Error::ConfigurationError);
        }
        Ok(self.set_rxfifo(start, end))
    }

    /// Initialize the TX region over `start..=end`, refusing a range that is
    /// empty or leaves the TX region.
    pub fn init_txfifo(&mut self, start: u16, end: u16) -> (res: Result<Vec<Cmd>, Error>)
        requires
            old(self).wf(),
        ensures
            res is Ok <==> valid_tx_range(start, end),
            res matches Ok(cmds) ==> {
                &&& views(cmds@) == txfifo_cmds(old(self).bank, start, end)
                &&& final(self).bank == Bank::Bank0
                &&& same_but_bank(*old(self), *final(self))
                &&& final(self).wf()
            },
            res matches Err(e) ==> e == Error::ConfigurationError && *final(self) == *old(self),
    {
        if start < TX_START || start > end || end > TX_END {
            return Err(Error::ConfigurationError);
        }
        Ok(self.set_txfifo(start, end))
    }

    /// The reset prologue: issue the System Reset Command, wait two
    /// milliseconds, clear ECON1. The chip is in bank 0 afterwards, whatever
    /// state it was in.
    pub fn init_begin(&mut self) -> (cmds: Vec<Cmd>)
        ensures
            views(cmds@) == init_begin_cmds(),
            final(self).bank == Bank::Bank0,
            same_but_bank(*old(self), *final(self)),
    {
        let mut cmds: Vec<Cmd> = Vec::new();
        cmds.push(Cmd::Write(src_frame()));
        cmds.push(Cmd::SleepMs(2));
        cmds.push(Cmd::Write(wcr_frame(Reg8::Econ1, 0)));
        self.bank = Bank::Bank0;
        proof {
            assert(views(cmds@) =~= init_begin_cmds());
        }
        cmds
    }

    /// The identity check and everything configured after it.
    ///
    /// A revision of 0x00 or 0xFF means no chip answered: the result is
    /// [`Error::DeviceAbsent`] and no command is emitted. Any other revision
    /// yields the full configuration sequence, PHCON2 written last.
    pub fn init_config(&mut self, revid: u8) -> (res: Result<Vec<Cmd>, Error>)
        requires
            old(self).wf(),
        ensures
            res is Ok <==> (revid != 0 && revid != 0xff),
            res matches Ok(cmds) ==> {
                &&& views(cmds@) == init_config_cmds(old(self).bank)
                &&& final(self).next_packet_ptr == RX_START
                &&& final(self).bank == Bank::Bank3
                &&& final(self).hw_enabled == old(self).hw_enabled
                &&& final(self).tx_pending == old(self).tx_pending
                &&& final(self).queue_stopped == old(self).queue_stopped
                &&& final(self).wf()
            },
            res matches Err(e) ==> e == Error::DeviceAbsent && *final(self) == *old(self),
    {
        if revid == 0 || revid == 0xff {
            return Err(Error::DeviceAbsent);
        }
        let mut cmds = self.write_u8(Reg8::Econ2, ECON2_AUTOINC);
        let ghost p0 = cmds@;
        let mut part = self.set_rxfifo(RX_START, RX_END);
        let ghost p1 = part@;
        cmds.append(&mut part);
        proof {
            crate::cmd::lemma_views_concat(p0, p1);
        }
        let ghost q1 = cmds@;
        let mut part = self.set_txfifo(TX_START, TX_END);
        let ghost p2 = part@;
        cmds.append(&mut part);
        proof {
            crate::cmd::lemma_views_concat(q1, p2);
        }
        let ghost q2 = cmds@;
        let mut part = self.write_u8(Reg8::Erxfcon, ERXFCON_UCEN | ERXFCON_CRCEN | ERXFCON_BCEN);
        let ghost p3 = part@;
        cmds.append(&mut part);
        proof {
            crate::cmd::lemma_views_concat(q2, p3);
        }
        let ghost q3 = cmds@;
        let mut part = self.write_u8(Reg8::Macon1, MACON1_MARXEN | MACON1_RXPAUS | MACON1_TXPAUS);
        let ghost p4 = part@;
        cmds.append(&mut part);
        proof {
            crate::cmd::lemma_views_concat(q3, p4);
        }
        let ghost q4 = cmds@;
        let mut part = self.write_u8(
            Reg8::Macon3,
            MACON3_FULDPX | MACON3_FRMLNEN | MACON3_TXCRCEN | MACON3_PADCFG0,
        );
        let ghost p5 = part@;
        cmds.append(&mut part);
        proof {
            crate::cmd::lemma_views_concat(q4, p5);
        }
        let ghost q5 = cmds@;
        let mut part = self.write_u16(Reg16::Maipg, 0x12);
        let ghost p6 = part@;
        cmds.append(&mut part);
        proof {
            crate::cmd::lemma_views_concat(q5, p6);
        }
        let ghost q6 = cmds@;
        let mut part = self.write_u8(Reg8::Mabbipg, 0x15);
        let ghost p7 = part@;
        cmds.append(&mut part);
        proof {
            crate::cmd::lemma_views_concat(q6, p7);
        }
        let ghost q7 = cmds@;
        let mut part = self.write_u16(Reg16::Mamxfl, ETH_MAX_FRAME_LEN);
        let ghost p8 = part@;
        cmds.append(&mut part);
        proof {
            crate::cmd::lemma_views_concat(q7, p8);
        }
        let ghost q8 = cmds@;
        let mut part = self.phy_write_plan(PhyRegister::Phlcon, LAMPS_MODE);
        let ghost p9 = part@;
        cmds.append(&mut part);
        proof {
            crate::cmd::lemma_views_concat(q8, p9);
        }
        let ghost q9 = cmds@;
        let mut part = self.phy_write_plan(PhyRegister::Phcon1, PHCON1_PDPXMD);
        let ghost p10 = part@;
        cmds.append(&mut part);
        proof {
            crate::cmd::lemma_views_concat(q9, p10);
        }
        let ghost q10 = cmds@;
        let mut part = self.phy_write_plan(PhyRegister::Phcon2, 0);
        let ghost p11 = part@;
        cmds.append(&mut part);
        proof {
            crate::cmd::lemma_views_concat(q10, p11);
            assert(views(cmds@) == init_config_cmds(old(self).bank));
        }
        Ok(cmds)
    }

    /// The enable sequence run on open, after init and the MAC address: PHY
    /// interrupts, stale flags cleared, interrupt sources on, receive on.
    pub fn enable_hardware(&mut self) -> (cmds: Vec<Cmd>)
        requires
            old(self).wf(),
        ensures
            views(cmds@) == enable_cmds(old(self).bank),
            final(self).hw_enabled,
            final(self).bank == Bank::Bank3,
            final(self).next_packet_ptr == old(self).next_packet_ptr,
            final(self).tx_pending == old(self).tx_pending,
            final(self).queue_stopped == old(self).queue_stopped,
            final(self).wf(),
    {
        let mut cmds = self.phy_write_plan(PhyRegister::Phie, PHIE_PGEIE | PHIE_PLNKIE);
        let ghost p0 = cmds@;
        let mut part = self.bit_clear(
            Reg8::Eir,
            EIR_DMAIF | EIR_LINKIF | EIR_TXIF | EIR_TXERIF | EIR_RXERIF | EIR_PKTIF,
        );
        let ghost p1 = part@;
        cmds.append(&mut part);
        proof {
            crate::cmd::lemma_views_concat(p0, p1);
        }
        let ghost q1 = cmds@;
        let mut part = self.write_u8(
            Reg8::Eie,
            EIE_INTIE | EIE_PKTIE | EIE_LINKIE | EIE_TXIE | EIE_TXERIE | EIE_RXERIE,
        );
        let ghost p2 = part@;
        cmds.append(&mut part);
        proof {
            crate::cmd::lemma_views_concat(q1, p2);
        }
        let ghost q2 = cmds@;
        let mut part = self.bit_set(Reg8::Econ1, ECON1_RXEN);
        let ghost p3 = part@;
        cmds.append(&mut part);
        proof {
            crate::cmd::lemma_views_concat(q2, p3);
            assert(views(cmds@) == enable_cmds(old(self).bank));
        }
        self.hw_enabled = true;
        cmds
    }

    /// The disable sequence run on stop: interrupt sources off, receive off.
    pub fn disable_hardware(&mut self) -> (cmds: Vec<Cmd>)
        requires
            old(self).wf(),
        ensures
            views(cmds@) == disable_cmds(old(self).bank),
            !final(self).hw_enabled,
            final(self).bank == old(self).bank,
            final(self).next_packet_ptr == old(self).next_packet_ptr,
            final(self).tx_pending == old(self).tx_pending,
            final(self).queue_stopped == old(self).queue_stopped,
            final(self).wf(),
    {
        let mut cmds = self.write_u8(Reg8::Eie, 0);
        let ghost p0 = cmds@;
        let mut part = self.bit_clear(Reg8::Econ1, ECON1_RXEN);
        let ghost p1 = part@;
        cmds.append(&mut part);
        proof {
            crate::cmd::lemma_views_concat(p0, p1);
            assert(views(cmds@) == disable_cmds(old(self).bank));
        }
        self.hw_enabled = false;
        cmds
    }

    /// Program the six-byte MAC address, datasheet order: MAADR1 takes the
    /// first (most significant) byte.
    pub fn set_hw_macaddr(&mut self, mac: &[u8; 6]) -> (cmds: Vec<Cmd>)
        ensures
            views(cmds@) == set_mac_cmds(old(self).bank, mac@),
            final(self).bank == Bank::Bank3,
            same_but_bank(*old(self), *final(self)),
    {
        let mut cmds = self.write_u8(Reg8::Maadr1, mac[0]);
        let ghost p0 = cmds@;
        let mut part = self.write_u8(Reg8::Maadr2, mac[1]);
        let ghost p1 = part@;
        cmds.append(&mut part);
        proof {
            crate::cmd::lemma_views_concat(p0, p1);
        }
        let ghost q1 = cmds@;
        let mut part = self.write_u8(Reg8::Maadr3, mac[2]);
        let ghost p2 = part@;
        cmds.append(&mut part);
        proof {
            crate::cmd::lemma_views_concat(q1, p2);
        }
        let ghost q2 = cmds@;
        let mut part = self.write_u8(Reg8::Maadr4, mac[3]);
        let ghost p3 = part@;
        cmds.append(&mut part);
        proof {
            crate::cmd::lemma_views_concat(q2, p3);
        }
        let ghost q3 = cmds@;
        let mut part = self.write_u8(Reg8::Maadr5, mac[4]);
        let ghost p4 = part@;
        cmds.append(&mut part);
        proof {
            crate::cmd::lemma_views_concat(q3, p4);
        }
        let ghost q4 = cmds@;
        let mut part = self.write_u8(Reg8::Maadr6, mac[5]);
        let ghost p5 = part@;
        cmds.append(&mut part);
        proof {
            crate::cmd::lemma_views_concat(q4, p5);
            assert(views(cmds@) == set_mac_cmds(old(self).bank, mac@));
        }
        cmds
    }
}

/// The identity check: a revision of 0x00 or 0xFF means no device.
pub fn check_revision(revid: u8) -> (res: Result<(), Error>)
    ensures
        res is Ok <==> (revid != 0 && revid != 0xff),
        res matches Err(e) ==> e == Error::DeviceAbsent,
{
    if revid == 0 || revid == 0xff {
        Err(Error::DeviceAbsent)
    } else {
        Ok(())
    }
}

} // verus!
