//! Driver state and the banked register-access facade.
//!
//! The driver caches the bank the chip has selected; before any banked access
//! it emits a BFC/BFS pair on ECON1 to switch if needed, so every command
//! sequence a method returns is correct to run exactly when the chip's bank
//! equals the cached one — which the sequences themselves maintain (see
//! [`crate::laws`]).

use vstd::prelude::*;

use crate::cmd::{Cmd, CmdS, Poll, Xfer, views};
use crate::regs::{Bank, PhyRegister, Reg16, Reg8};
use crate::regs::{ECON1_BSEL0, ECON1_BSEL1, MICMD_MIIRD, MISTAT_BUSY};
use crate::spi::{
    RBM_OPCODE, bfc_bytes, bfc_frame, bfs_bytes, bfs_frame, rbm_xfer, rcr_byte, rcr_rx_len,
    rcr_xfer, wbm_bytes, wbm_frame, wcr_bytes, wcr_frame,
};

verus! {

/// The per-device driver state.
///
/// The frame bytes of a parked outbound buffer stay with the harness that
/// owns them; `tx_pending` records that one is parked. `queue_stopped` mirrors
/// the host network stack's TX queue, which the driver alone starts and
/// stops.
pub struct Driver {
    /// The bank the chip has selected, cached so switches are emitted only
    /// when an access needs another bank.
    pub bank: Bank,
    /// Where the next received packet's status vector starts in the RX FIFO.
    pub next_packet_ptr: u16,
    /// Whether receive and interrupts are enabled.
    pub hw_enabled: bool,
    /// Whether an outbound frame is parked awaiting transmission.
    pub tx_pending: bool,
    /// Whether the host TX queue is stopped.
    pub queue_stopped: bool,
}

impl Driver {
    /// The state invariant: the RX read position stays inside the FIFO, and
    /// while a frame is parked the TX queue is stopped, so at most one
    /// transmission is ever in flight.
    pub open spec fn wf(self) -> bool {
        &&& self.next_packet_ptr <= crate::RX_END
        &&& (self.tx_pending ==> self.queue_stopped)
    }

    /// Fresh state, as built on probe: bank 0 cached, read position at the
    /// FIFO start, nothing enabled, nothing parked.
    pub fn new() -> (d: Driver)
        ensures
            d.bank == Bank::Bank0,
            d.next_packet_ptr == 0,
            !d.hw_enabled,
            !d.tx_pending,
            !d.queue_stopped,
            d.wf(),
    {
        Driver {
            bank: Bank::Bank0,
            next_packet_ptr: 0,
            hw_enabled: false,
            tx_pending: false,
            queue_stopped: false,
        }
    }
}

/// Every field but the cached bank is the same in both states.
pub open spec fn same_but_bank(a: Driver, b: Driver) -> bool {
    &&& b.next_packet_ptr == a.next_packet_ptr
    &&& b.hw_enabled == a.hw_enabled
    &&& b.tx_pending == a.tx_pending
    &&& b.queue_stopped == a.queue_stopped
}

/// The commands that move the chip from bank `cur` to where `target` is
/// reachable: nothing for a common register or a match, else a BFC/BFS pair
/// on ECON1.
pub open spec fn bank_cmds(cur: Bank, target: Option<Bank>) -> Seq<CmdS> {
    match target {
        None => seq![],
        Some(t) => if cur == t {
            seq![]
        } else {
            seq![
                CmdS::Write(bfc_bytes(Reg8::Econ1.addr_spec(), ECON1_BSEL1 | ECON1_BSEL0)),
                CmdS::Write(bfs_bytes(Reg8::Econ1.addr_spec(), t.sel_spec())),
            ]
        },
    }
}

/// The cached bank after an access aimed at `target`.
pub open spec fn bank_after(cur: Bank, target: Option<Bank>) -> Bank {
    match target {
        None => cur,
        Some(t) => t,
    }
}

/// A full 8-bit register write: the bank switch if one is needed, then the
/// WCR frame.
pub open spec fn write8_cmds(cur: Bank, r: Reg8, v: u8) -> Seq<CmdS> {
    bank_cmds(cur, r.bank_spec()) + seq![CmdS::Write(wcr_bytes(r.addr_spec(), v))]
}

/// A full bit-field set: the bank switch if one is needed, then the BFS
/// frame.
pub open spec fn bfs8_cmds(cur: Bank, r: Reg8, mask: u8) -> Seq<CmdS> {
    bank_cmds(cur, r.bank_spec()) + seq![CmdS::Write(bfs_bytes(r.addr_spec(), mask))]
}

/// A full bit-field clear: the bank switch if one is needed, then the BFC
/// frame.
pub open spec fn bfc8_cmds(cur: Bank, r: Reg8, mask: u8) -> Seq<CmdS> {
    bank_cmds(cur, r.bank_spec()) + seq![CmdS::Write(bfc_bytes(r.addr_spec(), mask))]
}

/// A 16-bit register write: the low byte, then the high byte, each through
/// its own 8-bit write (the second needs no further switch).
pub open spec fn write16_cmds(cur: Bank, r: Reg16, v: u16) -> Seq<CmdS> {
    write8_cmds(cur, r.low_spec(), v as u8) + write8_cmds(
        bank_after(cur, r.low_spec().bank_spec()),
        r.high_spec(),
        (v >> 8) as u8,
    )
}

/// A poll on one register: repeat its RCR until the masked value matches.
pub open spec fn poll_cmd(r: Reg8, mask: u8, val: u8) -> CmdS {
    CmdS::Poll(
        Poll { tx: rcr_byte(r.addr_spec()), rx_len: rcr_rx_len(r) as usize, mask, val },
    )
}

/// A PHY register write: address into MIREGADR, the value into MIWR, then
/// wait in bank 3 for MISTAT.BUSY to clear.
pub open spec fn phy_write_cmds(cur: Bank, reg: PhyRegister, v: u16) -> Seq<CmdS> {
    write8_cmds(cur, Reg8::Miregadr, reg.addr_spec()) + write16_cmds(Bank::Bank2, Reg16::Miwr, v)
        + bank_cmds(Bank::Bank2, Some(Bank::Bank3)) + seq![
        poll_cmd(Reg8::Mistat, MISTAT_BUSY, 0),
    ]
}

/// The commands before the MIRD read of a PHY register read: address into
/// MIREGADR, the read strobe into MICMD, a millisecond of settling, the busy
/// wait in bank 3, then the strobe cleared.
pub open spec fn phy_read_cmds(cur: Bank, reg: PhyRegister) -> Seq<CmdS> {
    write8_cmds(cur, Reg8::Miregadr, reg.addr_spec()) + write8_cmds(
        Bank::Bank2,
        Reg8::Micmd,
        MICMD_MIIRD,
    ) + bank_cmds(Bank::Bank2, Some(Bank::Bank3)) + seq![
        CmdS::SleepMs(1),
        poll_cmd(Reg8::Mistat, MISTAT_BUSY, 0),
    ] + write8_cmds(Bank::Bank3, Reg8::Micmd, 0)
}

impl Driver {
    /// Switch the chip to the bank `target` needs, if any: a BFC clearing
    /// both bank-select bits of ECON1, then a BFS setting the new ones. A
    /// common register, or a match with the cache, costs no I/O.
    pub fn ensure_bank(&mut self, target: Option<Bank>) -> (cmds: Vec<Cmd>)
        ensures
            views(cmds@) == bank_cmds(old(self).bank, target),
            final(self).bank == bank_after(old(self).bank, target),
            same_but_bank(*old(self), *final(self)),
    {
        let mut cmds: Vec<Cmd> = Vec::new();
        match target {
            Some(t) => {
                if self.bank != t {
                    cmds.push(Cmd::Write(bfc_frame(Reg8::Econ1, ECON1_BSEL1 | ECON1_BSEL0)));
                    cmds.push(Cmd::Write(bfs_frame(Reg8::Econ1, t.sel())));
                    self.bank = t;
                }
            },
            None => {},
        }
        proof {
            assert(views(cmds@) =~= bank_cmds(old(self).bank, target));
        }
        cmds
    }

    /// Write an 8-bit register: switch banks if needed, then the WCR frame.
    pub fn write_u8(&mut self, r: Reg8, v: u8) -> (cmds: Vec<Cmd>)
        ensures
            views(cmds@) == write8_cmds(old(self).bank, r, v),
            final(self).bank == bank_after(old(self).bank, r.bank_spec()),
            same_but_bank(*old(self), *final(self)),
    {
        let mut cmds = self.ensure_bank(r.bank());
        cmds.push(Cmd::Write(wcr_frame(r, v)));
        proof {
            assert(views(cmds@) =~= write8_cmds(old(self).bank, r, v));
        }
        cmds
    }

    /// Set bits in an ETH register: switch banks if needed, then the BFS
    /// frame.
    pub fn bit_set(&mut self, r: Reg8, mask: u8) -> (cmds: Vec<Cmd>)
        requires
            r.is_eth_spec(),
        ensures
            views(cmds@) == bfs8_cmds(old(self).bank, r, mask),
            final(self).bank == bank_after(old(self).bank, r.bank_spec()),
            same_but_bank(*old(self), *final(self)),
    {
        let mut cmds = self.ensure_bank(r.bank());
        cmds.push(Cmd::Write(bfs_frame(r, mask)));
        proof {
            assert(views(cmds@) =~= bfs8_cmds(old(self).bank, r, mask));
        }
        cmds
    }

    /// Clear bits in an ETH register: switch banks if needed, then the BFC
    /// frame.
    pub fn bit_clear(&mut self, r: Reg8, mask: u8) -> (cmds: Vec<Cmd>)
        requires
            r.is_eth_spec(),
        ensures
            views(cmds@) == bfc8_cmds(old(self).bank, r, mask),
            final(self).bank == bank_after(old(self).bank, r.bank_spec()),
            same_but_bank(*old(self), *final(self)),
    {
        let mut cmds = self.ensure_bank(r.bank());
        cmds.push(Cmd::Write(bfc_frame(r, mask)));
        proof {
            assert(views(cmds@) =~= bfc8_cmds(old(self).bank, r, mask));
        }
        cmds
    }

    /// Write a 16-bit register pair, low byte then high byte.
    pub fn write_u16(&mut self, r: Reg16, v: u16) -> (cmds: Vec<Cmd>)
        ensures
            views(cmds@) == write16_cmds(old(self).bank, r, v),
            final(self).bank == bank_after(old(self).bank, r.bank_spec()),
            same_but_bank(*old(self), *final(self)),
    {
        let mut cmds = self.write_u8(r.low(), v as u8);
        let mut hi = self.write_u8(r.high(), (v >> 8) as u8);
        cmds.append(&mut hi);
        proof {
            assert(views(cmds@) =~= write16_cmds(old(self).bank, r, v));
        }
        cmds
    }

    /// Plan an 8-bit register read: the bank switch to run first, then the
    /// RCR transfer whose answer [`crate::spi::rcr_decode`] turns into the
    /// value.
    pub fn read_u8_plan(&mut self, r: Reg8) -> (res: (Vec<Cmd>, Xfer))
        ensures
            views(res.0@) == bank_cmds(old(self).bank, r.bank_spec()),
            res.1.tx@ == seq![rcr_byte(r.addr_spec())],
            res.1.rx_len == rcr_rx_len(r),
            final(self).bank == bank_after(old(self).bank, r.bank_spec()),
            same_but_bank(*old(self), *final(self)),
    {
        let cmds = self.ensure_bank(r.bank());
        (cmds, rcr_xfer(r))
    }

    /// Plan a 16-bit register read: one bank switch, then the low and high
    /// RCR transfers in that order, composed by [`read_u16_decode`].
    pub fn read_u16_plan(&mut self, r: Reg16) -> (res: (Vec<Cmd>, Xfer, Xfer))
        ensures
            views(res.0@) == bank_cmds(old(self).bank, r.bank_spec()),
            res.1.tx@ == seq![rcr_byte(r.low_spec().addr_spec())],
            res.1.rx_len == rcr_rx_len(r.low_spec()),
            res.2.tx@ == seq![rcr_byte(r.high_spec().addr_spec())],
            res.2.rx_len == rcr_rx_len(r.high_spec()),
            final(self).bank == bank_after(old(self).bank, r.bank_spec()),
            same_but_bank(*old(self), *final(self)),
    {
        let cmds = self.ensure_bank(r.bank());
        (cmds, rcr_xfer(r.low()), rcr_xfer(r.high()))
    }

    /// Plan a buffer-memory read of `len` bytes at `addr`: set the
    /// auto-incrementing read pointer ERDPT, then one RBM transfer.
    pub fn read_buffer_plan(&mut self, addr: u16, len: usize) -> (res: (Vec<Cmd>, Xfer))
        ensures
            views(res.0@) == write16_cmds(old(self).bank, Reg16::Erdpt, addr),
            res.1.tx@ == seq![RBM_OPCODE],
            res.1.rx_len == len,
            final(self).bank == Bank::Bank0,
            same_but_bank(*old(self), *final(self)),
    {
        let cmds = self.write_u16(Reg16::Erdpt, addr);
        (cmds, rbm_xfer(len))
    }

    /// One buffer-memory write burst at the auto-incrementing write pointer
    /// EWRPT: the WBM opcode prefixed to the payload in a single transaction.
    pub fn write_buffer(&self, payload: &Vec<u8>) -> (cmds: Vec<Cmd>)
        ensures
            views(cmds@) == seq![CmdS::Write(wbm_bytes(payload@))],
    {
        let mut cmds: Vec<Cmd> = Vec::new();
        cmds.push(Cmd::Write(wbm_frame(payload)));
        proof {
            assert(views(cmds@) =~= seq![CmdS::Write(wbm_bytes(payload@))]);
        }
        cmds
    }

    /// Poll a register until `(value & mask) == val`, suspending between
    /// tries: the bank switch first, then the poll step.
    pub fn wait_for_ready(&mut self, r: Reg8, mask: u8, val: u8) -> (cmds: Vec<Cmd>)
        ensures
            views(cmds@) == bank_cmds(old(self).bank, r.bank_spec()) + seq![
                poll_cmd(r, mask, val),
            ],
            final(self).bank == bank_after(old(self).bank, r.bank_spec()),
            same_but_bank(*old(self), *final(self)),
    {
        let mut cmds = self.ensure_bank(r.bank());
        let rx_len: usize = if r.is_eth() {
            1
        } else {
            2
        };
        cmds.push(Cmd::Poll(Poll { tx: r.addr(), rx_len, mask, val }));
        proof {
            assert(views(cmds@) =~= bank_cmds(old(self).bank, r.bank_spec()) + seq![
                poll_cmd(r, mask, val),
            ]);
        }
        cmds
    }

    /// Write a PHY register through the MII interface: the address into
    /// MIREGADR, the value into MIWR, then wait for MISTAT.BUSY to clear.
    pub fn phy_write_plan(&mut self, reg: PhyRegister, v: u16) -> (cmds: Vec<Cmd>)
        ensures
            views(cmds@) == phy_write_cmds(old(self).bank, reg, v),
            final(self).bank == Bank::Bank3,
            same_but_bank(*old(self), *final(self)),
    {
        let mut cmds = self.write_u8(Reg8::Miregadr, reg.addr());
        let ghost part_a = cmds@;
        let mut rest = self.write_u16(Reg16::Miwr, v);
        let ghost part_b = rest@;
        cmds.append(&mut rest);
        let ghost part_ab = cmds@;
        let mut wait = self.wait_for_ready(Reg8::Mistat, MISTAT_BUSY, 0);
        let ghost part_c = wait@;
        cmds.append(&mut wait);
        proof {
            crate::cmd::lemma_views_concat(part_a, part_b);
            crate::cmd::lemma_views_concat(part_ab, part_c);
            assert(views(cmds@) =~= phy_write_cmds(old(self).bank, reg, v));
        }
        cmds
    }

    /// Read a PHY register through the MII interface: the commands to run
    /// first (address, read strobe, busy wait, strobe cleared), then the two
    /// MIRD transfers whose answers [`read_u16_decode`] composes.
    pub fn phy_read_plan(&mut self, reg: PhyRegister) -> (res: (Vec<Cmd>, Xfer, Xfer))
        ensures
            views(res.0@) == phy_read_cmds(old(self).bank, reg),
            res.1.tx@ == seq![rcr_byte(Reg8::MirdL.addr_spec())],
            res.1.rx_len == rcr_rx_len(Reg8::MirdL),
            res.2.tx@ == seq![rcr_byte(Reg8::MirdH.addr_spec())],
            res.2.rx_len == rcr_rx_len(Reg8::MirdH),
            final(self).bank == Bank::Bank2,
            same_but_bank(*old(self), *final(self)),
    {
        let mut cmds = self.write_u8(Reg8::Miregadr, reg.addr());
        let mut strobe = self.write_u8(Reg8::Micmd, MICMD_MIIRD);
        cmds.append(&mut strobe);
        let mut to_mistat = self.ensure_bank(Some(Bank::Bank3));
        cmds.append(&mut to_mistat);
        cmds.push(Cmd::SleepMs(1));
        cmds.push(Cmd::Poll(Poll { tx: Reg8::Mistat.addr(), rx_len: 2, mask: MISTAT_BUSY, val: 0 }));
        let mut clear = self.write_u8(Reg8::Micmd, 0);
        cmds.append(&mut clear);
        proof {
            assert(views(cmds@) =~= phy_read_cmds(old(self).bank, reg));
        }
        let (_, lo, hi) = self.read_u16_plan(Reg16::Mird);
        (cmds, lo, hi)
    }
}

/// Compose a 16-bit value from the answers of the two RCR transfers of a
/// 16-bit read, low register first.
pub fn read_u16_decode(r: Reg16, lo_rx: &Vec<u8>, hi_rx: &Vec<u8>) -> (v: u16)
    requires
        lo_rx@.len() == rcr_rx_len(r.low_spec()),
        hi_rx@.len() == rcr_rx_len(r.high_spec()),
    ensures
        v == crate::model::combine16(lo_rx@.last(), hi_rx@.last()),
{
    let lo = crate::spi::rcr_decode(r.low(), lo_rx);
    let hi = crate::spi::rcr_decode(r.high(), hi_rx);
    ((hi as u16) << 8) | (lo as u16)
}

} // verus!
