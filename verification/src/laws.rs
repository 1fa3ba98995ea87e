//! The driver's laws, proved against the chip model of [`crate::model`].
//!
//! Each register-access method of [`crate::driver::Driver`] returns a command
//! sequence and updates the cached bank; the lemmas here state what running
//! that sequence does to a chip whose selected bank agrees with the cache —
//! above all, that it agrees again afterwards, so the cache is correct across
//! any access sequence.

use vstd::prelude::*;

use crate::driver::{
    Driver, bank_after, bank_cmds, bfc8_cmds, bfs8_cmds, phy_write_cmds, poll_cmd, write16_cmds,
    write8_cmds,
};
use crate::irq::irq_progress;
use crate::lifecycle::{init_begin_cmds, init_config_cmds, rxfifo_cmds, txfifo_cmds};
use crate::model::{
    ChipRegs, apply_cmd, bank_sel, econ1_key, lemma_apply_bfc, lemma_apply_bfs, lemma_apply_wcr,
    lemma_bsel_bits, lemma_combine_split, lemma_mask_keeps_bsel, lemma_reg8_key_econ1,
    lemma_run_cmds_concat, lemma_run_one, lemma_run_three, lemma_run_two, reg16_val, reg8_key,
    reg_val, run_cmds,
};
use crate::regs::{
    Bank, ECON1_BSEL0, ECON1_BSEL1, EIR_DMAIF, EIR_LINKIF, EIR_RXERIF, EIR_TXERIF, EIR_TXIF,
    Reg16, Reg8, lemma_reg16_pair, lemma_reg8_addr,
};
use crate::spi::{bfc_bytes, bfs_bytes, wcr_bytes};
use crate::rx::{erxrdpt_workaround_spec, next_rx_start_ptr_spec};
use crate::{RX_END, RX_START};

verus! {

/// Running a bank switch on a chip that agrees with the old cache makes it
/// agree with the new one; no cell but ECON1 changes, and even ECON1 keeps
/// its six high bits.
pub proof fn lemma_bank_switch(c: ChipRegs, cur: Bank, target: Option<Bank>)
    requires
        bank_sel(c) == cur.sel_spec(),
    ensures
        ({
            let c2 = run_cmds(c, bank_cmds(cur, target));
            &&& bank_sel(c2) == bank_after(cur, target).sel_spec()
            &&& forall|k: int| k != econ1_key() ==> c2.regs[k] == c.regs[k]
            &&& c2.regs[econ1_key()] & 0xfc == c.regs[econ1_key()] & 0xfc
        }),
{
    let cmds = bank_cmds(cur, target);
    let c2 = run_cmds(c, cmds);
    match target {
        None => {
            assert(c2 == c);
        },
        Some(t) => {
            if cur == t {
                assert(c2 == c);
            } else {
                let v = c.regs[econ1_key()];
                let mask = ECON1_BSEL1 | ECON1_BSEL0;
                assert(ECON1_BSEL1 | ECON1_BSEL0 == 3u8) by (bit_vector);
                let b0 = crate::cmd::CmdS::Write(bfc_bytes(Reg8::Econ1.addr_spec(), mask));
                let b1 = crate::cmd::CmdS::Write(bfs_bytes(Reg8::Econ1.addr_spec(), t.sel_spec()));
                assert(cmds == seq![b0, b1]);
                lemma_run_two(c, b0, b1);
                let c1 = apply_cmd(c, b0);
                assert(c2 == apply_cmd(c1, b1));
                lemma_apply_bfc(c, Reg8::Econ1, mask);
                lemma_apply_bfs(c1, Reg8::Econ1, t.sel_spec());
                assert(reg8_key(Reg8::Econ1) == econ1_key());
                assert(c1.regs[econ1_key()] == v & !3u8);
                assert(c2.regs[econ1_key()] == (v & !3u8) | t.sel_spec());
                lemma_bsel_bits(v, t.sel_spec());
            }
        },
    }
}

/// Writing an 8-bit register (not ECON1 itself, which only the reset prologue
/// writes whole) leaves the chip holding the value in that register, the bank
/// agreeing with the new cache, and every other cell as it was, save ECON1's
/// bank bits.
pub proof fn lemma_write8_model(c: ChipRegs, cur: Bank, r: Reg8, v: u8)
    requires
        bank_sel(c) == cur.sel_spec(),
        r != Reg8::Econ1,
    ensures
        ({
            let c2 = run_cmds(c, write8_cmds(cur, r, v));
            &&& reg_val(c2, r) == v
            &&& bank_sel(c2) == bank_after(cur, r.bank_spec()).sel_spec()
            &&& c2.regs[econ1_key()] & 0xfc == c.regs[econ1_key()] & 0xfc
            &&& forall|k: int|
                k != econ1_key() && k != reg8_key(r) ==> c2.regs[k] == c.regs[k]
        }),
{
    let pre = bank_cmds(cur, r.bank_spec());
    let w = crate::cmd::CmdS::Write(wcr_bytes(r.addr_spec(), v));
    assert(write8_cmds(cur, r, v) == pre + seq![w]);
    lemma_run_cmds_concat(c, pre, seq![w]);
    let c1 = run_cmds(c, pre);
    lemma_bank_switch(c, cur, r.bank_spec());
    lemma_run_one(c1, w);
    lemma_apply_wcr(c1, r, v);
    lemma_reg8_key_econ1(r);
}

/// A bit-field set on an ETH register (with a mask off the bank-select bits
/// when it aims at ECON1) ors the mask into that register and preserves the
/// rest, bank cache included.
pub proof fn lemma_bfs8_model(c: ChipRegs, cur: Bank, r: Reg8, mask: u8)
    requires
        bank_sel(c) == cur.sel_spec(),
        r == Reg8::Econ1 ==> mask & 3 == 0,
    ensures
        ({
            let c2 = run_cmds(c, bfs8_cmds(cur, r, mask));
            &&& reg_val(c2, r) == reg_val(c, r) | mask
            &&& bank_sel(c2) == bank_after(cur, r.bank_spec()).sel_spec()
            &&& r != Reg8::Econ1 ==> c2.regs[econ1_key()] & 0xfc == c.regs[econ1_key()] & 0xfc
            &&& forall|k: int|
                k != econ1_key() && k != reg8_key(r) ==> c2.regs[k] == c.regs[k]
        }),
{
    let pre = bank_cmds(cur, r.bank_spec());
    let w = crate::cmd::CmdS::Write(bfs_bytes(r.addr_spec(), mask));
    assert(bfs8_cmds(cur, r, mask) == pre + seq![w]);
    lemma_run_cmds_concat(c, pre, seq![w]);
    let c1 = run_cmds(c, pre);
    lemma_bank_switch(c, cur, r.bank_spec());
    lemma_run_one(c1, w);
    lemma_apply_bfs(c1, r, mask);
    lemma_reg8_key_econ1(r);
    if r == Reg8::Econ1 {
        lemma_mask_keeps_bsel(c.regs[econ1_key()], mask);
    }
}

/// A bit-field clear on an ETH register (with a mask off the bank-select bits
/// when it aims at ECON1) clears the mask's bits in that register and
/// preserves the rest, bank cache included.
pub proof fn lemma_bfc8_model(c: ChipRegs, cur: Bank, r: Reg8, mask: u8)
    requires
        bank_sel(c) == cur.sel_spec(),
        r == Reg8::Econ1 ==> mask & 3 == 0,
    ensures
        ({
            let c2 = run_cmds(c, bfc8_cmds(cur, r, mask));
            &&& reg_val(c2, r) == reg_val(c, r) & !mask
            &&& bank_sel(c2) == bank_after(cur, r.bank_spec()).sel_spec()
            &&& r != Reg8::Econ1 ==> c2.regs[econ1_key()] & 0xfc == c.regs[econ1_key()] & 0xfc
            &&& forall|k: int|
                k != econ1_key() && k != reg8_key(r) ==> c2.regs[k] == c.regs[k]
        }),
{
    let pre = bank_cmds(cur, r.bank_spec());
    let w = crate::cmd::CmdS::Write(bfc_bytes(r.addr_spec(), mask));
    assert(bfc8_cmds(cur, r, mask) == pre + seq![w]);
    lemma_run_cmds_concat(c, pre, seq![w]);
    let c1 = run_cmds(c, pre);
    lemma_bank_switch(c, cur, r.bank_spec());
    lemma_run_one(c1, w);
    lemma_apply_bfc(c1, r, mask);
    lemma_reg8_key_econ1(r);
    if r == Reg8::Econ1 {
        lemma_mask_keeps_bsel(c.regs[econ1_key()], mask);
    }
}

/// The 16-bit round trip: after a 16-bit write of `v`, a read of the same
/// register yields `v` (the model has no hardware side effects, which is the
/// proviso of the law). The bank agrees with the new cache and no other cell
/// moves, save ECON1's bank bits.
pub proof fn lemma_write16_roundtrip(c: ChipRegs, cur: Bank, r: Reg16, v: u16)
    requires
        bank_sel(c) == cur.sel_spec(),
    ensures
        ({
            let c2 = run_cmds(c, write16_cmds(cur, r, v));
            &&& reg16_val(c2, r) == v
            &&& bank_sel(c2) == bank_after(cur, r.bank_spec()).sel_spec()
            &&& c2.regs[econ1_key()] & 0xfc == c.regs[econ1_key()] & 0xfc
            &&& forall|k: int|
                k != econ1_key() && k != reg8_key(r.low_spec()) && k != reg8_key(r.high_spec())
                    ==> c2.regs[k] == c.regs[k]
        }),
{
    let lo = r.low_spec();
    let hi = r.high_spec();
    assert(lo != Reg8::Econ1 && hi != Reg8::Econ1);
    let a = write8_cmds(cur, lo, v as u8);
    let cur1 = bank_after(cur, lo.bank_spec());
    let b = write8_cmds(cur1, hi, (v >> 8) as u8);
    assert(write16_cmds(cur, r, v) == a + b);
    lemma_run_cmds_concat(c, a, b);
    let c1 = run_cmds(c, a);
    lemma_write8_model(c, cur, lo, v as u8);
    let c2 = run_cmds(c1, b);
    lemma_write8_model(c1, cur1, hi, (v >> 8) as u8);
    lemma_reg16_pair(r);
    lemma_reg8_addr(lo);
    lemma_reg8_addr(hi);
    assert(reg8_key(lo) != reg8_key(hi));
    lemma_reg8_key_econ1(lo);
    lemma_reg8_key_econ1(hi);
    assert(reg_val(c2, lo) == v as u8);
    assert(reg_val(c2, hi) == (v >> 8) as u8);
    lemma_combine_split(v);
}

/// A PHY write moves only the MII plumbing — MIREGADR, the MIWR pair, and
/// ECON1's bank bits — and leaves the chip in bank 3 for the busy wait, as
/// the cache says.
pub proof fn lemma_phy_write_model(
    c: ChipRegs,
    cur: Bank,
    reg: crate::regs::PhyRegister,
    v: u16,
)
    requires
        bank_sel(c) == cur.sel_spec(),
    ensures
        ({
            let c2 = run_cmds(c, phy_write_cmds(cur, reg, v));
            &&& bank_sel(c2) == Bank::Bank3.sel_spec()
            &&& c2.regs[econ1_key()] & 0xfc == c.regs[econ1_key()] & 0xfc
            &&& forall|k: int|
                k != econ1_key() && k != reg8_key(Reg8::Miregadr) && k != reg8_key(Reg8::MiwrL)
                    && k != reg8_key(Reg8::MiwrH) ==> c2.regs[k] == c.regs[k]
        }),
{
    let a = write8_cmds(cur, Reg8::Miregadr, reg.addr_spec());
    let b = write16_cmds(Bank::Bank2, Reg16::Miwr, v);
    let sw = bank_cmds(Bank::Bank2, Some(Bank::Bank3));
    let p = poll_cmd(Reg8::Mistat, crate::regs::MISTAT_BUSY, 0);
    assert(phy_write_cmds(cur, reg, v) == a + b + sw + seq![p]);
    lemma_run_cmds_concat(c, a + b + sw, seq![p]);
    lemma_run_cmds_concat(c, a + b, sw);
    lemma_run_cmds_concat(c, a, b);
    let c1 = run_cmds(c, a);
    lemma_write8_model(c, cur, Reg8::Miregadr, reg.addr_spec());
    let c2 = run_cmds(c1, b);
    lemma_write16_roundtrip(c1, Bank::Bank2, Reg16::Miwr, v);
    let c3 = run_cmds(c2, sw);
    lemma_bank_switch(c2, Bank::Bank2, Some(Bank::Bank3));
    lemma_run_one(c3, p);
}

/// Setting up the RX FIFO leaves ERXST, ERXRDPT (with the workaround value)
/// and ERXND programmed, the chip in bank 0, and every other cell untouched
/// save ECON1's bank bits.
pub proof fn lemma_rxfifo_model(c: ChipRegs, cur: Bank, start: u16, end: u16)
    requires
        bank_sel(c) == cur.sel_spec(),
    ensures
        ({
            let c2 = run_cmds(c, rxfifo_cmds(cur, start, end));
            &&& reg16_val(c2, Reg16::Erxst) == start
            &&& reg16_val(c2, Reg16::Erxrdpt) == crate::rx::erxrdpt_workaround_spec(
                start,
                start,
                end,
            )
            &&& reg16_val(c2, Reg16::Erxnd) == end
            &&& bank_sel(c2) == Bank::Bank0.sel_spec()
            &&& c2.regs[econ1_key()] & 0xfc == c.regs[econ1_key()] & 0xfc
            &&& forall|k: int|
                k != econ1_key() && k != reg8_key(Reg8::ErxstL) && k != reg8_key(Reg8::ErxstH)
                    && k != reg8_key(Reg8::ErxrdptL) && k != reg8_key(Reg8::ErxrdptH) && k
                    != reg8_key(Reg8::ErxndL) && k != reg8_key(Reg8::ErxndH) ==> c2.regs[k]
                    == c.regs[k]
        }),
{
    let w = crate::rx::erxrdpt_workaround_spec(start, start, end);
    let a = write16_cmds(cur, Reg16::Erxst, start);
    let b = write16_cmds(Bank::Bank0, Reg16::Erxrdpt, w);
    let e = write16_cmds(Bank::Bank0, Reg16::Erxnd, end);
    assert(rxfifo_cmds(cur, start, end) == a + b + e);
    lemma_run_cmds_concat(c, a + b, e);
    lemma_run_cmds_concat(c, a, b);
    let c1 = run_cmds(c, a);
    lemma_write16_roundtrip(c, cur, Reg16::Erxst, start);
    let c2 = run_cmds(c1, b);
    lemma_write16_roundtrip(c1, Bank::Bank0, Reg16::Erxrdpt, w);
    let c3 = run_cmds(c2, e);
    lemma_write16_roundtrip(c2, Bank::Bank0, Reg16::Erxnd, end);
}

/// Setting up the TX region leaves ETXST and ETXND programmed, the chip in
/// bank 0, and every other cell untouched save ECON1's bank bits.
pub proof fn lemma_txfifo_model(c: ChipRegs, cur: Bank, start: u16, end: u16)
    requires
        bank_sel(c) == cur.sel_spec(),
    ensures
        ({
            let c2 = run_cmds(c, txfifo_cmds(cur, start, end));
            &&& reg16_val(c2, Reg16::Etxst) == start
            &&& reg16_val(c2, Reg16::Etxnd) == end
            &&& bank_sel(c2) == Bank::Bank0.sel_spec()
            &&& c2.regs[econ1_key()] & 0xfc == c.regs[econ1_key()] & 0xfc
            &&& forall|k: int|
                k != econ1_key() && k != reg8_key(Reg8::EtxstL) && k != reg8_key(Reg8::EtxstH)
                    && k != reg8_key(Reg8::EtxndL) && k != reg8_key(Reg8::EtxndH) ==> c2.regs[k]
                    == c.regs[k]
        }),
{
    let a = write16_cmds(cur, Reg16::Etxst, start);
    let b = write16_cmds(Bank::Bank0, Reg16::Etxnd, end);
    assert(txfifo_cmds(cur, start, end) == a + b);
    lemma_run_cmds_concat(c, a, b);
    let c1 = run_cmds(c, a);
    lemma_write16_roundtrip(c, cur, Reg16::Etxst, start);
    lemma_write16_roundtrip(c1, Bank::Bank0, Reg16::Etxnd, end);
}

/// After the configuration sequence runs on a chip whose bank agrees with
/// the cache, the chip holds exactly the documented setup: auto-increment
/// on, the RX FIFO over the 6.5 KiB partition with its read pointer on the
/// workaround value, the TX region over the rest, the receive filters, the
/// MAC timing and length limits — and the bank again agrees with the cache.
#[verifier::rlimit(50)]
pub proof fn lemma_init_config_model(c: ChipRegs, cur: Bank)
    requires
        bank_sel(c) == cur.sel_spec(),
    ensures
        ({
            let c2 = run_cmds(c, init_config_cmds(cur));
            &&& reg_val(c2, Reg8::Econ2) == crate::regs::ECON2_AUTOINC
            &&& reg16_val(c2, Reg16::Erxst) == crate::RX_START
            &&& reg16_val(c2, Reg16::Erxrdpt) == crate::RX_END
            &&& reg16_val(c2, Reg16::Erxnd) == crate::RX_END
            &&& reg16_val(c2, Reg16::Etxst) == crate::TX_START
            &&& reg16_val(c2, Reg16::Etxnd) == crate::TX_END
            &&& reg_val(c2, Reg8::Erxfcon) == (crate::regs::ERXFCON_UCEN
                | crate::regs::ERXFCON_CRCEN | crate::regs::ERXFCON_BCEN)
            &&& reg_val(c2, Reg8::Macon1) == (crate::regs::MACON1_MARXEN
                | crate::regs::MACON1_RXPAUS | crate::regs::MACON1_TXPAUS)
            &&& reg_val(c2, Reg8::Macon3) == (crate::regs::MACON3_FULDPX
                | crate::regs::MACON3_FRMLNEN | crate::regs::MACON3_TXCRCEN
                | crate::regs::MACON3_PADCFG0)
            &&& reg16_val(c2, Reg16::Maipg) == 0x12
            &&& reg_val(c2, Reg8::Mabbipg) == 0x15
            &&& reg16_val(c2, Reg16::Mamxfl) == crate::ETH_MAX_FRAME_LEN
            &&& bank_sel(c2) == Bank::Bank3.sel_spec()
        }),
{
    let s1 = write8_cmds(cur, Reg8::Econ2, crate::regs::ECON2_AUTOINC);
    let s2 = rxfifo_cmds(cur, crate::RX_START, crate::RX_END);
    let s3 = txfifo_cmds(Bank::Bank0, crate::TX_START, crate::TX_END);
    let s4 = write8_cmds(
        Bank::Bank0,
        Reg8::Erxfcon,
        crate::regs::ERXFCON_UCEN | crate::regs::ERXFCON_CRCEN | crate::regs::ERXFCON_BCEN,
    );
    let s5 = write8_cmds(
        Bank::Bank1,
        Reg8::Macon1,
        crate::regs::MACON1_MARXEN | crate::regs::MACON1_RXPAUS | crate::regs::MACON1_TXPAUS,
    );
    let s6 = write8_cmds(
        Bank::Bank2,
        Reg8::Macon3,
        crate::regs::MACON3_FULDPX | crate::regs::MACON3_FRMLNEN | crate::regs::MACON3_TXCRCEN
            | crate::regs::MACON3_PADCFG0,
    );
    let s7 = write16_cmds(Bank::Bank2, Reg16::Maipg, 0x12);
    let s8 = write8_cmds(Bank::Bank2, Reg8::Mabbipg, 0x15);
    let s9 = write16_cmds(Bank::Bank2, Reg16::Mamxfl, crate::ETH_MAX_FRAME_LEN);
    let s10 = phy_write_cmds(Bank::Bank2, crate::regs::PhyRegister::Phlcon, crate::LAMPS_MODE);
    let s11 = phy_write_cmds(
        Bank::Bank3,
        crate::regs::PhyRegister::Phcon1,
        crate::regs::PHCON1_PDPXMD,
    );
    let s12 = phy_write_cmds(Bank::Bank3, crate::regs::PhyRegister::Phcon2, 0);
    assert(init_config_cmds(cur) == s1 + s2 + s3 + s4 + s5 + s6 + s7 + s8 + s9 + s10 + s11 + s12);
    lemma_run_cmds_concat(c, s1 + s2 + s3 + s4 + s5 + s6 + s7 + s8 + s9 + s10 + s11, s12);
    lemma_run_cmds_concat(c, s1 + s2 + s3 + s4 + s5 + s6 + s7 + s8 + s9 + s10, s11);
    lemma_run_cmds_concat(c, s1 + s2 + s3 + s4 + s5 + s6 + s7 + s8 + s9, s10);
    lemma_run_cmds_concat(c, s1 + s2 + s3 + s4 + s5 + s6 + s7 + s8, s9);
    lemma_run_cmds_concat(c, s1 + s2 + s3 + s4 + s5 + s6 + s7, s8);
    lemma_run_cmds_concat(c, s1 + s2 + s3 + s4 + s5 + s6, s7);
    lemma_run_cmds_concat(c, s1 + s2 + s3 + s4 + s5, s6);
    lemma_run_cmds_concat(c, s1 + s2 + s3 + s4, s5);
    lemma_run_cmds_concat(c, s1 + s2 + s3, s4);
    lemma_run_cmds_concat(c, s1 + s2, s3);
    lemma_run_cmds_concat(c, s1, s2);
    let c1 = run_cmds(c, s1);
    lemma_write8_model(c, cur, Reg8::Econ2, crate::regs::ECON2_AUTOINC);
    let c2 = run_cmds(c1, s2);
    lemma_rxfifo_model(c1, cur, crate::RX_START, crate::RX_END);
    let c3 = run_cmds(c2, s3);
    lemma_txfifo_model(c2, Bank::Bank0, crate::TX_START, crate::TX_END);
    let c4 = run_cmds(c3, s4);
    lemma_write8_model(
        c3,
        Bank::Bank0,
        Reg8::Erxfcon,
        crate::regs::ERXFCON_UCEN | crate::regs::ERXFCON_CRCEN | crate::regs::ERXFCON_BCEN,
    );
    let c5 = run_cmds(c4, s5);
    lemma_write8_model(
        c4,
        Bank::Bank1,
        Reg8::Macon1,
        crate::regs::MACON1_MARXEN | crate::regs::MACON1_RXPAUS | crate::regs::MACON1_TXPAUS,
    );
    let c6 = run_cmds(c5, s6);
    lemma_write8_model(
        c5,
        Bank::Bank2,
        Reg8::Macon3,
        crate::regs::MACON3_FULDPX | crate::regs::MACON3_FRMLNEN | crate::regs::MACON3_TXCRCEN
            | crate::regs::MACON3_PADCFG0,
    );
    let c7 = run_cmds(c6, s7);
    lemma_write16_roundtrip(c6, Bank::Bank2, Reg16::Maipg, 0x12);
    let c8 = run_cmds(c7, s8);
    lemma_write8_model(c7, Bank::Bank2, Reg8::Mabbipg, 0x15);
    let c9 = run_cmds(c8, s9);
    lemma_write16_roundtrip(c8, Bank::Bank2, Reg16::Mamxfl, crate::ETH_MAX_FRAME_LEN);
    let c10 = run_cmds(c9, s10);
    lemma_phy_write_model(c9, Bank::Bank2, crate::regs::PhyRegister::Phlcon, crate::LAMPS_MODE);
    let c11 = run_cmds(c10, s11);
    lemma_phy_write_model(
        c10,
        Bank::Bank3,
        crate::regs::PhyRegister::Phcon1,
        crate::regs::PHCON1_PDPXMD,
    );
    lemma_phy_write_model(c11, Bank::Bank3, crate::regs::PhyRegister::Phcon2, 0);
}

/// After the worker's writes run, ETXND marks the frame's last byte and
/// TXRTS is set: the chip is armed. (What the bursts put into buffer memory
/// is outside the register model; the contracts of
/// [`crate::tx::tx_worker_cmds`] pin those bytes instead.)
pub proof fn lemma_tx_worker_model(c: ChipRegs, cur: Bank, frame: Seq<u8>)
    requires
        bank_sel(c) == cur.sel_spec(),
        frame.len() <= crate::ETH_MAX_FRAME_LEN,
    ensures
        ({
            let c2 = run_cmds(c, crate::tx::tx_worker_cmds(cur, frame));
            &&& reg16_val(c2, Reg16::Ewrpt) == crate::TX_START
            &&& reg16_val(c2, Reg16::Etxnd) == (crate::TX_START + frame.len()) as u16
            &&& reg_val(c2, Reg8::Econ1) & crate::regs::ECON1_TXRTS == crate::regs::ECON1_TXRTS
            &&& bank_sel(c2) == Bank::Bank0.sel_spec()
        }),
{
    let nd = (crate::TX_START + frame.len()) as u16;
    let a = write16_cmds(cur, Reg16::Ewrpt, crate::TX_START);
    let b = write16_cmds(Bank::Bank0, Reg16::Etxnd, nd);
    let w0 = crate::cmd::CmdS::Write(crate::spi::wbm_bytes(seq![0u8]));
    let w1 = crate::cmd::CmdS::Write(crate::spi::wbm_bytes(frame));
    let d = bfs8_cmds(Bank::Bank0, Reg8::Econ1, crate::regs::ECON1_TXRTS);
    assert(crate::tx::tx_worker_cmds(cur, frame) == a + b + seq![w0, w1] + d);
    lemma_run_cmds_concat(c, a + b + seq![w0, w1], d);
    lemma_run_cmds_concat(c, a + b, seq![w0, w1]);
    lemma_run_cmds_concat(c, a, b);
    assert(crate::regs::ECON1_TXRTS & 3 == 0) by (bit_vector);
    let c1 = run_cmds(c, a);
    lemma_write16_roundtrip(c, cur, Reg16::Ewrpt, crate::TX_START);
    let c2 = run_cmds(c1, b);
    lemma_write16_roundtrip(c1, Bank::Bank0, Reg16::Etxnd, nd);
    let c3 = run_cmds(c2, seq![w0, w1]);
    lemma_run_two(c2, w0, w1);
    crate::model::lemma_wbm_frame_inert(c2, seq![0u8]);
    crate::model::lemma_wbm_frame_inert(c2, frame);
    assert(c3 == c2);
    let c4 = run_cmds(c3, d);
    lemma_bfs8_model(c3, Bank::Bank0, Reg8::Econ1, crate::regs::ECON1_TXRTS);
    crate::model::lemma_set_bits(reg_val(c3, Reg8::Econ1), crate::regs::ECON1_TXRTS);
    lemma_reg8_key_econ1(Reg8::EwrptL);
    lemma_reg8_key_econ1(Reg8::EwrptH);
    lemma_reg8_key_econ1(Reg8::EtxndL);
    lemma_reg8_key_econ1(Reg8::EtxndH);
}

/// After the TX error recovery runs, the chip is ready for the next frame:
/// TXRTS ends cleared whatever it held (the pulse set it first, per the
/// errata workaround), the TX region pointers are back on the partition, and
/// both completion flags are cleared.
pub proof fn lemma_tx_recover_model(c: ChipRegs, cur: Bank)
    requires
        bank_sel(c) == cur.sel_spec(),
    ensures
        ({
            let c2 = run_cmds(c, crate::tx::tx_recover_cmds(cur));
            &&& reg_val(c2, Reg8::Econ1) & crate::regs::ECON1_TXRTS == 0
            &&& reg16_val(c2, Reg16::Etxst) == crate::TX_START
            &&& reg16_val(c2, Reg16::Etxnd) == crate::TX_END
            &&& reg_val(c2, Reg8::Eir) & (EIR_TXERIF | EIR_TXIF) == 0
            &&& bank_sel(c2) == Bank::Bank0.sel_spec()
        }),
{
    let m = crate::regs::ECON1_TXRTS;
    let s1 = bfs8_cmds(cur, Reg8::Econ1, m);
    let s2 = bfc8_cmds(cur, Reg8::Econ1, m);
    let s3 = txfifo_cmds(cur, crate::TX_START, crate::TX_END);
    let s4 = bfc8_cmds(Bank::Bank0, Reg8::Eir, EIR_TXERIF | EIR_TXIF);
    assert(crate::tx::tx_recover_cmds(cur) == s1 + s2 + s3 + s4);
    lemma_run_cmds_concat(c, s1 + s2 + s3, s4);
    lemma_run_cmds_concat(c, s1 + s2, s3);
    lemma_run_cmds_concat(c, s1, s2);
    assert(crate::regs::ECON1_TXRTS & 3 == 0) by (bit_vector);
    let c1 = run_cmds(c, s1);
    lemma_bfs8_model(c, cur, Reg8::Econ1, m);
    let c2 = run_cmds(c1, s2);
    lemma_bfc8_model(c1, cur, Reg8::Econ1, m);
    crate::model::lemma_clear_bits(reg_val(c1, Reg8::Econ1), m);
    assert(reg_val(c2, Reg8::Econ1) & m == 0);
    let c3 = run_cmds(c2, s3);
    lemma_txfifo_model(c2, cur, crate::TX_START, crate::TX_END);
    assert(reg8_key(Reg8::Econ1) == econ1_key());
    crate::model::lemma_high_bits_agree(
        c3.regs[econ1_key()],
        c2.regs[econ1_key()],
        m,
    );
    let c4 = run_cmds(c3, s4);
    lemma_bfc8_model(c3, Bank::Bank0, Reg8::Eir, EIR_TXERIF | EIR_TXIF);
    crate::model::lemma_high_bits_agree(
        c4.regs[econ1_key()],
        c3.regs[econ1_key()],
        m,
    );
    crate::model::lemma_clear_bits(reg_val(c3, Reg8::Eir), EIR_TXERIF | EIR_TXIF);
    lemma_reg8_key_econ1(Reg8::EtxstL);
    lemma_reg8_key_econ1(Reg8::EtxstH);
    lemma_reg8_key_econ1(Reg8::EtxndL);
    lemma_reg8_key_econ1(Reg8::EtxndH);
}

/// After the enable sequence runs, the chip has every interrupt source
/// enabled, no stale flag pending, and receive on.
pub proof fn lemma_enable_model(c: ChipRegs, cur: Bank)
    requires
        bank_sel(c) == cur.sel_spec(),
    ensures
        ({
            let c2 = run_cmds(c, crate::lifecycle::enable_cmds(cur));
            &&& reg_val(c2, Reg8::Eie) == (crate::regs::EIE_INTIE | crate::regs::EIE_PKTIE
                | crate::regs::EIE_LINKIE | crate::regs::EIE_TXIE | crate::regs::EIE_TXERIE
                | crate::regs::EIE_RXERIE)
            &&& reg_val(c2, Reg8::Eir) & (EIR_DMAIF | EIR_LINKIF | EIR_TXIF | EIR_TXERIF
                | EIR_RXERIF | crate::regs::EIR_PKTIF) == 0
            &&& reg_val(c2, Reg8::Econ1) & crate::regs::ECON1_RXEN == crate::regs::ECON1_RXEN
            &&& bank_sel(c2) == Bank::Bank3.sel_spec()
        }),
{
    let flags = EIR_DMAIF | EIR_LINKIF | EIR_TXIF | EIR_TXERIF | EIR_RXERIF
        | crate::regs::EIR_PKTIF;
    let sources = crate::regs::EIE_INTIE | crate::regs::EIE_PKTIE | crate::regs::EIE_LINKIE
        | crate::regs::EIE_TXIE | crate::regs::EIE_TXERIE | crate::regs::EIE_RXERIE;
    let s1 = phy_write_cmds(cur, crate::regs::PhyRegister::Phie, crate::regs::PHIE_PGEIE
        | crate::regs::PHIE_PLNKIE);
    let s2 = bfc8_cmds(Bank::Bank3, Reg8::Eir, flags);
    let s3 = write8_cmds(Bank::Bank3, Reg8::Eie, sources);
    let s4 = bfs8_cmds(Bank::Bank3, Reg8::Econ1, crate::regs::ECON1_RXEN);
    assert(crate::lifecycle::enable_cmds(cur) == s1 + s2 + s3 + s4);
    lemma_run_cmds_concat(c, s1 + s2 + s3, s4);
    lemma_run_cmds_concat(c, s1 + s2, s3);
    lemma_run_cmds_concat(c, s1, s2);
    assert(crate::regs::ECON1_RXEN & 3 == 0) by (bit_vector);
    let c1 = run_cmds(c, s1);
    lemma_phy_write_model(c, cur, crate::regs::PhyRegister::Phie, crate::regs::PHIE_PGEIE
        | crate::regs::PHIE_PLNKIE);
    let c2 = run_cmds(c1, s2);
    lemma_bfc8_model(c1, Bank::Bank3, Reg8::Eir, flags);
    crate::model::lemma_clear_bits(reg_val(c1, Reg8::Eir), flags);
    let c3 = run_cmds(c2, s3);
    lemma_write8_model(c2, Bank::Bank3, Reg8::Eie, sources);
    let c4 = run_cmds(c3, s4);
    lemma_bfs8_model(c3, Bank::Bank3, Reg8::Econ1, crate::regs::ECON1_RXEN);
    crate::model::lemma_set_bits(reg_val(c3, Reg8::Econ1), crate::regs::ECON1_RXEN);
    lemma_reg8_key_econ1(Reg8::Eir);
    lemma_reg8_key_econ1(Reg8::Eie);
}

/// After the disable sequence runs, every interrupt source is masked and
/// receive is off.
pub proof fn lemma_disable_model(c: ChipRegs, cur: Bank)
    requires
        bank_sel(c) == cur.sel_spec(),
    ensures
        ({
            let c2 = run_cmds(c, crate::lifecycle::disable_cmds(cur));
            &&& reg_val(c2, Reg8::Eie) == 0
            &&& reg_val(c2, Reg8::Econ1) & crate::regs::ECON1_RXEN == 0
            &&& bank_sel(c2) == cur.sel_spec()
        }),
{
    let s1 = write8_cmds(cur, Reg8::Eie, 0);
    let s2 = bfc8_cmds(cur, Reg8::Econ1, crate::regs::ECON1_RXEN);
    assert(crate::lifecycle::disable_cmds(cur) == s1 + s2);
    lemma_run_cmds_concat(c, s1, s2);
    assert(crate::regs::ECON1_RXEN & 3 == 0) by (bit_vector);
    let c1 = run_cmds(c, s1);
    lemma_write8_model(c, cur, Reg8::Eie, 0);
    let c2 = run_cmds(c1, s2);
    lemma_bfc8_model(c1, cur, Reg8::Econ1, crate::regs::ECON1_RXEN);
    crate::model::lemma_clear_bits(reg_val(c1, Reg8::Econ1), crate::regs::ECON1_RXEN);
    lemma_reg8_key_econ1(Reg8::Eie);
}

/// The reset prologue ends with ECON1 cleared: the chip selects bank 0, which
/// is exactly what the driver caches after [`Driver::init_begin`].
pub proof fn lemma_init_begin_model(c: ChipRegs)
    ensures
        reg_val(run_cmds(c, init_begin_cmds()), Reg8::Econ1) == 0,
        bank_sel(run_cmds(c, init_begin_cmds())) == Bank::Bank0.sel_spec(),
{
    let cmds = init_begin_cmds();
    let x = crate::cmd::CmdS::Write(seq![crate::spi::SRC_OPCODE]);
    let y = crate::cmd::CmdS::SleepMs(2);
    let z = crate::cmd::CmdS::Write(wcr_bytes(Reg8::Econ1.addr_spec(), 0));
    assert(cmds == seq![x, y, z]);
    lemma_run_three(c, x, y, z);
    let c1 = apply_cmd(c, x);
    let c2 = apply_cmd(c1, y);
    assert(c1 == c);
    assert(c2 == c1);
    lemma_apply_wcr(c2, Reg8::Econ1, 0);
    assert(reg8_key(Reg8::Econ1) == econ1_key());
    let c3 = apply_cmd(c2, z);
    assert(c3.regs[econ1_key()] == 0);
    assert(0u8 & 3 == 0) by (bit_vector);
}

/// One register access: what the facade emits between two reads of the bus.
pub enum Access {
    Write8(Reg8, u8),
    BitSet(Reg8, u8),
    BitClear(Reg8, u8),
    Write16(Reg16, u16),
    Read8(Reg8),
    Read16(Reg16),
}

/// The accesses the driver makes: ECON1 is never written whole (only the
/// reset prologue does that, recalibrating the cache), and bit-field
/// operations stand only on ETH registers, with masks that leave ECON1's
/// bank-select bits to the bank controller.
pub open spec fn access_wf(a: Access) -> bool {
    match a {
        Access::Write8(r, _) => r != Reg8::Econ1,
        Access::BitSet(r, m) => r.is_eth_spec() && (r == Reg8::Econ1 ==> m & 3 == 0),
        Access::BitClear(r, m) => r.is_eth_spec() && (r == Reg8::Econ1 ==> m & 3 == 0),
        Access::Write16(_, _) => true,
        Access::Read8(_) => true,
        Access::Read16(_) => true,
    }
}

/// The bank an access aims at.
pub open spec fn access_target(a: Access) -> Option<Bank> {
    match a {
        Access::Write8(r, _) => r.bank_spec(),
        Access::BitSet(r, _) => r.bank_spec(),
        Access::BitClear(r, _) => r.bank_spec(),
        Access::Write16(r, _) => r.bank_spec(),
        Access::Read8(r) => r.bank_spec(),
        Access::Read16(r) => r.bank_spec(),
    }
}

/// The commands one access emits from cached bank `cur`.
pub open spec fn access_cmds(cur: Bank, a: Access) -> Seq<crate::cmd::CmdS> {
    match a {
        Access::Write8(r, v) => write8_cmds(cur, r, v),
        Access::BitSet(r, m) => bfs8_cmds(cur, r, m),
        Access::BitClear(r, m) => bfc8_cmds(cur, r, m),
        Access::Write16(r, v) => write16_cmds(cur, r, v),
        Access::Read8(r) => bank_cmds(cur, r.bank_spec()),
        Access::Read16(r) => bank_cmds(cur, r.bank_spec()),
    }
}

/// The cached bank after a whole access sequence.
pub open spec fn cached_after(cur: Bank, s: Seq<Access>) -> Bank
    decreases s.len(),
{
    if s.len() == 0 {
        cur
    } else {
        cached_after(bank_after(cur, access_target(s[0])), s.drop_first())
    }
}

/// The commands a whole access sequence emits.
pub open spec fn accesses_cmds(cur: Bank, s: Seq<Access>) -> Seq<crate::cmd::CmdS>
    decreases s.len(),
{
    if s.len() == 0 {
        seq![]
    } else {
        access_cmds(cur, s[0]) + accesses_cmds(
            bank_after(cur, access_target(s[0])),
            s.drop_first(),
        )
    }
}

/// Bank-cache correctness: after any sequence of register accesses, run on a
/// chip whose selected bank agreed with the cache at the start, the chip's
/// selected bank equals the cache again.
pub proof fn lemma_bank_cache_invariant(c: ChipRegs, cur: Bank, s: Seq<Access>)
    requires
        bank_sel(c) == cur.sel_spec(),
        forall|i: int| 0 <= i < s.len() ==> #[trigger] access_wf(s[i]),
    ensures
        bank_sel(run_cmds(c, accesses_cmds(cur, s))) == cached_after(cur, s).sel_spec(),
    decreases s.len(),
{
    if s.len() == 0 {
    } else {
        let a = s[0];
        let head = access_cmds(cur, a);
        let cur1 = bank_after(cur, access_target(a));
        let rest = s.drop_first();
        lemma_run_cmds_concat(c, head, accesses_cmds(cur1, rest));
        let c1 = run_cmds(c, head);
        assert(access_wf(a));
        match a {
            Access::Write8(r, v) => {
                lemma_write8_model(c, cur, r, v);
            },
            Access::BitSet(r, m) => {
                lemma_bfs8_model(c, cur, r, m);
            },
            Access::BitClear(r, m) => {
                lemma_bfc8_model(c, cur, r, m);
            },
            Access::Write16(r, v) => {
                lemma_write16_roundtrip(c, cur, r, v);
            },
            Access::Read8(r) => {
                lemma_bank_switch(c, cur, r.bank_spec());
            },
            Access::Read16(r) => {
                lemma_bank_switch(c, cur, r.bank_spec());
            },
        }
        assert(bank_sel(c1) == cur1.sel_spec());
        assert(forall|i: int| 0 <= i < rest.len() ==> #[trigger] access_wf(rest[i])) by {
            assert(forall|i: int| 0 <= i < rest.len() ==> rest[i] == s[i + 1]);
        }
        lemma_bank_cache_invariant(c1, cur1, rest);
    }
}

/// After the MAC-address writes run, the six MAADR registers hold the
/// address in IEEE order: MAADR1 its first byte, MAADR6 its last.
pub proof fn lemma_set_mac_model(c: ChipRegs, cur: Bank, mac: Seq<u8>)
    requires
        bank_sel(c) == cur.sel_spec(),
        mac.len() == 6,
    ensures
        ({
            let c2 = run_cmds(c, crate::lifecycle::set_mac_cmds(cur, mac));
            &&& reg_val(c2, Reg8::Maadr1) == mac[0]
            &&& reg_val(c2, Reg8::Maadr2) == mac[1]
            &&& reg_val(c2, Reg8::Maadr3) == mac[2]
            &&& reg_val(c2, Reg8::Maadr4) == mac[3]
            &&& reg_val(c2, Reg8::Maadr5) == mac[4]
            &&& reg_val(c2, Reg8::Maadr6) == mac[5]
            &&& bank_sel(c2) == Bank::Bank3.sel_spec()
        }),
{
    let s1 = write8_cmds(cur, Reg8::Maadr1, mac[0]);
    let s2 = write8_cmds(Bank::Bank3, Reg8::Maadr2, mac[1]);
    let s3 = write8_cmds(Bank::Bank3, Reg8::Maadr3, mac[2]);
    let s4 = write8_cmds(Bank::Bank3, Reg8::Maadr4, mac[3]);
    let s5 = write8_cmds(Bank::Bank3, Reg8::Maadr5, mac[4]);
    let s6 = write8_cmds(Bank::Bank3, Reg8::Maadr6, mac[5]);
    assert(crate::lifecycle::set_mac_cmds(cur, mac) == s1 + s2 + s3 + s4 + s5 + s6);
    lemma_run_cmds_concat(c, s1 + s2 + s3 + s4 + s5, s6);
    lemma_run_cmds_concat(c, s1 + s2 + s3 + s4, s5);
    lemma_run_cmds_concat(c, s1 + s2 + s3, s4);
    lemma_run_cmds_concat(c, s1 + s2, s3);
    lemma_run_cmds_concat(c, s1, s2);
    let c1 = run_cmds(c, s1);
    lemma_write8_model(c, cur, Reg8::Maadr1, mac[0]);
    let c2 = run_cmds(c1, s2);
    lemma_write8_model(c1, Bank::Bank3, Reg8::Maadr2, mac[1]);
    let c3 = run_cmds(c2, s3);
    lemma_write8_model(c2, Bank::Bank3, Reg8::Maadr3, mac[2]);
    let c4 = run_cmds(c3, s4);
    lemma_write8_model(c3, Bank::Bank3, Reg8::Maadr4, mac[3]);
    let c5 = run_cmds(c4, s5);
    lemma_write8_model(c4, Bank::Bank3, Reg8::Maadr5, mac[4]);
    lemma_write8_model(c5, Bank::Bank3, Reg8::Maadr6, mac[5]);
}

/// Interrupt handling runs with EIE.INTIE cleared: the entry bracket clears
/// it, whatever else EIE holds.
pub proof fn lemma_irq_begin_model(c: ChipRegs, cur: Bank)
    requires
        bank_sel(c) == cur.sel_spec(),
    ensures
        ({
            let c2 = run_cmds(c, bfc8_cmds(cur, Reg8::Eie, crate::regs::EIE_INTIE));
            &&& reg_val(c2, Reg8::Eie) & crate::regs::EIE_INTIE == 0
            &&& bank_sel(c2) == cur.sel_spec()
        }),
{
    lemma_bfc8_model(c, cur, Reg8::Eie, crate::regs::EIE_INTIE);
    crate::model::lemma_clear_bits(reg_val(c, Reg8::Eie), crate::regs::EIE_INTIE);
}

/// The exit bracket restores EIE.INTIE, success or failure, so the next edge
/// is taken again.
pub proof fn lemma_irq_end_model(c: ChipRegs, cur: Bank)
    requires
        bank_sel(c) == cur.sel_spec(),
    ensures
        ({
            let c2 = run_cmds(c, bfs8_cmds(cur, Reg8::Eie, crate::regs::EIE_INTIE));
            &&& reg_val(c2, Reg8::Eie) & crate::regs::EIE_INTIE == crate::regs::EIE_INTIE
            &&& bank_sel(c2) == cur.sel_spec()
        }),
{
    lemma_bfs8_model(c, cur, Reg8::Eie, crate::regs::EIE_INTIE);
    crate::model::lemma_set_bits(reg_val(c, Reg8::Eie), crate::regs::EIE_INTIE);
}

/// The ERXRDPT erratum workaround stays inside the RX FIFO and never equals
/// the packet boundary it stands in for.
pub proof fn lemma_erxrdpt_workaround_in_fifo(p: u16)
    requires
        p <= RX_END,
    ensures
        RX_START <= erxrdpt_workaround_spec(p, RX_START, RX_END) <= RX_END,
        erxrdpt_workaround_spec(p, RX_START, RX_END) != p,
{
}

/// The payload start computed from a packet pointer inside the RX FIFO lies
/// inside the RX FIFO.
pub proof fn lemma_next_rx_start_in_fifo(p: u16)
    requires
        p <= RX_END,
    ensures
        RX_START <= next_rx_start_ptr_spec(p) <= RX_END,
{
}

/// At most one transmission is in flight: whenever a frame is parked, the
/// host TX queue is stopped, so no second frame can be handed in.
pub proof fn lemma_single_transmission_in_flight(d: Driver)
    requires
        d.wf(),
        d.tx_pending,
    ensures
        d.queue_stopped,
{
}

/// The interrupt drain loop stops exactly when no dispatched EIR flag is set
/// and no packet is pending.
pub proof fn lemma_irq_drain_exit(eir: u8, epktcnt: u8)
    ensures
        !irq_progress(eir, epktcnt) <==> (eir & (EIR_DMAIF | EIR_LINKIF | EIR_TXIF | EIR_TXERIF
            | EIR_RXERIF) == 0 && epktcnt == 0),
{
    assert((eir & EIR_DMAIF != 0 || eir & EIR_LINKIF != 0 || (eir & EIR_TXIF != 0 && eir
        & EIR_TXERIF == 0) || eir & EIR_TXERIF != 0 || eir & EIR_RXERIF != 0) <==> eir & (EIR_DMAIF
        | EIR_LINKIF | EIR_TXIF | EIR_TXERIF | EIR_RXERIF) != 0) by (bit_vector);
}

} // verus!
