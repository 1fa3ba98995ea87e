//! Specification-level model of the chip's control-register file.
//!
//! The model assigns every register a cell: common registers (addresses
//! 0x1B..=0x1F) one cell each, banked registers one cell per bank and
//! address. A write frame is interpreted exactly as the chip decodes it: the
//! top three bits of the opcode byte pick the operation, the low five the
//! address, and the bank-select bits of ECON1 pick the bank — so a write to
//! ECON1 itself moves the bank, as on the hardware.
//!
//! The model covers control-register traffic. Buffer memory, the PHY behind
//! the MII registers, and the reset command are outside it: frames other than
//! two-byte WCR/BFS/BFC transactions leave the modelled state unchanged, and
//! reads never change it.

use vstd::prelude::*;

use crate::cmd::CmdS;
use crate::regs::{Reg16, Reg8};
use crate::spi::{bfc_bytes, bfs_bytes, wcr_bytes};

verus! {

/// The chip's register file: one byte per cell.
pub struct ChipRegs {
    pub regs: Map<int, u8>,
}

/// The cell of ECON1, whose two low bits select the bank.
pub open spec fn econ1_key() -> int {
    0x1f
}

/// The bank the chip has selected: the two low bits of ECON1.
pub open spec fn bank_sel(c: ChipRegs) -> u8 {
    c.regs[econ1_key()] & 3
}

/// The cell a five-bit address reaches when `bank` is selected: common
/// registers sit at their address in every bank, banked ones in a window of
/// their own.
pub open spec fn cell_key(bank: int, addr: u8) -> int {
    if addr >= 0x1b {
        addr as int
    } else {
        bank * 0x20 + addr as int
    }
}

/// The cell of a cataloged register.
pub open spec fn reg8_key(r: Reg8) -> int {
    match r.bank_spec() {
        None => r.addr_spec() as int,
        Some(b) => b.sel_spec() as int * 0x20 + r.addr_spec() as int,
    }
}

/// The value a cataloged register holds.
pub open spec fn reg_val(c: ChipRegs, r: Reg8) -> u8 {
    c.regs[reg8_key(r)]
}

/// A 16-bit value from its two bytes: `(high << 8) | low`.
pub open spec fn combine16(lo: u8, hi: u8) -> u16 {
    ((hi as u16) << 8) | (lo as u16)
}

/// The value a 16-bit register pair holds.
pub open spec fn reg16_val(c: ChipRegs, r: Reg16) -> u16 {
    combine16(reg_val(c, r.low_spec()), reg_val(c, r.high_spec()))
}

/// One write frame, decoded as the chip decodes it.
pub open spec fn apply_frame(c: ChipRegs, tx: Seq<u8>) -> ChipRegs {
    if tx.len() == 2 {
        let op = tx[0] >> 5;
        let addr = tx[0] & 0x1f;
        let k = cell_key(bank_sel(c) as int, addr);
        if op == 2 {
            ChipRegs { regs: c.regs.insert(k, tx[1]) }
        } else if op == 4 {
            ChipRegs { regs: c.regs.insert(k, c.regs[k] | tx[1]) }
        } else if op == 5 {
            ChipRegs { regs: c.regs.insert(k, c.regs[k] & !tx[1]) }
        } else {
            c
        }
    } else {
        c
    }
}

/// A buffer-memory write burst does not touch the control registers: its
/// opcode byte decodes to none of the register operations.
pub proof fn lemma_wbm_frame_inert(c: ChipRegs, payload: Seq<u8>)
    ensures
        apply_frame(c, crate::spi::wbm_bytes(payload)) == c,
{
    let tx = crate::spi::wbm_bytes(payload);
    if tx.len() == 2 {
        assert(crate::spi::WBM_OPCODE >> 5 == 3) by (bit_vector);
    }
}

/// One command: only a write frame can change the register file.
pub open spec fn apply_cmd(c: ChipRegs, cmd: CmdS) -> ChipRegs {
    match cmd {
        CmdS::Write(tx) => apply_frame(c, tx),
        CmdS::SleepMs(_) => c,
        CmdS::Poll(_) => c,
    }
}

/// A command sequence, run front to back.
pub open spec fn run_cmds(c: ChipRegs, cmds: Seq<CmdS>) -> ChipRegs
    decreases cmds.len(),
{
    if cmds.len() == 0 {
        c
    } else {
        run_cmds(apply_cmd(c, cmds[0]), cmds.drop_first())
    }
}

/// Running a single command is applying it.
pub proof fn lemma_run_one(c: ChipRegs, x: CmdS)
    ensures
        run_cmds(c, seq![x]) == apply_cmd(c, x),
{
    assert(seq![x].drop_first() =~= Seq::<CmdS>::empty());
    assert(run_cmds(apply_cmd(c, x), Seq::<CmdS>::empty()) == apply_cmd(c, x));
}

/// Running two commands is applying them in order.
pub proof fn lemma_run_two(c: ChipRegs, x: CmdS, y: CmdS)
    ensures
        run_cmds(c, seq![x, y]) == apply_cmd(apply_cmd(c, x), y),
{
    assert(seq![x, y].drop_first() =~= seq![y]);
    lemma_run_one(apply_cmd(c, x), y);
    assert(run_cmds(c, seq![x, y]) == run_cmds(apply_cmd(c, x), seq![x, y].drop_first()));
}

/// Running three commands is applying them in order.
pub proof fn lemma_run_three(c: ChipRegs, x: CmdS, y: CmdS, z: CmdS)
    ensures
        run_cmds(c, seq![x, y, z]) == apply_cmd(apply_cmd(apply_cmd(c, x), y), z),
{
    assert(seq![x, y, z].drop_first() =~= seq![y, z]);
    lemma_run_two(apply_cmd(c, x), y, z);
    assert(run_cmds(c, seq![x, y, z]) == run_cmds(apply_cmd(c, x), seq![x, y, z].drop_first()));
}

/// Running a concatenation is running the parts in order.
pub proof fn lemma_run_cmds_concat(c: ChipRegs, a: Seq<CmdS>, b: Seq<CmdS>)
    ensures
        run_cmds(c, a + b) == run_cmds(run_cmds(c, a), b),
    decreases a.len(),
{
    if a.len() == 0 {
        assert(a + b =~= b);
    } else {
        assert((a + b).drop_first() =~= a.drop_first() + b);
        lemma_run_cmds_concat(apply_cmd(c, a[0]), a.drop_first(), b);
    }
}

/// A WCR opcode byte decodes back to operation 010 and its address.
pub proof fn lemma_wcr_opcode(addr: u8)
    by (bit_vector)
    requires
        addr < 0x20,
    ensures
        (0x40u8 | addr) >> 5 == 2,
        (0x40u8 | addr) & 0x1f == addr,
{
}

/// A BFS opcode byte decodes back to operation 100 and its address.
pub proof fn lemma_bfs_opcode(addr: u8)
    by (bit_vector)
    requires
        addr < 0x20,
    ensures
        (0x80u8 | addr) >> 5 == 4,
        (0x80u8 | addr) & 0x1f == addr,
{
}

/// A BFC opcode byte decodes back to operation 101 and its address.
pub proof fn lemma_bfc_opcode(addr: u8)
    by (bit_vector)
    requires
        addr < 0x20,
    ensures
        (0xa0u8 | addr) >> 5 == 5,
        (0xa0u8 | addr) & 0x1f == addr,
{
}

/// Clearing both bank-select bits zeroes the selection; setting a two-bit
/// value then selects exactly that bank, whatever was there before — and the
/// six high bits of ECON1 come through the pair untouched.
pub proof fn lemma_bsel_bits(v: u8, b: u8)
    by (bit_vector)
    requires
        b < 4,
    ensures
        (v & !3u8) & 3 == 0,
        ((v & !3u8) | b) & 3 == b,
        ((v & !3u8) | b) & 0xfcu8 == v & 0xfcu8,
        v & 3 < 4,
{
}

/// A bit-field operation whose mask avoids the bank-select bits leaves the
/// selection alone.
pub proof fn lemma_mask_keeps_bsel(v: u8, m: u8)
    by (bit_vector)
    requires
        m & 3 == 0,
    ensures
        (v | m) & 3 == v & 3,
        (v & !m) & 3 == v & 3,
{
}

/// Clearing bits under a mask leaves nothing under that mask.
pub proof fn lemma_clear_bits(x: u8, m: u8)
    by (bit_vector)
    ensures
        (x & !m) & m == 0,
{
}

/// Setting bits under a mask leaves everything under that mask set.
pub proof fn lemma_set_bits(x: u8, m: u8)
    by (bit_vector)
    ensures
        (x | m) & m == m,
{
}

/// Two values equal on the six high bits agree under any mask off the two
/// low bits.
pub proof fn lemma_high_bits_agree(a: u8, b: u8, m: u8)
    by (bit_vector)
    requires
        a & 0xfc == b & 0xfc,
        m & 3 == 0,
    ensures
        a & m == b & m,
{
}

/// The two bytes a 16-bit write splits a value into compose back to it.
pub proof fn lemma_combine_split(v: u16)
    by (bit_vector)
    ensures
        combine16(v as u8, (v >> 8) as u8) == v,
{
}

/// The key of a cataloged register is ECON1's only for ECON1 itself.
pub proof fn lemma_reg8_key_econ1(r: Reg8)
    ensures
        reg8_key(r) == econ1_key() <==> r == Reg8::Econ1,
{
    crate::regs::lemma_reg8_addr(r);
}

/// When the selected bank matches the register's bank (or the register is
/// common), a WCR frame on it writes its cell and nothing else.
pub proof fn lemma_apply_wcr(c: ChipRegs, r: Reg8, v: u8)
    requires
        r.bank_spec() is Some ==> bank_sel(c) == r.bank_spec().unwrap().sel_spec(),
    ensures
        apply_frame(c, wcr_bytes(r.addr_spec(), v)).regs == c.regs.insert(reg8_key(r), v),
{
    crate::regs::lemma_reg8_addr(r);
    lemma_wcr_opcode(r.addr_spec());
}

/// When the selected bank matches, a BFS frame ors the mask into its cell and
/// changes nothing else.
pub proof fn lemma_apply_bfs(c: ChipRegs, r: Reg8, mask: u8)
    requires
        r.bank_spec() is Some ==> bank_sel(c) == r.bank_spec().unwrap().sel_spec(),
    ensures
        apply_frame(c, bfs_bytes(r.addr_spec(), mask)).regs == c.regs.insert(
            reg8_key(r),
            c.regs[reg8_key(r)] | mask,
        ),
{
    crate::regs::lemma_reg8_addr(r);
    lemma_bfs_opcode(r.addr_spec());
}

/// When the selected bank matches, a BFC frame clears the mask's bits in its
/// cell and changes nothing else.
pub proof fn lemma_apply_bfc(c: ChipRegs, r: Reg8, mask: u8)
    requires
        r.bank_spec() is Some ==> bank_sel(c) == r.bank_spec().unwrap().sel_spec(),
    ensures
        apply_frame(c, bfc_bytes(r.addr_spec(), mask)).regs == c.regs.insert(
            reg8_key(r),
            c.regs[reg8_key(r)] & !mask,
        ),
{
    crate::regs::lemma_reg8_addr(r);
    lemma_bfc_opcode(r.addr_spec());
}

} // verus!
