//! SPI command layer: the seven opcodes of the chip, encoded bit-exactly.
//!
//! A control-register opcode byte is the three-bit operation in its top bits
//! and the five-bit register address below: RCR = 000, WCR = 010, BFS = 100,
//! BFC = 101. Buffer-memory access and reset are fixed single bytes.

use vstd::prelude::*;

use crate::cmd::Xfer;
use crate::regs::Reg8;

verus! {

/// Read Buffer Memory: fixed opcode byte.
pub const RBM_OPCODE: u8 = 0x3a;

/// Write Buffer Memory: fixed opcode byte.
pub const WBM_OPCODE: u8 = 0x7a;

/// System Reset Command: fixed opcode byte.
pub const SRC_OPCODE: u8 = 0xff;

/// Read Control Register opcode byte: operation 000 over the address.
pub open spec fn rcr_byte(addr: u8) -> u8 {
    addr
}

/// Write Control Register opcode byte: operation 010 over the address.
pub open spec fn wcr_byte(addr: u8) -> u8 {
    0x40u8 | addr
}

/// Bit Field Set opcode byte: operation 100 over the address.
pub open spec fn bfs_byte(addr: u8) -> u8 {
    0x80u8 | addr
}

/// Bit Field Clear opcode byte: operation 101 over the address.
pub open spec fn bfc_byte(addr: u8) -> u8 {
    0xa0u8 | addr
}

/// The write frame of a WCR: opcode byte, then the data byte.
pub open spec fn wcr_bytes(addr: u8, v: u8) -> Seq<u8> {
    seq![wcr_byte(addr), v]
}

/// The write frame of a BFS: opcode byte, then the mask.
pub open spec fn bfs_bytes(addr: u8, mask: u8) -> Seq<u8> {
    seq![bfs_byte(addr), mask]
}

/// The write frame of a BFC: opcode byte, then the mask.
pub open spec fn bfc_bytes(addr: u8, mask: u8) -> Seq<u8> {
    seq![bfc_byte(addr), mask]
}

/// The write frame of a WBM: the opcode, then the payload, assembled as one
/// transaction so the chip streams it into buffer memory in a single burst.
pub open spec fn wbm_bytes(payload: Seq<u8>) -> Seq<u8> {
    seq![WBM_OPCODE] + payload
}

/// How many bytes an RCR on this register must read: an ETH register answers
/// at once, a MAC or MII register emits a dummy byte first.
pub open spec fn rcr_rx_len(r: Reg8) -> int {
    if r.is_eth_spec() {
        1
    } else {
        2
    }
}

/// Builds the WCR frame for one register.
pub fn wcr_frame(r: Reg8, v: u8) -> (tx: Vec<u8>)
    ensures
        tx@ == wcr_bytes(r.addr_spec(), v),
{
    let mut tx: Vec<u8> = Vec::new();
    tx.push(0x40u8 | r.addr());
    tx.push(v);
    proof {
        assert(tx@ =~= wcr_bytes(r.addr_spec(), v));
    }
    tx
}

/// Builds the BFS frame for one register.
///
/// The datasheet allows BFS only on ETH registers.
pub fn bfs_frame(r: Reg8, mask: u8) -> (tx: Vec<u8>)
    requires
        r.is_eth_spec(),
    ensures
        tx@ == bfs_bytes(r.addr_spec(), mask),
{
    let mut tx: Vec<u8> = Vec::new();
    tx.push(0x80u8 | r.addr());
    tx.push(mask);
    proof {
        assert(tx@ =~= bfs_bytes(r.addr_spec(), mask));
    }
    tx
}

/// Builds the BFC frame for one register.
///
/// The datasheet allows BFC only on ETH registers.
pub fn bfc_frame(r: Reg8, mask: u8) -> (tx: Vec<u8>)
    requires
        r.is_eth_spec(),
    ensures
        tx@ == bfc_bytes(r.addr_spec(), mask),
{
    let mut tx: Vec<u8> = Vec::new();
    tx.push(0xa0u8 | r.addr());
    tx.push(mask);
    proof {
        assert(tx@ =~= bfc_bytes(r.addr_spec(), mask));
    }
    tx
}

/// Builds the RCR transfer for one register: write the opcode byte, read one
/// byte for an ETH register and two for a MAC or MII register.
pub fn rcr_xfer(r: Reg8) -> (x: Xfer)
    ensures
        x.tx@ == seq![rcr_byte(r.addr_spec())],
        x.rx_len == rcr_rx_len(r),
{
    let mut tx: Vec<u8> = Vec::new();
    tx.push(r.addr());
    proof {
        assert(tx@ =~= seq![rcr_byte(r.addr_spec())]);
    }
    let rx_len: usize = if r.is_eth() {
        1
    } else {
        2
    };
    Xfer { tx, rx_len }
}

/// Recovers the register value from the bytes an RCR transfer read: the last
/// byte, which skips the dummy prefix of a MAC or MII read.
pub fn rcr_decode(r: Reg8, rx: &Vec<u8>) -> (v: u8)
    requires
        rx@.len() == rcr_rx_len(r),
    ensures
        v == rx@.last(),
{
    rx[rx.len() - 1]
}

/// Builds the RBM transfer: write the opcode byte, then stream `len` bytes
/// out of buffer memory at the read pointer.
pub fn rbm_xfer(len: usize) -> (x: Xfer)
    ensures
        x.tx@ == seq![RBM_OPCODE],
        x.rx_len == len,
{
    let mut tx: Vec<u8> = Vec::new();
    tx.push(RBM_OPCODE);
    proof {
        assert(tx@ =~= seq![RBM_OPCODE]);
    }
    Xfer { tx, rx_len: len }
}

/// Assembles the WBM frame: the opcode prefixed to the payload, one
/// transaction for the whole burst.
pub fn wbm_frame(payload: &Vec<u8>) -> (tx: Vec<u8>)
    ensures
        tx@ == wbm_bytes(payload@),
{
    let mut tx: Vec<u8> = Vec::new();
    tx.push(WBM_OPCODE);
    let mut i: usize = 0;
    while i < payload.len()
        invariant
            i <= payload@.len(),
            tx@ == seq![WBM_OPCODE] + payload@.subrange(0, i as int),
        decreases payload@.len() - i,
    {
        tx.push(payload[i]);
        i = i + 1;
        proof {
            assert(tx@ =~= seq![WBM_OPCODE] + payload@.subrange(0, i as int));
        }
    }
    proof {
        assert(payload@.subrange(0, payload@.len() as int) =~= payload@);
    }
    tx
}

/// Builds the one-byte System Reset Command frame. The caller must sleep at
/// least two milliseconds before the next access.
pub fn src_frame() -> (tx: Vec<u8>)
    ensures
        tx@ == seq![SRC_OPCODE],
{
    let mut tx: Vec<u8> = Vec::new();
    tx.push(SRC_OPCODE);
    proof {
        assert(tx@ =~= seq![SRC_OPCODE]);
    }
    tx
}

} // verus!
