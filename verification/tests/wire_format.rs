//! Bit-exact checks of the SPI command layer.

use enc28j60::cmd::Cmd;
use enc28j60::driver::read_u16_decode;
use enc28j60::regs::{Reg16, Reg8};
use enc28j60::spi::{
    bfc_frame, bfs_frame, rbm_xfer, rcr_decode, rcr_xfer, src_frame, wbm_frame, wcr_frame,
};

fn write_frame(c: &Cmd) -> &Vec<u8> {
    match c {
        Cmd::Write(tx) => tx,
        _ => panic!("expected a write frame"),
    }
}

#[test]
fn wcr_opcode_is_010_over_address() {
    // ECON1 sits at address 0x1F; WCR = 0b010 in the top three bits.
    assert_eq!(wcr_frame(Reg8::Econ1, 0xab), vec![0x5f, 0xab]);
    assert_eq!(wcr_frame(Reg8::ErdptL, 0x00), vec![0x40, 0x00]);
    assert_eq!(wcr_frame(Reg8::Miregadr, 0x14), vec![0x54, 0x14]);
}

#[test]
fn bfs_opcode_is_100_over_address() {
    assert_eq!(bfs_frame(Reg8::Econ1, 0x08), vec![0x9f, 0x08]);
    assert_eq!(bfs_frame(Reg8::Econ2, 0x40), vec![0x9e, 0x40]);
}

#[test]
fn bfc_opcode_is_101_over_address() {
    assert_eq!(bfc_frame(Reg8::Econ1, 0x03), vec![0xbf, 0x03]);
    assert_eq!(bfc_frame(Reg8::Eir, 0x08), vec![0xbc, 0x08]);
}

#[test]
fn rcr_reads_one_byte_from_eth_registers() {
    let x = rcr_xfer(Reg8::Erevid);
    assert_eq!(x.tx, vec![0x12]);
    assert_eq!(x.rx_len, 1);
}

#[test]
fn rcr_reads_two_bytes_from_mac_registers() {
    // MISTAT is a MII register: the chip emits a dummy byte first.
    let x = rcr_xfer(Reg8::Mistat);
    assert_eq!(x.tx, vec![0x0a]);
    assert_eq!(x.rx_len, 2);
}

#[test]
fn rcr_decode_keeps_the_last_byte() {
    assert_eq!(rcr_decode(Reg8::Erevid, &vec![0x06]), 0x06);
    assert_eq!(rcr_decode(Reg8::Mistat, &vec![0xee, 0x01]), 0x01);
}

#[test]
fn wbm_frame_prefixes_the_opcode() {
    assert_eq!(wbm_frame(&vec![1, 2, 3]), vec![0x7a, 1, 2, 3]);
    assert_eq!(wbm_frame(&vec![]), vec![0x7a]);
}

#[test]
fn rbm_xfer_is_one_opcode_byte() {
    let x = rbm_xfer(6);
    assert_eq!(x.tx, vec![0x3a]);
    assert_eq!(x.rx_len, 6);
}

#[test]
fn soft_reset_is_one_byte() {
    assert_eq!(src_frame(), vec![0xff]);
}

#[test]
fn read_u16_decode_is_little_endian() {
    // MIRD is a MAC-side pair: each read carries a dummy byte first.
    let v = read_u16_decode(Reg16::Mird, &vec![0x00, 0x34], &vec![0x00, 0x12]);
    assert_eq!(v, 0x1234);
    // ERDPT is an ETH pair: single-byte reads.
    let v = read_u16_decode(Reg16::Erdpt, &vec![0xff], &vec![0x19]);
    assert_eq!(v, 0x19ff);
}

#[test]
fn write_buffer_is_one_burst() {
    let d = enc28j60::driver::Driver::new();
    let cmds = d.write_buffer(&vec![0xde, 0xad]);
    assert_eq!(cmds.len(), 1);
    assert_eq!(write_frame(&cmds[0]), &vec![0x7a, 0xde, 0xad]);
}
