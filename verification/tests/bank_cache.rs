//! The bank controller: switches are emitted only when an access needs
//! another bank, one BFC/BFS pair on ECON1 each.

use enc28j60::cmd::Cmd;
use enc28j60::driver::Driver;
use enc28j60::regs::{Bank, Reg16, Reg8};

fn write_frame(c: &Cmd) -> &Vec<u8> {
    match c {
        Cmd::Write(tx) => tx,
        _ => panic!("expected a write frame"),
    }
}

#[test]
fn bank_switch_is_one_bfc_bfs_pair() {
    let mut d = Driver::new();
    let cmds = d.ensure_bank(Some(Bank::Bank3));
    assert_eq!(cmds.len(), 2);
    assert_eq!(write_frame(&cmds[0]), &vec![0xbf, 0x03]);
    assert_eq!(write_frame(&cmds[1]), &vec![0x9f, 0x03]);
    assert_eq!(d.bank, Bank::Bank3);
}

#[test]
fn matching_bank_costs_no_io() {
    let mut d = Driver::new();
    let cmds = d.ensure_bank(Some(Bank::Bank0));
    assert!(cmds.is_empty());
}

#[test]
fn common_register_costs_no_io() {
    let mut d = Driver::new();
    d.ensure_bank(Some(Bank::Bank2));
    let cmds = d.ensure_bank(None);
    assert!(cmds.is_empty());
    assert_eq!(d.bank, Bank::Bank2);
}

#[test]
fn reads_in_one_bank_switch_once() {
    // EREVID then MISTAT (both bank 3) then ERDPT (bank 0): exactly one
    // BFC/BFS pair for bank 3 and one more for bank 0, not three.
    let mut d = Driver::new();
    let (c1, _) = d.read_u8_plan(Reg8::Erevid);
    assert_eq!(c1.len(), 2);
    assert_eq!(write_frame(&c1[0]), &vec![0xbf, 0x03]);
    assert_eq!(write_frame(&c1[1]), &vec![0x9f, 0x03]);
    let (c2, _) = d.read_u8_plan(Reg8::Mistat);
    assert!(c2.is_empty());
    let (c3, _lo, _hi) = d.read_u16_plan(Reg16::Erdpt);
    assert_eq!(c3.len(), 2);
    assert_eq!(write_frame(&c3[0]), &vec![0xbf, 0x03]);
    assert_eq!(write_frame(&c3[1]), &vec![0x9f, 0x00]);
    assert_eq!(d.bank, Bank::Bank0);
}

#[test]
fn writes_track_the_cache_too() {
    let mut d = Driver::new();
    let cmds = d.write_u8(Reg8::Erxfcon, 0xa1);
    // Bank 1 switch, then the WCR frame.
    assert_eq!(cmds.len(), 3);
    assert_eq!(write_frame(&cmds[0]), &vec![0xbf, 0x03]);
    assert_eq!(write_frame(&cmds[1]), &vec![0x9f, 0x01]);
    assert_eq!(write_frame(&cmds[2]), &vec![0x58, 0xa1]);
    let again = d.write_u8(Reg8::Epktcnt, 0x00);
    assert_eq!(again.len(), 1);
}

#[test]
fn sixteen_bit_write_is_low_then_high() {
    let mut d = Driver::new();
    let cmds = d.write_u16(Reg16::Erxrdpt, 0x19ff);
    assert_eq!(cmds.len(), 2);
    assert_eq!(write_frame(&cmds[0]), &vec![0x4c, 0xff]);
    assert_eq!(write_frame(&cmds[1]), &vec![0x4d, 0x19]);
}
