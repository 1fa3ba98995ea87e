//! Interrupt dispatch, the drain-loop exit condition and the PHY plans.

use enc28j60::cmd::Cmd;
use enc28j60::driver::Driver;
use enc28j60::irq::{irq_dispatch, link_decision};
use enc28j60::regs::{PhyRegister, Reg8};

fn write_frame(c: &Cmd) -> &Vec<u8> {
    match c {
        Cmd::Write(tx) => tx,
        _ => panic!("expected a write frame"),
    }
}

#[test]
fn dispatch_routes_each_flag() {
    let d = irq_dispatch(0x20);
    assert!(d.dma && !d.link && !d.tx_ok && !d.tx_err && !d.rx_err);
    let d = irq_dispatch(0x10);
    assert!(d.link && !d.dma);
    let d = irq_dispatch(0x08);
    assert!(d.tx_ok && !d.tx_err);
    let d = irq_dispatch(0x01);
    assert!(d.rx_err);
}

#[test]
fn txerif_beats_txif() {
    // Both completion flags set: the error path runs, not the success path.
    let d = irq_dispatch(0x0a);
    assert!(d.tx_err);
    assert!(!d.tx_ok);
}

#[test]
fn quiet_eir_dispatches_nothing() {
    let d = irq_dispatch(0x00);
    assert!(!d.any());
    // PKTIF alone dispatches no handler: pending packets are found via
    // EPKTCNT, which survives missed edges.
    let d = irq_dispatch(0x40);
    assert!(!d.any());
}

#[test]
fn irq_brackets_toggle_intie() {
    let mut d = Driver::new();
    let cmds = d.irq_begin();
    assert_eq!(write_frame(&cmds[0]), &vec![0xbb, 0x80]);
    let cmds = d.irq_end();
    assert_eq!(write_frame(&cmds[0]), &vec![0x9b, 0x80]);
}

#[test]
fn stale_flags_are_acknowledged_by_bfc() {
    let mut d = Driver::new();
    let cmds = d.irq_ack_dma();
    assert_eq!(write_frame(&cmds[0]), &vec![0xbc, 0x20]);
    let cmds = d.irq_ack_rx_error();
    assert_eq!(write_frame(&cmds[0]), &vec![0xbc, 0x01]);
}

#[test]
fn link_decision_reads_lstat_and_dpxstat() {
    let s = link_decision(0x0400);
    assert!(s.up && !s.full_duplex);
    let s = link_decision(0x0600);
    assert!(s.up && s.full_duplex);
    let s = link_decision(0x0000);
    assert!(!s.up);
}

#[test]
fn phy_write_sets_address_value_and_waits() {
    let mut d = Driver::new();
    let cmds = d.phy_write_plan(PhyRegister::Phlcon, 0x3476);
    // Bank 2, MIREGADR <- 0x14, MIWR <- 0x3476 low then high, bank 3, poll.
    let mut frames: Vec<&Vec<u8>> = Vec::new();
    for c in cmds.iter() {
        if let Cmd::Write(tx) = c {
            frames.push(tx);
        }
    }
    assert_eq!(
        frames,
        vec![
            &vec![0xbf, 0x03],
            &vec![0x9f, 0x02],
            &vec![0x54, 0x14],
            &vec![0x56, 0x76],
            &vec![0x57, 0x34],
            &vec![0xbf, 0x03],
            &vec![0x9f, 0x03],
        ]
    );
    match &cmds[cmds.len() - 1] {
        Cmd::Poll(p) => {
            assert_eq!(p.tx, 0x0a);
            assert_eq!(p.rx_len, 2);
            assert_eq!(p.mask, 0x01);
            assert_eq!(p.val, 0x00);
        },
        _ => panic!("expected the busy wait"),
    }
}

#[test]
fn phy_read_strobes_waits_and_reads_mird() {
    let mut d = Driver::new();
    let (cmds, lo, hi) = d.phy_read_plan(PhyRegister::Phstat2);
    // The strobe goes out before the wait, and is cleared after it.
    let mut saw_sleep = false;
    let mut saw_poll = false;
    for c in cmds.iter() {
        match c {
            Cmd::SleepMs(ms) => {
                saw_sleep = true;
                assert_eq!(*ms, 1);
                assert!(!saw_poll);
            },
            Cmd::Poll(p) => {
                saw_poll = true;
                assert_eq!(p.tx, 0x0a);
            },
            Cmd::Write(_) => {},
        }
    }
    assert!(saw_sleep && saw_poll);
    // MIREGADR <- 0x11, MICMD <- MIIRD, later MICMD <- 0.
    let frames: Vec<&Vec<u8>> = cmds
        .iter()
        .filter_map(|c| match c {
            Cmd::Write(tx) => Some(tx),
            _ => None,
        })
        .collect();
    assert!(frames.contains(&&vec![0x54, 0x11]));
    assert!(frames.contains(&&vec![0x52, 0x01]));
    assert_eq!(frames[frames.len() - 1], &vec![0x52, 0x00]);
    // MIRD is read low then high, two bytes each (dummy prefix).
    assert_eq!(lo.tx, vec![0x18]);
    assert_eq!(lo.rx_len, 2);
    assert_eq!(hi.tx, vec![0x19]);
    assert_eq!(hi.rx_len, 2);
}

#[test]
fn wait_for_ready_polls_the_masked_register() {
    let mut d = Driver::new();
    let cmds = d.wait_for_ready(Reg8::Estat, 0x01, 0x01);
    assert_eq!(cmds.len(), 1);
    match &cmds[0] {
        Cmd::Poll(p) => {
            assert_eq!(p.tx, 0x1d);
            assert_eq!(p.rx_len, 1);
            assert_eq!(p.mask, 0x01);
            assert_eq!(p.val, 0x01);
        },
        _ => panic!("expected a poll"),
    }
}
