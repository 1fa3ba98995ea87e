//! The reset, identity-check, configuration, enable and disable sequences.

use enc28j60::Error;
use enc28j60::cmd::Cmd;
use enc28j60::driver::Driver;
use enc28j60::lifecycle::check_revision;
use enc28j60::regs::Bank;

fn write_frame(c: &Cmd) -> &Vec<u8> {
    match c {
        Cmd::Write(tx) => tx,
        _ => panic!("expected a write frame"),
    }
}

fn write_frames(cmds: &[Cmd]) -> Vec<Vec<u8>> {
    let mut out: Vec<Vec<u8>> = Vec::new();
    for c in cmds {
        if let Cmd::Write(tx) = c {
            out.push(tx.clone());
        }
    }
    out
}

#[test]
fn init_begin_resets_sleeps_and_clears_econ1() {
    let mut d = Driver::new();
    let cmds = d.init_begin();
    assert_eq!(cmds.len(), 3);
    assert_eq!(write_frame(&cmds[0]), &vec![0xff]);
    match &cmds[1] {
        Cmd::SleepMs(ms) => assert!(*ms >= 2),
        _ => panic!("expected the post-reset sleep"),
    }
    assert_eq!(write_frame(&cmds[2]), &vec![0x5f, 0x00]);
    assert_eq!(d.bank, Bank::Bank0);
}

#[test]
fn probe_with_live_revision_configures_everything() {
    let mut d = Driver::new();
    d.init_begin();
    let cmds = d.init_config(6).unwrap();
    let frames = write_frames(&cmds);
    // First configuration write: ECON2 <- AUTOINC.
    assert_eq!(frames[0], vec![0x5e, 0x80]);
    // The RX FIFO: ERXST <- 0, ERXRDPT <- 0x19FF (workaround), ERXND <- 0x19FF.
    assert!(frames.contains(&vec![0x48, 0x00]));
    assert!(frames.contains(&vec![0x49, 0x00]));
    assert!(frames.contains(&vec![0x4c, 0xff]));
    assert!(frames.contains(&vec![0x4d, 0x19]));
    assert!(frames.contains(&vec![0x4a, 0xff]));
    assert!(frames.contains(&vec![0x4b, 0x19]));
    // The TX region: ETXST <- 0x1A00, ETXND <- 0x1FFF.
    assert!(frames.contains(&vec![0x44, 0x00]));
    assert!(frames.contains(&vec![0x45, 0x1a]));
    assert!(frames.contains(&vec![0x46, 0xff]));
    assert!(frames.contains(&vec![0x47, 0x1f]));
    // Filters and MAC configuration.
    assert!(frames.contains(&vec![0x58, 0xa1])); // ERXFCON: UCEN|CRCEN|BCEN
    assert!(frames.contains(&vec![0x40, 0x0d])); // MACON1: MARXEN|RXPAUS|TXPAUS
    assert!(frames.contains(&vec![0x42, 0x33])); // MACON3: FULDPX|FRMLNEN|TXCRCEN|PADCFG0
    assert!(frames.contains(&vec![0x46, 0x12])); // MAIPG low
    assert!(frames.contains(&vec![0x44, 0x15])); // MABBIPG
    assert!(frames.contains(&vec![0x4a, 0xee])); // MAMXFL low (1518 = 0x05EE)
    assert!(frames.contains(&vec![0x4b, 0x05])); // MAMXFL high
    // PHY register addresses written to MIREGADR, in order:
    // PHLCON (0x14), PHCON1 (0x00), PHCON2 (0x10) last.
    let phy_addrs: Vec<u8> =
        frames.iter().filter(|f| f[0] == 0x54).map(|f| f[1]).collect();
    assert_eq!(phy_addrs, vec![0x14, 0x00, 0x10]);
    // The last register write (WCR opcode 010) programs the high byte of
    // MIWR with PHCON2's value 0; only the closing bank switch and busy wait
    // follow it.
    let wcr: Vec<&Vec<u8>> = frames.iter().filter(|f| f[0] >> 5 == 2).collect();
    assert_eq!(wcr[wcr.len() - 1], &vec![0x57, 0x00]);
    assert_eq!(d.next_packet_ptr, 0);
}

#[test]
fn probe_with_revision_ff_is_device_absent() {
    let mut d = Driver::new();
    d.init_begin();
    let before_bank = d.bank;
    let res = d.init_config(0xff);
    assert_eq!(res.unwrap_err(), Error::DeviceAbsent);
    // No further I/O was planned and the state did not move.
    assert_eq!(d.bank, before_bank);
}

#[test]
fn probe_with_revision_zero_is_device_absent() {
    let mut d = Driver::new();
    d.init_begin();
    assert_eq!(d.init_config(0).unwrap_err(), Error::DeviceAbsent);
}

#[test]
fn check_revision_accepts_ordinary_values() {
    assert!(check_revision(6).is_ok());
    assert!(check_revision(1).is_ok());
    assert_eq!(check_revision(0).unwrap_err(), Error::DeviceAbsent);
    assert_eq!(check_revision(0xff).unwrap_err(), Error::DeviceAbsent);
}

#[test]
fn rxfifo_rejects_ranges_outside_the_partition() {
    let mut d = Driver::new();
    assert_eq!(d.init_rxfifo(0x0100, 0x00ff).unwrap_err(), Error::ConfigurationError);
    assert_eq!(d.init_rxfifo(0x0000, 0x1a00).unwrap_err(), Error::ConfigurationError);
}

#[test]
fn rxfifo_accepts_the_partition() {
    let mut d = Driver::new();
    let cmds = d.init_rxfifo(0x0000, 0x19ff).unwrap();
    assert_eq!(d.next_packet_ptr, 0x0000);
    let frames = write_frames(&cmds);
    assert_eq!(
        frames,
        vec![
            vec![0x48, 0x00],
            vec![0x49, 0x00],
            vec![0x4c, 0xff],
            vec![0x4d, 0x19],
            vec![0x4a, 0xff],
            vec![0x4b, 0x19],
        ]
    );
}

#[test]
fn txfifo_rejects_ranges_outside_the_partition() {
    let mut d = Driver::new();
    assert_eq!(d.init_txfifo(0x19ff, 0x1fff).unwrap_err(), Error::ConfigurationError);
    assert_eq!(d.init_txfifo(0x1a00, 0x2000).unwrap_err(), Error::ConfigurationError);
    assert_eq!(d.init_txfifo(0x1f00, 0x1a00).unwrap_err(), Error::ConfigurationError);
}

#[test]
fn txfifo_accepts_the_partition() {
    let mut d = Driver::new();
    let cmds = d.init_txfifo(0x1a00, 0x1fff).unwrap();
    let frames = write_frames(&cmds);
    assert_eq!(
        frames,
        vec![vec![0x44, 0x00], vec![0x45, 0x1a], vec![0x46, 0xff], vec![0x47, 0x1f]]
    );
}

#[test]
fn enable_sequence_ends_with_receive_on() {
    let mut d = Driver::new();
    let cmds = d.enable_hardware();
    assert!(d.hw_enabled);
    let frames = write_frames(&cmds);
    // PHIE = PGEIE|PLNKIE through the MII registers.
    assert!(frames.contains(&vec![0x54, 0x12]));
    assert!(frames.contains(&vec![0x56, 0x12]));
    assert!(frames.contains(&vec![0x57, 0x00]));
    // Every stale flag cleared, all sources enabled, receive on.
    assert!(frames.contains(&vec![0xbc, 0x7b]));
    assert!(frames.contains(&vec![0x5b, 0xdb]));
    assert_eq!(frames[frames.len() - 1], vec![0x9f, 0x04]);
}

#[test]
fn disable_sequence_masks_and_stops_receive() {
    let mut d = Driver::new();
    d.enable_hardware();
    let cmds = d.disable_hardware();
    assert!(!d.hw_enabled);
    let frames = write_frames(&cmds);
    assert_eq!(frames, vec![vec![0x5b, 0x00], vec![0xbf, 0x04]]);
}

#[test]
fn mac_address_goes_out_in_ieee_order() {
    // MAADR1 takes the first byte of the address, per the datasheet.
    let mut d = Driver::new();
    let cmds = d.set_hw_macaddr(&[0x02, 0x12, 0x34, 0x56, 0x78, 0x9a]);
    let frames = write_frames(&cmds);
    assert_eq!(
        frames,
        vec![
            vec![0xbf, 0x03],
            vec![0x9f, 0x03],
            vec![0x44, 0x02], // MAADR1 at address 0x04
            vec![0x45, 0x12], // MAADR2 at address 0x05
            vec![0x42, 0x34], // MAADR3 at address 0x02
            vec![0x43, 0x56], // MAADR4 at address 0x03
            vec![0x40, 0x78], // MAADR5 at address 0x00
            vec![0x41, 0x9a], // MAADR6 at address 0x01
        ]
    );
}
