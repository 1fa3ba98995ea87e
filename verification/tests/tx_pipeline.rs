//! The TX pipeline: parking, the worker's writes, completion and recovery.

use enc28j60::cmd::Cmd;
use enc28j60::driver::Driver;
use enc28j60::tx::{TSV_SIZE, TxStatusVector};

fn write_frame(c: &Cmd) -> &Vec<u8> {
    match c {
        Cmd::Write(tx) => tx,
        _ => panic!("expected a write frame"),
    }
}

#[test]
fn start_xmit_stops_the_queue_and_parks() {
    let mut d = Driver::new();
    d.on_start_xmit();
    assert!(d.tx_pending);
    assert!(d.queue_stopped);
}

#[test]
fn worker_writes_control_byte_frame_and_arms() {
    let mut d = Driver::new();
    d.on_start_xmit();
    let frame: Vec<u8> = vec![0xaa; 100];
    let cmds = d.tx_worker_plan(&frame);
    let frames: Vec<&Vec<u8>> = cmds.iter().map(write_frame).collect();
    assert_eq!(frames.len(), 7);
    // EWRPT <- 0x1A00.
    assert_eq!(frames[0], &vec![0x42, 0x00]);
    assert_eq!(frames[1], &vec![0x43, 0x1a]);
    // ETXND <- 0x1A00 + 100 = 0x1A64: the frame's last byte.
    assert_eq!(frames[2], &vec![0x46, 0x64]);
    assert_eq!(frames[3], &vec![0x47, 0x1a]);
    // One WBM burst with the zero control byte, one with the payload.
    assert_eq!(frames[4], &vec![0x7a, 0x00]);
    assert_eq!(frames[5].len(), 101);
    assert_eq!(frames[5][0], 0x7a);
    assert_eq!(&frames[5][1..], &frame[..]);
    // TXRTS set arms the transmission.
    assert_eq!(frames[6], &vec![0x9f, 0x08]);
    // The queue stays stopped until a completion flag arrives.
    assert!(d.queue_stopped && d.tx_pending);
}

#[test]
fn txif_completion_disarms_and_wakes() {
    let mut d = Driver::new();
    d.on_start_xmit();
    let cmds = d.tx_complete_ok();
    assert!(!d.tx_pending);
    assert!(!d.queue_stopped);
    let frames: Vec<&Vec<u8>> = cmds.iter().map(write_frame).collect();
    // TXRTS cleared, then EIR.TXIF cleared.
    assert_eq!(frames, vec![&vec![0xbf, 0x08], &vec![0xbc, 0x08]]);
}

#[test]
fn txerif_recovery_pulses_txrts_and_reinits_the_fifo() {
    let mut d = Driver::new();
    d.on_start_xmit();
    let cmds = d.tx_complete_err();
    assert!(!d.tx_pending);
    assert!(!d.queue_stopped);
    let frames: Vec<&Vec<u8>> = cmds.iter().map(write_frame).collect();
    assert_eq!(
        frames,
        vec![
            &vec![0x9f, 0x08], // TXRTS set
            &vec![0xbf, 0x08], // TXRTS cleared
            &vec![0x44, 0x00], // ETXST <- 0x1A00
            &vec![0x45, 0x1a],
            &vec![0x46, 0xff], // ETXND <- 0x1FFF
            &vec![0x47, 0x1f],
            &vec![0xbc, 0x0a], // EIR.TXERIF|TXIF cleared
        ]
    );
}

#[test]
fn tsv_is_read_right_after_etxnd() {
    let mut d = Driver::new();
    let (cmds, xfer) = d.tsv_read_plan(0x1a64);
    let frames: Vec<&Vec<u8>> = cmds.iter().map(write_frame).collect();
    // ERDPT <- 0x1A65.
    assert_eq!(frames, vec![&vec![0x40, 0x65], &vec![0x41, 0x1a]]);
    assert_eq!(xfer.tx, vec![0x3a]);
    assert_eq!(xfer.rx_len, TSV_SIZE);
}

#[test]
fn tsv_fields_are_little_endian() {
    let tsv = TxStatusVector::parse(&vec![0x64, 0x00, 0x00, 0x00, 0x68, 0x00, 0x03]);
    assert_eq!(tsv.byte_count, 100);
    assert_eq!(tsv.status1, 0);
    assert_eq!(tsv.total_bytes_transmitted, 104);
    assert_eq!(tsv.status2, 3);
}
