//! The RX pipeline: status-vector decoding, accept/drop decisions, the
//! erratum workaround and the FIFO wrap.

use enc28j60::cmd::Cmd;
use enc28j60::driver::Driver;
use enc28j60::rx::{
    RSV_CRC_ERROR, RSV_LENGTH_CHECK_ERROR, RSV_LENGTH_OUT_OF_RANGE, RSV_RX_BROADCAST,
    RSV_RX_MULTICAST, RSV_RX_OK, RSV_SIZE, RxStatusVector, erxrdpt_workaround, next_rx_start_ptr,
    rx_accept,
};

fn write_frame(c: &Cmd) -> &Vec<u8> {
    match c {
        Cmd::Write(tx) => tx,
        _ => panic!("expected a write frame"),
    }
}

#[test]
fn rsv_fields_are_little_endian() {
    let rsv = RxStatusVector::parse(&vec![0x00, 0x01, 0x40, 0x00, 0x80, 0x00]);
    assert_eq!(rsv.next_ptr, 0x0100);
    assert_eq!(rsv.byte_count, 64);
    assert_eq!(rsv.status, 0x0080);
    assert!(rsv.flag(RSV_RX_OK));
}

#[test]
fn rsv_status_bits_have_their_datasheet_positions() {
    assert_eq!(RSV_RX_OK, 1 << 7);
    assert_eq!(RSV_CRC_ERROR, 1 << 4);
    assert_eq!(RSV_LENGTH_CHECK_ERROR, 1 << 5);
    assert_eq!(RSV_LENGTH_OUT_OF_RANGE, 1 << 6);
    assert_eq!(RSV_RX_MULTICAST, 1 << 8);
    assert_eq!(RSV_RX_BROADCAST, 1 << 9);
}

#[test]
fn single_packet_is_read_evaluated_and_advanced() {
    // One pending packet: RSV at 0x0000 says next at 0x0100, 64 bytes, OK.
    let mut d = Driver::new();
    let (cmds, xfer) = d.rx_packet_plan();
    let frames: Vec<&Vec<u8>> = cmds.iter().map(write_frame).collect();
    assert_eq!(frames, vec![&vec![0x40, 0x00], &vec![0x41, 0x00]]);
    assert_eq!(xfer.tx, vec![0x3a]);
    assert_eq!(xfer.rx_len, RSV_SIZE);

    let rsv = RxStatusVector::parse(&vec![0x00, 0x01, 0x40, 0x00, 0x80, 0x00]);
    // The payload sits six bytes past the packet start.
    assert_eq!(d.rx_packet_eval(&rsv), Some((0x0006, 64)));

    // Reading it points ERDPT at 0x0006 and streams 64 bytes.
    let (cmds, xfer) = d.read_buffer_plan(0x0006, 64);
    let frames: Vec<&Vec<u8>> = cmds.iter().map(write_frame).collect();
    assert_eq!(frames, vec![&vec![0x40, 0x06], &vec![0x41, 0x00]]);
    assert_eq!(xfer.rx_len, 64);

    let cmds = d.rx_packet_finish(rsv.next_ptr);
    assert_eq!(d.next_packet_ptr, 0x0100);
    let frames: Vec<&Vec<u8>> = cmds.iter().map(write_frame).collect();
    // ERXRDPT takes the workaround value 0x00FF, not 0x0100.
    assert_eq!(frames, vec![&vec![0x4c, 0xff], &vec![0x4d, 0x00]]);

    let cmds = d.rx_packet_dec();
    assert_eq!(write_frame(&cmds[0]), &vec![0x9e, 0x40]);
}

#[test]
fn bad_status_drops_the_packet() {
    let d = Driver::new();
    let rsv = RxStatusVector { next_ptr: 0x0100, byte_count: 64, status: 0x0010 };
    assert!(!rx_accept(&rsv));
    assert_eq!(d.rx_packet_eval(&rsv), None);
}

#[test]
fn oversized_frame_is_dropped() {
    let d = Driver::new();
    let rsv = RxStatusVector { next_ptr: 0x0100, byte_count: 1519, status: 0x0080 };
    assert_eq!(d.rx_packet_eval(&rsv), None);
    let just_fits = RxStatusVector { next_ptr: 0x0100, byte_count: 1518, status: 0x0080 };
    assert!(rx_accept(&just_fits));
}

#[test]
fn erxrdpt_workaround_wraps_at_the_fifo_start() {
    assert_eq!(erxrdpt_workaround(0x0000, 0x0000, 0x19ff), 0x19ff);
    assert_eq!(erxrdpt_workaround(0x0001, 0x0000, 0x19ff), 0x0000);
    assert_eq!(erxrdpt_workaround(0x0100, 0x0000, 0x19ff), 0x00ff);
    assert_eq!(erxrdpt_workaround(0x19ff, 0x0000, 0x19ff), 0x19fe);
}

#[test]
fn erxrdpt_workaround_never_returns_the_boundary() {
    let mut p: u16 = 0;
    while p <= 0x19ff {
        let r = erxrdpt_workaround(p, 0x0000, 0x19ff);
        assert!(r <= 0x19ff);
        assert_ne!(r, p);
        p += 1;
    }
}

#[test]
fn payload_start_wraps_inside_the_fifo() {
    assert_eq!(next_rx_start_ptr(0x0000), 0x0006);
    assert_eq!(next_rx_start_ptr(0x19f9), 0x19ff);
    assert_eq!(next_rx_start_ptr(0x19fa), 0x0000);
    assert_eq!(next_rx_start_ptr(0x19ff), 0x0005);
    let mut p: u16 = 0;
    while p <= 0x19ff {
        assert!(next_rx_start_ptr(p) <= 0x19ff);
        p += 1;
    }
}
