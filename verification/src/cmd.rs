//! The commands that the driver hands to the host harness.
//!
//! The driver computes what must happen on the SPI bus; the harness performs
//! it. A [`Cmd`] needs no answer (a write frame, a sleep, or a bounded poll
//! whose outcome is fixed by its exit condition); an [`Xfer`] is a transfer
//! whose read bytes the harness feeds back into a decode function.

use vstd::prelude::*;

verus! {

/// A poll step: repeat the one-byte-opcode register read until
/// `(byte & mask) == val`, suspending about a millisecond between tries.
///
/// `tx` is the opcode byte of the read and `rx_len` its read length; the byte
/// tested is the last one read (MAC and MII registers prefix a dummy byte).
#[derive(Clone, Copy, PartialEq, Eq, Structural, Debug)]
pub struct Poll {
    pub tx: u8,
    pub rx_len: usize,
    pub mask: u8,
    pub val: u8,
}

/// One instruction to the harness that owns the bus.
#[derive(Debug)]
pub enum Cmd {
    /// Put these bytes on the bus as one transaction.
    Write(Vec<u8>),
    /// Suspend for this many milliseconds before the next command.
    SleepMs(u64),
    /// Poll a register until its masked value matches.
    Poll(Poll),
}

/// The mathematical form of a [`Cmd`]: the write frame as a byte sequence.
pub enum CmdS {
    Write(Seq<u8>),
    SleepMs(u64),
    Poll(Poll),
}

impl View for Cmd {
    type V = CmdS;

    open spec fn view(&self) -> CmdS {
        match self {
            Cmd::Write(tx) => CmdS::Write(tx@),
            Cmd::SleepMs(ms) => CmdS::SleepMs(*ms),
            Cmd::Poll(p) => CmdS::Poll(*p),
        }
    }
}

/// The view of each command in order: the form every contract speaks of.
pub open spec fn views(cmds: Seq<Cmd>) -> Seq<CmdS> {
    cmds.map_values(|c: Cmd| c@)
}

/// The view of a concatenation is the concatenation of the views.
pub proof fn lemma_views_concat(a: Seq<Cmd>, b: Seq<Cmd>)
    ensures
        views(a + b) == views(a) + views(b),
{
    assert(views(a + b) =~= views(a) + views(b));
}

/// A full-duplex transfer: write `tx`, then read `rx_len` bytes, which the
/// harness hands back to a decode function.
#[derive(Debug)]
pub struct Xfer {
    pub tx: Vec<u8>,
    pub rx_len: usize,
}

} // verus!
