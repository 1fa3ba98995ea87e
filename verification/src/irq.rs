//! Interrupt service decisions.
//!
//! The chip shares one interrupt line among RX, TX-complete, TX-error,
//! link-change and DMA events. Per interrupt the harness brackets a drain
//! loop with [`Driver::irq_begin`] and [`Driver::irq_end`] (so handling runs
//! with EIE.INTIE cleared), and inside it reads EIR, dispatches each set flag
//! through [`irq_dispatch`], drains pending packets, and repeats until
//! nothing made progress.

use vstd::prelude::*;

use crate::cmd::{Cmd, views};
use crate::driver::{Driver, bfc8_cmds, bfs8_cmds, same_but_bank};
use crate::regs::{
    EIE_INTIE, EIR_DMAIF, EIR_LINKIF, EIR_RXERIF, EIR_TXERIF, EIR_TXIF, PHSTAT2_DPXSTAT,
    PHSTAT2_LSTAT, Reg8,
};

verus! {

/// What one reading of EIR asks of the handlers.
///
/// A completion with both TXIF and TXERIF set is an error, not a success: the
/// recovery path also clears TXIF.
#[derive(Clone, Copy, PartialEq, Eq, Structural, Debug)]
pub struct IrqDispatch {
    /// DMAIF set: acknowledge the DMA-done flag.
    pub dma: bool,
    /// LINKIF set: check the link and read PHIR to clear the latched cause.
    pub link: bool,
    /// TXIF set and TXERIF clear: the pending transmission went out.
    pub tx_ok: bool,
    /// TXERIF set: the pending transmission failed; run recovery.
    pub tx_err: bool,
    /// RXERIF set: acknowledge the receive-error flag.
    pub rx_err: bool,
}

impl IrqDispatch {
    /// Whether any handler has work.
    pub open spec fn any_spec(self) -> bool {
        self.dma || self.link || self.tx_ok || self.tx_err || self.rx_err
    }

    /// Whether any handler has work.
    #[verifier::when_used_as_spec(any_spec)]
    pub fn any(self) -> (r: bool)
        ensures
            r == self.any_spec(),
    {
        self.dma || self.link || self.tx_ok || self.tx_err || self.rx_err
    }
}

/// Dispatch one reading of EIR to the handlers.
pub fn irq_dispatch(eir: u8) -> (d: IrqDispatch)
    ensures
        d.dma == (eir & EIR_DMAIF != 0),
        d.link == (eir & EIR_LINKIF != 0),
        d.tx_ok == (eir & EIR_TXIF != 0 && eir & EIR_TXERIF == 0),
        d.tx_err == (eir & EIR_TXERIF != 0),
        d.rx_err == (eir & EIR_RXERIF != 0),
{
    IrqDispatch {
        dma: eir & EIR_DMAIF != 0,
        link: eir & EIR_LINKIF != 0,
        tx_ok: eir & EIR_TXIF != 0 && eir & EIR_TXERIF == 0,
        tx_err: eir & EIR_TXERIF != 0,
        rx_err: eir & EIR_RXERIF != 0,
    }
}

/// Whether one drain iteration makes progress: some EIR flag dispatches, or
/// packets are pending.
pub open spec fn irq_progress(eir: u8, epktcnt: u8) -> bool {
    ||| eir & EIR_DMAIF != 0
    ||| eir & EIR_LINKIF != 0
    ||| (eir & EIR_TXIF != 0 && eir & EIR_TXERIF == 0)
    ||| eir & EIR_TXERIF != 0
    ||| eir & EIR_RXERIF != 0
    ||| epktcnt != 0
}

/// Link state read out of PHSTAT2.
#[derive(Clone, Copy, PartialEq, Eq, Structural, Debug)]
pub struct LinkStatus {
    /// LSTAT set: the carrier is up.
    pub up: bool,
    /// DPXSTAT set: the link runs full duplex.
    pub full_duplex: bool,
}

/// Decide carrier and duplex from a PHSTAT2 reading: the harness turns the
/// host stack's carrier on or off accordingly.
pub fn link_decision(phstat2: u16) -> (s: LinkStatus)
    ensures
        s.up == (phstat2 & PHSTAT2_LSTAT != 0),
        s.full_duplex == (phstat2 & PHSTAT2_DPXSTAT != 0),
{
    LinkStatus { up: phstat2 & PHSTAT2_LSTAT != 0, full_duplex: phstat2 & PHSTAT2_DPXSTAT != 0 }
}

impl Driver {
    /// Enter interrupt handling: clear EIE.INTIE, so a new edge cannot
    /// re-enter while the drain loop runs.
    pub fn irq_begin(&mut self) -> (cmds: Vec<Cmd>)
        ensures
            views(cmds@) == bfc8_cmds(old(self).bank, Reg8::Eie, EIE_INTIE),
            final(self).bank == old(self).bank,
            same_but_bank(*old(self), *final(self)),
    {
        self.bit_clear(Reg8::Eie, EIE_INTIE)
    }

    /// Leave interrupt handling: set EIE.INTIE again, success or failure.
    pub fn irq_end(&mut self) -> (cmds: Vec<Cmd>)
        ensures
            views(cmds@) == bfs8_cmds(old(self).bank, Reg8::Eie, EIE_INTIE),
            final(self).bank == old(self).bank,
            same_but_bank(*old(self), *final(self)),
    {
        self.bit_set(Reg8::Eie, EIE_INTIE)
    }

    /// Acknowledge the DMA-done flag.
    pub fn irq_ack_dma(&mut self) -> (cmds: Vec<Cmd>)
        ensures
            views(cmds@) == bfc8_cmds(old(self).bank, Reg8::Eir, EIR_DMAIF),
            final(self).bank == old(self).bank,
            same_but_bank(*old(self), *final(self)),
    {
        self.bit_clear(Reg8::Eir, EIR_DMAIF)
    }

    /// Acknowledge the receive-error flag.
    pub fn irq_ack_rx_error(&mut self) -> (cmds: Vec<Cmd>)
        ensures
            views(cmds@) == bfc8_cmds(old(self).bank, Reg8::Eir, EIR_RXERIF),
            final(self).bank == old(self).bank,
            same_but_bank(*old(self), *final(self)),
    {
        self.bit_clear(Reg8::Eir, EIR_RXERIF)
    }
}

} // verus!
