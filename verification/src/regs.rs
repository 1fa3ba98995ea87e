//! Register catalog: every control register of the chip that the driver
//! touches, with its bank, its five-bit address and its read framing, plus the
//! PHY registers reached through the MII interface and the documented bit
//! masks.
//!
//! The chip multiplexes a flat 32-byte register window over four banks; the
//! registers at addresses 0x1B..=0x1F are common to all banks. An "ETH"
//! register answers a read in the byte right after the opcode; a MAC or MII
//! register emits a dummy byte first, so its read must fetch two bytes and
//! keep the second.

use vstd::prelude::*;

verus! {

/// One of the four register banks selected by the two low bits of ECON1.
#[derive(Clone, Copy, PartialEq, Eq, Structural, Debug)]
pub enum Bank {
    Bank0,
    Bank1,
    Bank2,
    Bank3,
}

impl Bank {
    /// The two-bit value that selects this bank in ECON1.
    pub open spec fn sel_spec(self) -> u8 {
        match self {
            Bank::Bank0 => 0,
            Bank::Bank1 => 1,
            Bank::Bank2 => 2,
            Bank::Bank3 => 3,
        }
    }

    /// The two-bit value that selects this bank in ECON1.
    #[verifier::when_used_as_spec(sel_spec)]
    pub fn sel(self) -> (r: u8)
        ensures
            r == self.sel_spec(),
    {
        match self {
            Bank::Bank0 => 0,
            Bank::Bank1 => 1,
            Bank::Bank2 => 2,
            Bank::Bank3 => 3,
        }
    }
}

/// An 8-bit control register of the chip.
///
/// The catalog is a compile-time table: the bank, address and read framing of
/// each register are functions of the variant alone.
#[derive(Clone, Copy, PartialEq, Eq, Structural, Debug)]
pub enum Reg8 {
    // Common to all banks.
    Eie,
    Eir,
    Estat,
    Econ2,
    Econ1,
    // Bank 0: buffer pointers.
    ErdptL,
    ErdptH,
    EwrptL,
    EwrptH,
    EtxstL,
    EtxstH,
    EtxndL,
    EtxndH,
    ErxstL,
    ErxstH,
    ErxndL,
    ErxndH,
    ErxrdptL,
    ErxrdptH,
    ErxwrptL,
    ErxwrptH,
    // Bank 1: receive filter and packet count.
    Erxfcon,
    Epktcnt,
    // Bank 2: MAC and MII control.
    Macon1,
    Macon3,
    Macon4,
    Mabbipg,
    MaipgL,
    MaipgH,
    MamxflL,
    MamxflH,
    Micmd,
    Miregadr,
    MiwrL,
    MiwrH,
    MirdL,
    MirdH,
    // Bank 3: MAC address, MII status, revision.
    Maadr5,
    Maadr6,
    Maadr3,
    Maadr4,
    Maadr1,
    Maadr2,
    Mistat,
    Erevid,
}

impl Reg8 {
    /// The bank this register lives in; `None` for the common window.
    pub open spec fn bank_spec(self) -> Option<Bank> {
        match self {
            Reg8::Eie | Reg8::Eir | Reg8::Estat | Reg8::Econ2 | Reg8::Econ1 => None,
            Reg8::ErdptL | Reg8::ErdptH | Reg8::EwrptL | Reg8::EwrptH | Reg8::EtxstL
                | Reg8::EtxstH | Reg8::EtxndL | Reg8::EtxndH | Reg8::ErxstL | Reg8::ErxstH
                | Reg8::ErxndL | Reg8::ErxndH | Reg8::ErxrdptL | Reg8::ErxrdptH
                | Reg8::ErxwrptL | Reg8::ErxwrptH => Some(Bank::Bank0),
            Reg8::Erxfcon | Reg8::Epktcnt => Some(Bank::Bank1),
            Reg8::Macon1 | Reg8::Macon3 | Reg8::Macon4 | Reg8::Mabbipg | Reg8::MaipgL
                | Reg8::MaipgH | Reg8::MamxflL | Reg8::MamxflH | Reg8::Micmd | Reg8::Miregadr
                | Reg8::MiwrL | Reg8::MiwrH | Reg8::MirdL | Reg8::MirdH => Some(Bank::Bank2),
            Reg8::Maadr5 | Reg8::Maadr6 | Reg8::Maadr3 | Reg8::Maadr4 | Reg8::Maadr1
                | Reg8::Maadr2 | Reg8::Mistat | Reg8::Erevid => Some(Bank::Bank3),
        }
    }

    /// The bank this register lives in; `None` for the common window.
    #[verifier::when_used_as_spec(bank_spec)]
    pub fn bank(self) -> (r: Option<Bank>)
        ensures
            r == self.bank_spec(),
    {
        match self {
            Reg8::Eie | Reg8::Eir | Reg8::Estat | Reg8::Econ2 | Reg8::Econ1 => None,
            Reg8::ErdptL | Reg8::ErdptH | Reg8::EwrptL | Reg8::EwrptH | Reg8::EtxstL
                | Reg8::EtxstH | Reg8::EtxndL | Reg8::EtxndH | Reg8::ErxstL | Reg8::ErxstH
                | Reg8::ErxndL | Reg8::ErxndH | Reg8::ErxrdptL | Reg8::ErxrdptH
                | Reg8::ErxwrptL | Reg8::ErxwrptH => Some(Bank::Bank0),
            Reg8::Erxfcon | Reg8::Epktcnt => Some(Bank::Bank1),
            Reg8::Macon1 | Reg8::Macon3 | Reg8::Macon4 | Reg8::Mabbipg | Reg8::MaipgL
                | Reg8::MaipgH | Reg8::MamxflL | Reg8::MamxflH | Reg8::Micmd | Reg8::Miregadr
                | Reg8::MiwrL | Reg8::MiwrH | Reg8::MirdL | Reg8::MirdH => Some(Bank::Bank2),
            Reg8::Maadr5 | Reg8::Maadr6 | Reg8::Maadr3 | Reg8::Maadr4 | Reg8::Maadr1
                | Reg8::Maadr2 | Reg8::Mistat | Reg8::Erevid => Some(Bank::Bank3),
        }
    }

    /// The five-bit address of this register inside its bank's window.
    pub open spec fn addr_spec(self) -> u8 {
        match self {
            Reg8::Eie => 0x1b,
            Reg8::Eir => 0x1c,
            Reg8::Estat => 0x1d,
            Reg8::Econ2 => 0x1e,
            Reg8::Econ1 => 0x1f,
            Reg8::ErdptL => 0x00,
            Reg8::ErdptH => 0x01,
            Reg8::EwrptL => 0x02,
            Reg8::EwrptH => 0x03,
            Reg8::EtxstL => 0x04,
            Reg8::EtxstH => 0x05,
            Reg8::EtxndL => 0x06,
            Reg8::EtxndH => 0x07,
            Reg8::ErxstL => 0x08,
            Reg8::ErxstH => 0x09,
            Reg8::ErxndL => 0x0a,
            Reg8::ErxndH => 0x0b,
            Reg8::ErxrdptL => 0x0c,
            Reg8::ErxrdptH => 0x0d,
            Reg8::ErxwrptL => 0x0e,
            Reg8::ErxwrptH => 0x0f,
            Reg8::Erxfcon => 0x18,
            Reg8::Epktcnt => 0x19,
            Reg8::Macon1 => 0x00,
            Reg8::Macon3 => 0x02,
            Reg8::Macon4 => 0x03,
            Reg8::Mabbipg => 0x04,
            Reg8::MaipgL => 0x06,
            Reg8::MaipgH => 0x07,
            Reg8::MamxflL => 0x0a,
            Reg8::MamxflH => 0x0b,
            Reg8::Micmd => 0x12,
            Reg8::Miregadr => 0x14,
            Reg8::MiwrL => 0x16,
            Reg8::MiwrH => 0x17,
            Reg8::MirdL => 0x18,
            Reg8::MirdH => 0x19,
            Reg8::Maadr5 => 0x00,
            Reg8::Maadr6 => 0x01,
            Reg8::Maadr3 => 0x02,
            Reg8::Maadr4 => 0x03,
            Reg8::Maadr1 => 0x04,
            Reg8::Maadr2 => 0x05,
            Reg8::Mistat => 0x0a,
            Reg8::Erevid => 0x12,
        }
    }

    /// The five-bit address of this register inside its bank's window.
    #[verifier::when_used_as_spec(addr_spec)]
    pub fn addr(self) -> (r: u8)
        ensures
            r == self.addr_spec(),
    {
        match self {
            Reg8::Eie => 0x1b,
            Reg8::Eir => 0x1c,
            Reg8::Estat => 0x1d,
            Reg8::Econ2 => 0x1e,
            Reg8::Econ1 => 0x1f,
            Reg8::ErdptL => 0x00,
            Reg8::ErdptH => 0x01,
            Reg8::EwrptL => 0x02,
            Reg8::EwrptH => 0x03,
            Reg8::EtxstL => 0x04,
            Reg8::EtxstH => 0x05,
            Reg8::EtxndL => 0x06,
            Reg8::EtxndH => 0x07,
            Reg8::ErxstL => 0x08,
            Reg8::ErxstH => 0x09,
            Reg8::ErxndL => 0x0a,
            Reg8::ErxndH => 0x0b,
            Reg8::ErxrdptL => 0x0c,
            Reg8::ErxrdptH => 0x0d,
            Reg8::ErxwrptL => 0x0e,
            Reg8::ErxwrptH => 0x0f,
            Reg8::Erxfcon => 0x18,
            Reg8::Epktcnt => 0x19,
            Reg8::Macon1 => 0x00,
            Reg8::Macon3 => 0x02,
            Reg8::Macon4 => 0x03,
            Reg8::Mabbipg => 0x04,
            Reg8::MaipgL => 0x06,
            Reg8::MaipgH => 0x07,
            Reg8::MamxflL => 0x0a,
            Reg8::MamxflH => 0x0b,
            Reg8::Micmd => 0x12,
            Reg8::Miregadr => 0x14,
            Reg8::MiwrL => 0x16,
            Reg8::MiwrH => 0x17,
            Reg8::MirdL => 0x18,
            Reg8::MirdH => 0x19,
            Reg8::Maadr5 => 0x00,
            Reg8::Maadr6 => 0x01,
            Reg8::Maadr3 => 0x02,
            Reg8::Maadr4 => 0x03,
            Reg8::Maadr1 => 0x04,
            Reg8::Maadr2 => 0x05,
            Reg8::Mistat => 0x0a,
            Reg8::Erevid => 0x12,
        }
    }

    /// Whether this register belongs to the Ethernet engine proper.
    ///
    /// An ETH register answers a read in the first byte after the opcode; a
    /// MAC or MII register emits a dummy byte first. This flag is solely a
    /// read-framing attribute.
    pub open spec fn is_eth_spec(self) -> bool {
        match self {
            Reg8::Macon1 | Reg8::Macon3 | Reg8::Macon4 | Reg8::Mabbipg | Reg8::MaipgL
                | Reg8::MaipgH | Reg8::MamxflL | Reg8::MamxflH | Reg8::Micmd | Reg8::Miregadr
                | Reg8::MiwrL | Reg8::MiwrH | Reg8::MirdL | Reg8::MirdH | Reg8::Maadr5
                | Reg8::Maadr6 | Reg8::Maadr3 | Reg8::Maadr4 | Reg8::Maadr1 | Reg8::Maadr2
                | Reg8::Mistat => false,
            _ => true,
        }
    }

    /// Whether this register belongs to the Ethernet engine proper.
    #[verifier::when_used_as_spec(is_eth_spec)]
    pub fn is_eth(self) -> (r: bool)
        ensures
            r == self.is_eth_spec(),
    {
        match self {
            Reg8::Macon1 | Reg8::Macon3 | Reg8::Macon4 | Reg8::Mabbipg | Reg8::MaipgL
                | Reg8::MaipgH | Reg8::MamxflL | Reg8::MamxflH | Reg8::Micmd | Reg8::Miregadr
                | Reg8::MiwrL | Reg8::MiwrH | Reg8::MirdL | Reg8::MirdH | Reg8::Maadr5
                | Reg8::Maadr6 | Reg8::Maadr3 | Reg8::Maadr4 | Reg8::Maadr1 | Reg8::Maadr2
                | Reg8::Mistat => false,
            _ => true,
        }
    }
}

/// Every register address is five bits, and the common window is exactly
/// 0x1B..=0x1F: a banked register never shares an address with a common one.
pub proof fn lemma_reg8_addr(r: Reg8)
    ensures
        r.addr_spec() < 0x20,
        r.bank_spec() is Some ==> r.addr_spec() < 0x1b,
        r.bank_spec() is None ==> 0x1b <= r.addr_spec(),
{
}

/// A 16-bit control register: an ordered pair of two adjacent 8-bit
/// registers, low byte first. Both members share one bank, and the combined
/// value is `(high << 8) | low`.
#[derive(Clone, Copy, PartialEq, Eq, Structural, Debug)]
pub enum Reg16 {
    Erdpt,
    Ewrpt,
    Etxst,
    Etxnd,
    Erxst,
    Erxnd,
    Erxrdpt,
    Erxwrpt,
    Maipg,
    Mamxfl,
    Miwr,
    Mird,
}

impl Reg16 {
    /// The register that holds the low byte.
    pub open spec fn low_spec(self) -> Reg8 {
        match self {
            Reg16::Erdpt => Reg8::ErdptL,
            Reg16::Ewrpt => Reg8::EwrptL,
            Reg16::Etxst => Reg8::EtxstL,
            Reg16::Etxnd => Reg8::EtxndL,
            Reg16::Erxst => Reg8::ErxstL,
            Reg16::Erxnd => Reg8::ErxndL,
            Reg16::Erxrdpt => Reg8::ErxrdptL,
            Reg16::Erxwrpt => Reg8::ErxwrptL,
            Reg16::Maipg => Reg8::MaipgL,
            Reg16::Mamxfl => Reg8::MamxflL,
            Reg16::Miwr => Reg8::MiwrL,
            Reg16::Mird => Reg8::MirdL,
        }
    }

    /// The register that holds the low byte.
    #[verifier::when_used_as_spec(low_spec)]
    pub fn low(self) -> (r: Reg8)
        ensures
            r == self.low_spec(),
    {
        match self {
            Reg16::Erdpt => Reg8::ErdptL,
            Reg16::Ewrpt => Reg8::EwrptL,
            Reg16::Etxst => Reg8::EtxstL,
            Reg16::Etxnd => Reg8::EtxndL,
            Reg16::Erxst => Reg8::ErxstL,
            Reg16::Erxnd => Reg8::ErxndL,
            Reg16::Erxrdpt => Reg8::ErxrdptL,
            Reg16::Erxwrpt => Reg8::ErxwrptL,
            Reg16::Maipg => Reg8::MaipgL,
            Reg16::Mamxfl => Reg8::MamxflL,
            Reg16::Miwr => Reg8::MiwrL,
            Reg16::Mird => Reg8::MirdL,
        }
    }

    /// The register that holds the high byte.
    pub open spec fn high_spec(self) -> Reg8 {
        match self {
            Reg16::Erdpt => Reg8::ErdptH,
            Reg16::Ewrpt => Reg8::EwrptH,
            Reg16::Etxst => Reg8::EtxstH,
            Reg16::Etxnd => Reg8::EtxndH,
            Reg16::Erxst => Reg8::ErxstH,
            Reg16::Erxnd => Reg8::ErxndH,
            Reg16::Erxrdpt => Reg8::ErxrdptH,
            Reg16::Erxwrpt => Reg8::ErxwrptH,
            Reg16::Maipg => Reg8::MaipgH,
            Reg16::Mamxfl => Reg8::MamxflH,
            Reg16::Miwr => Reg8::MiwrH,
            Reg16::Mird => Reg8::MirdH,
        }
    }

    /// The register that holds the high byte.
    #[verifier::when_used_as_spec(high_spec)]
    pub fn high(self) -> (r: Reg8)
        ensures
            r == self.high_spec(),
    {
        match self {
            Reg16::Erdpt => Reg8::ErdptH,
            Reg16::Ewrpt => Reg8::EwrptH,
            Reg16::Etxst => Reg8::EtxstH,
            Reg16::Etxnd => Reg8::EtxndH,
            Reg16::Erxst => Reg8::ErxstH,
            Reg16::Erxnd => Reg8::ErxndH,
            Reg16::Erxrdpt => Reg8::ErxrdptH,
            Reg16::Erxwrpt => Reg8::ErxwrptH,
            Reg16::Maipg => Reg8::MaipgH,
            Reg16::Mamxfl => Reg8::MamxflH,
            Reg16::Miwr => Reg8::MiwrH,
            Reg16::Mird => Reg8::MirdH,
        }
    }

    /// The bank of both members.
    pub open spec fn bank_spec(self) -> Option<Bank> {
        self.low_spec().bank_spec()
    }

    /// The bank of both members.
    #[verifier::when_used_as_spec(bank_spec)]
    pub fn bank(self) -> (r: Option<Bank>)
        ensures
            r == self.bank_spec(),
    {
        self.low().bank()
    }
}

/// The two members of a 16-bit register share one bank and stand at adjacent
/// addresses, high right above low.
pub proof fn lemma_reg16_pair(r: Reg16)
    ensures
        r.low_spec().bank_spec() == r.high_spec().bank_spec(),
        r.high_spec().addr_spec() == r.low_spec().addr_spec() + 1,
{
}

/// A PHY register: a five-bit address reached only through MII indirection.
#[derive(Clone, Copy, PartialEq, Eq, Structural, Debug)]
pub enum PhyRegister {
    Phcon1,
    Phstat1,
    Phid1,
    Phid2,
    Phcon2,
    Phstat2,
    Phie,
    Phir,
    Phlcon,
}

impl PhyRegister {
    /// The five-bit PHY register address written to MIREGADR.
    pub open spec fn addr_spec(self) -> u8 {
        match self {
            PhyRegister::Phcon1 => 0x00,
            PhyRegister::Phstat1 => 0x01,
            PhyRegister::Phid1 => 0x02,
            PhyRegister::Phid2 => 0x03,
            PhyRegister::Phcon2 => 0x10,
            PhyRegister::Phstat2 => 0x11,
            PhyRegister::Phie => 0x12,
            PhyRegister::Phir => 0x13,
            PhyRegister::Phlcon => 0x14,
        }
    }

    /// The five-bit PHY register address written to MIREGADR.
    #[verifier::when_used_as_spec(addr_spec)]
    pub fn addr(self) -> (r: u8)
        ensures
            r == self.addr_spec(),
    {
        match self {
            PhyRegister::Phcon1 => 0x00,
            PhyRegister::Phstat1 => 0x01,
            PhyRegister::Phid1 => 0x02,
            PhyRegister::Phid2 => 0x03,
            PhyRegister::Phcon2 => 0x10,
            PhyRegister::Phstat2 => 0x11,
            PhyRegister::Phie => 0x12,
            PhyRegister::Phir => 0x13,
            PhyRegister::Phlcon => 0x14,
        }
    }
}

// EIE: interrupt enable bits.
pub const EIE_INTIE: u8 = 0x80;
pub const EIE_PKTIE: u8 = 0x40;
pub const EIE_DMAIE: u8 = 0x20;
pub const EIE_LINKIE: u8 = 0x10;
pub const EIE_TXIE: u8 = 0x08;
pub const EIE_TXERIE: u8 = 0x02;
pub const EIE_RXERIE: u8 = 0x01;

// EIR: interrupt flag bits.
pub const EIR_PKTIF: u8 = 0x40;
pub const EIR_DMAIF: u8 = 0x20;
pub const EIR_LINKIF: u8 = 0x10;
pub const EIR_TXIF: u8 = 0x08;
pub const EIR_TXERIF: u8 = 0x02;
pub const EIR_RXERIF: u8 = 0x01;

// ECON1: bank select, receive enable, transmit request.
pub const ECON1_TXRTS: u8 = 0x08;
pub const ECON1_RXEN: u8 = 0x04;
pub const ECON1_BSEL1: u8 = 0x02;
pub const ECON1_BSEL0: u8 = 0x01;

// ECON2: pointer auto-increment and packet-counter decrement.
pub const ECON2_AUTOINC: u8 = 0x80;
pub const ECON2_PKTDEC: u8 = 0x40;

// ERXFCON: receive filter enables.
pub const ERXFCON_UCEN: u8 = 0x80;
pub const ERXFCON_CRCEN: u8 = 0x20;
pub const ERXFCON_BCEN: u8 = 0x01;

// MACON1: MAC receive and pause control.
pub const MACON1_MARXEN: u8 = 0x01;
pub const MACON1_RXPAUS: u8 = 0x04;
pub const MACON1_TXPAUS: u8 = 0x08;

// MACON3: padding, CRC, frame-length check, duplex.
pub const MACON3_PADCFG0: u8 = 0x20;
pub const MACON3_TXCRCEN: u8 = 0x10;
pub const MACON3_FRMLNEN: u8 = 0x02;
pub const MACON3_FULDPX: u8 = 0x01;

// MICMD / MISTAT: MII read strobe and busy flag.
pub const MICMD_MIIRD: u8 = 0x01;
pub const MISTAT_BUSY: u8 = 0x01;

// PHCON1: PHY duplex mode.
pub const PHCON1_PDPXMD: u16 = 0x0100;

// PHSTAT2: link and duplex status.
pub const PHSTAT2_LSTAT: u16 = 0x0400;
pub const PHSTAT2_DPXSTAT: u16 = 0x0200;

// PHIE: PHY interrupt enables.
pub const PHIE_PGEIE: u16 = 0x0002;
pub const PHIE_PLNKIE: u16 = 0x0010;

} // verus!
