//! Flag types for the UART's MMIO registers.
//!
//! Each register value is a plain 32-bit pattern together with named masks
//! for its defined bits.  The types support membership tests, bitwise
//! union and difference for building writes, and exact round-tripping
//! between raw patterns and named flags.

use vstd::prelude::*;

verus! {

/// Line control: divisor latch access bit.
pub const LCR_DLAB: u32 = 0x80;
/// Line control: break control bit.
pub const LCR_BC: u32 = 0x40;
/// Line control: even parity select.
pub const LCR_EPS: u32 = 0x10;
/// Line control: parity enable.
pub const LCR_PEN: u32 = 0x08;
/// Line control: number of stop bits (0 means 1 stop bit, 1 means 1.5).
pub const LCR_STOP: u32 = 0x04;
/// Line control: mask of the 2-bit data-bit-count field.
pub const LCR_DLS_MASK: u32 = 0x03;
/// Line control: 5 data bits.
pub const LCR_DLS_5: u32 = 0x00;
/// Line control: 6 data bits.
pub const LCR_DLS_6: u32 = 0x01;
/// Line control: 7 data bits.
pub const LCR_DLS_7: u32 = 0x02;
/// Line control: 8 data bits.
pub const LCR_DLS_8: u32 = 0x03;
/// Mask of all defined line-control bits.
pub const LCR_ALL: u32 = 0xdf;

/// Modem control: SIR mode enable.
pub const MCR_SIRE: u32 = 0x40;
/// Modem control: auto flow control enable.
pub const MCR_AFCE: u32 = 0x20;
/// Modem control: loopback mode.
pub const MCR_LB: u32 = 0x10;
/// Modem control: user-designated output 2 (inverted).
pub const MCR_OUT2: u32 = 0x08;
/// Modem control: user-designated output 1 (inverted).
pub const MCR_OUT1: u32 = 0x04;
/// Modem control: request to send.
pub const MCR_RTS: u32 = 0x02;
/// Modem control: data terminal ready.
pub const MCR_DTR: u32 = 0x01;
/// Mask of all defined modem-control bits.
pub const MCR_ALL: u32 = 0x7f;

/// Line status: receiver FIFO error.
pub const LSR_RFE: u32 = 0x80;
/// Line status: transmitter empty.
pub const LSR_TEMT: u32 = 0x40;
/// Line status: transmit holding register empty.
pub const LSR_THRE: u32 = 0x20;
/// Line status: break interrupt.
pub const LSR_BI: u32 = 0x10;
/// Line status: framing error.
pub const LSR_FE: u32 = 0x08;
/// Line status: parity error.
pub const LSR_PE: u32 = 0x04;
/// Line status: overrun error.
pub const LSR_OE: u32 = 0x02;
/// Line status: data ready.
pub const LSR_DR: u32 = 0x01;
/// Mask of all defined line-status bits.
pub const LSR_ALL: u32 = 0xff;

/// Modem status: data carrier detect.
pub const MSR_DCD: u32 = 0x80;
/// Modem status: ring indicator.
pub const MSR_RI: u32 = 0x40;
/// Modem status: data set ready.
pub const MSR_DSR: u32 = 0x20;
/// Modem status: clear to send.
pub const MSR_CTS: u32 = 0x10;
/// Modem status: delta data carrier detect.
pub const MSR_DDCD: u32 = 0x08;
/// Modem status: trailing edge of ring indicator.
pub const MSR_TERI: u32 = 0x04;
/// Modem status: delta data set ready.
pub const MSR_DDSR: u32 = 0x02;
/// Modem status: delta clear to send.
pub const MSR_DCTS: u32 = 0x01;
/// Mask of all defined modem-status bits.
pub const MSR_ALL: u32 = 0xff;

/// UART status: receive FIFO full.
pub const USR_RFF: u32 = 0x10;
/// UART status: receive FIFO not empty.
pub const USR_RFNE: u32 = 0x08;
/// UART status: transmit FIFO empty.
pub const USR_TFE: u32 = 0x04;
/// UART status: transmit FIFO not full.
pub const USR_TFNF: u32 = 0x02;
/// UART status: UART busy.
pub const USR_BUSY: u32 = 0x01;
/// Mask of all defined UART-status bits.
pub const USR_ALL: u32 = 0x1f;

/// FIFO control: DMA mode.
pub const FCR_DMAM: u32 = 0x08;
/// FIFO control: TX FIFO reset.
pub const FCR_XFIFOR: u32 = 0x04;
/// FIFO control: RX FIFO reset.
pub const FCR_RFIFOR: u32 = 0x02;
/// FIFO control: FIFO enable.
pub const FCR_FIFOE: u32 = 0x01;
/// FIFO control: mask of the 2-bit receive trigger field.
pub const FCR_RT_MASK: u32 = 0xc0;
/// FIFO control: receive trigger at 1 character.
pub const FCR_RT_1_CHAR: u32 = 0x00;
/// FIFO control: receive trigger at quarter full.
pub const FCR_RT_QUARTER_FULL: u32 = 0x40;
/// FIFO control: receive trigger at half full.
pub const FCR_RT_HALF_FULL: u32 = 0x80;
/// FIFO control: receive trigger at 2 less than full.
pub const FCR_RT_2_LESS: u32 = 0xc0;
/// FIFO control: mask of the 2-bit transmit-empty trigger field.
pub const FCR_TET_MASK: u32 = 0x30;
/// FIFO control: transmit-empty trigger at empty.
pub const FCR_TET_EMPTY: u32 = 0x00;
/// FIFO control: transmit-empty trigger at 2 characters.
pub const FCR_TET_2_CHARS: u32 = 0x10;
/// FIFO control: transmit-empty trigger at quarter full.
pub const FCR_TET_QUARTER_FULL: u32 = 0x20;
/// FIFO control: transmit-empty trigger at half full.
pub const FCR_TET_HALF_FULL: u32 = 0x30;
/// Mask of all defined FIFO-control bits.
pub const FCR_ALL: u32 = 0xff;

/// The contribution of the flag `mask` to a decomposed register value:
/// `mask` itself when every bit of the flag is set in `bits`, else zero.
pub open spec fn flag_part(bits: u32, mask: u32) -> u32 {
    if bits & mask == mask {
        mask
    } else {
        0u32
    }
}

/// A line control register value.
#[derive(Clone, Copy, Debug, PartialEq, Eq, Structural)]
pub struct Lcr {
    pub bits: u32,
}

impl Lcr {
    /// The value with no flags set.
    pub fn empty() -> (r: Lcr)
        ensures
            r.bits == 0,
    {
        Lcr { bits: 0 }
    }

    /// Interprets a raw register value, keeping all bits.
    pub fn from_bits_retain(bits: u32) -> (r: Lcr)
        ensures
            r.bits == bits,
    {
        Lcr { bits }
    }

    /// The raw bit pattern of this value.
    pub fn bits(self) -> (r: u32)
        ensures
            r == self.bits,
    {
        self.bits
    }

    /// True iff every flag bit set in `other` is also set in `self`.
    pub fn contains(self, other: Lcr) -> (r: bool)
        ensures
            r == (self.bits & other.bits == other.bits),
    {
        self.bits & other.bits == other.bits
    }

    /// The union of the flags of `self` and `other`.
    pub fn union(self, other: Lcr) -> (r: Lcr)
        ensures
            r.bits == (self.bits | other.bits),
    {
        Lcr { bits: self.bits | other.bits }
    }

    /// The flags of `self` with those of `other` removed.
    pub fn difference(self, other: Lcr) -> (r: Lcr)
        ensures
            r.bits == (self.bits & !other.bits),
    {
        Lcr { bits: self.bits & !other.bits }
    }
}

/// A modem control register value.
#[derive(Clone, Copy, Debug, PartialEq, Eq, Structural)]
pub struct Mcr {
    pub bits: u32,
}

impl Mcr {
    /// The value with no flags set.
    pub fn empty() -> (r: Mcr)
        ensures
            r.bits == 0,
    {
        Mcr { bits: 0 }
    }

    /// Interprets a raw register value, keeping all bits.
    pub fn from_bits_retain(bits: u32) -> (r: Mcr)
        ensures
            r.bits == bits,
    {
        Mcr { bits }
    }

    /// The raw bit pattern of this value.
    pub fn bits(self) -> (r: u32)
        ensures
            r == self.bits,
    {
        self.bits
    }

    /// True iff every flag bit set in `other` is also set in `self`.
    pub fn contains(self, other: Mcr) -> (r: bool)
        ensures
            r == (self.bits & other.bits == other.bits),
    {
        self.bits & other.bits == other.bits
    }

    /// The union of the flags of `self` and `other`.
    pub fn union(self, other: Mcr) -> (r: Mcr)
        ensures
            r.bits == (self.bits | other.bits),
    {
        Mcr { bits: self.bits | other.bits }
    }

    /// The flags of `self` with those of `other` removed.
    pub fn difference(self, other: Mcr) -> (r: Mcr)
        ensures
            r.bits == (self.bits & !other.bits),
    {
        Mcr { bits: self.bits & !other.bits }
    }
}

/// A line status register value.
#[derive(Clone, Copy, Debug, PartialEq, Eq, Structural)]
pub struct Lsr {
    pub bits: u32,
}

impl Lsr {
    /// The value with no flags set.
    pub fn empty() -> (r: Lsr)
        ensures
            r.bits == 0,
    {
        Lsr { bits: 0 }
    }

    /// Interprets a raw register value, keeping all bits.
    pub fn from_bits_retain(bits: u32) -> (r: Lsr)
        ensures
            r.bits == bits,
    {
        Lsr { bits }
    }

    /// The raw bit pattern of this value.
    pub fn bits(self) -> (r: u32)
        ensures
            r == self.bits,
    {
        self.bits
    }

    /// True iff every flag bit set in `other` is also set in `self`.
    pub fn contains(self, other: Lsr) -> (r: bool)
        ensures
            r == (self.bits & other.bits == other.bits),
    {
        self.bits & other.bits == other.bits
    }

    /// The union of the flags of `self` and `other`.
    pub fn union(self, other: Lsr) -> (r: Lsr)
        ensures
            r.bits == (self.bits | other.bits),
    {
        Lsr { bits: self.bits | other.bits }
    }

    /// The flags of `self` with those of `other` removed.
    pub fn difference(self, other: Lsr) -> (r: Lsr)
        ensures
            r.bits == (self.bits & !other.bits),
    {
        Lsr { bits: self.bits & !other.bits }
    }
}

/// A modem status register value.
#[derive(Clone, Copy, Debug, PartialEq, Eq, Structural)]
pub struct Msr {
    pub bits: u32,
}

impl Msr {
    /// The value with no flags set.
    pub fn empty() -> (r: Msr)
        ensures
            r.bits == 0,
    {
        Msr { bits: 0 }
    }

    /// Interprets a raw register value, keeping all bits.
    pub fn from_bits_retain(bits: u32) -> (r: Msr)
        ensures
            r.bits == bits,
    {
        Msr { bits }
    }

    /// The raw bit pattern of this value.
    pub fn bits(self) -> (r: u32)
        ensures
            r == self.bits,
    {
        self.bits
    }

    /// True iff every flag bit set in `other` is also set in `self`.
    pub fn contains(self, other: Msr) -> (r: bool)
        ensures
            r == (self.bits & other.bits == other.bits),
    {
        self.bits & other.bits == other.bits
    }

    /// The union of the flags of `self` and `other`.
    pub fn union(self, other: Msr) -> (r: Msr)
        ensures
            r.bits == (self.bits | other.bits),
    {
        Msr { bits: self.bits | other.bits }
    }

    /// The flags of `self` with those of `other` removed.
    pub fn difference(self, other: Msr) -> (r: Msr)
        ensures
            r.bits == (self.bits & !other.bits),
    {
        Msr { bits: self.bits & !other.bits }
    }
}

/// A UART status register value.
#[derive(Clone, Copy, Debug, PartialEq, Eq, Structural)]
pub struct Usr {
    pub bits: u32,
}

impl Usr {
    /// The value with no flags set.
    pub fn empty() -> (r: Usr)
        ensures
            r.bits == 0,
    {
        Usr { bits: 0 }
    }

    /// Interprets a raw register value, keeping all bits.
    pub fn from_bits_retain(bits: u32) -> (r: Usr)
        ensures
            r.bits == bits,
    {
        Usr { bits }
    }

    /// The raw bit pattern of this value.
    pub fn bits(self) -> (r: u32)
        ensures
            r == self.bits,
    {
        self.bits
    }

    /// True iff every flag bit set in `other` is also set in `self`.
    pub fn contains(self, other: Usr) -> (r: bool)
        ensures
            r == (self.bits & other.bits == other.bits),
    {
        self.bits & other.bits == other.bits
    }

    /// The union of the flags of `self` and `other`.
    pub fn union(self, other: Usr) -> (r: Usr)
        ensures
            r.bits == (self.bits | other.bits),
    {
        Usr { bits: self.bits | other.bits }
    }

    /// The flags of `self` with those of `other` removed.
    pub fn difference(self, other: Usr) -> (r: Usr)
        ensures
            r.bits == (self.bits & !other.bits),
    {
        Usr { bits: self.bits & !other.bits }
    }
}

/// A FIFO control register value.
#[derive(Clone, Copy, Debug, PartialEq, Eq, Structural)]
pub struct Fcr {
    pub bits: u32,
}

impl Fcr {
    /// The value with no flags set.
    pub fn empty() -> (r: Fcr)
        ensures
            r.bits == 0,
    {
        Fcr { bits: 0 }
    }

    /// Interprets a raw register value, keeping all bits.
    pub fn from_bits_retain(bits: u32) -> (r: Fcr)
        ensures
            r.bits == bits,
    {
        Fcr { bits }
    }

    /// The raw bit pattern of this value.
    pub fn bits(self) -> (r: u32)
        ensures
            r == self.bits,
    {
        self.bits
    }

    /// True iff every flag bit set in `other` is also set in `self`.
    pub fn contains(self, other: Fcr) -> (r: bool)
        ensures
            r == (self.bits & other.bits == other.bits),
    {
        self.bits & other.bits == other.bits
    }

    /// The union of the flags of `self` and `other`.
    pub fn union(self, other: Fcr) -> (r: Fcr)
        ensures
            r.bits == (self.bits | other.bits),
    {
        Fcr { bits: self.bits | other.bits }
    }

    /// The flags of `self` with those of `other` removed.
    pub fn difference(self, other: Fcr) -> (r: Fcr)
        ensures
            r.bits == (self.bits & !other.bits),
    {
        Fcr { bits: self.bits & !other.bits }
    }
}

/// Decomposing a line-control value into its named flags and its data-bit
/// field and recomposing them by union reproduces the original pattern,
/// for every value made only of defined bits.
pub proof fn lemma_lcr_round_trip(v: Lcr)
    requires
        v.bits & !LCR_ALL == 0,
    ensures
        flag_part(v.bits, LCR_DLAB) | flag_part(v.bits, LCR_BC) | flag_part(v.bits, LCR_EPS)
            | flag_part(v.bits, LCR_PEN) | flag_part(v.bits, LCR_STOP) | (v.bits & LCR_DLS_MASK)
            == v.bits,
{
    let b = v.bits;
    assert(b & !0xdfu32 == 0 ==> flag_part(b, 0x80) | flag_part(b, 0x40) | flag_part(b, 0x10)
        | flag_part(b, 0x08) | flag_part(b, 0x04) | (b & 0x03) == b) by (bit_vector);
}

/// Decomposing a modem-control value into its named flags and recomposing
/// them by union reproduces the original pattern, for every value made
/// only of defined bits.
pub proof fn lemma_mcr_round_trip(v: Mcr)
    requires
        v.bits & !MCR_ALL == 0,
    ensures
        flag_part(v.bits, MCR_SIRE) | flag_part(v.bits, MCR_AFCE) | flag_part(v.bits, MCR_LB)
            | flag_part(v.bits, MCR_OUT2) | flag_part(v.bits, MCR_OUT1) | flag_part(
            v.bits,
            MCR_RTS,
        ) | flag_part(v.bits, MCR_DTR) == v.bits,
{
    let b = v.bits;
    assert(b & !0x7fu32 == 0 ==> flag_part(b, 0x40) | flag_part(b, 0x20) | flag_part(b, 0x10)
        | flag_part(b, 0x08) | flag_part(b, 0x04) | flag_part(b, 0x02) | flag_part(b, 0x01)
        == b) by (bit_vector);
}

/// Decomposing a line-status value into its named flags and recomposing
/// them by union reproduces the original pattern, for every value made
/// only of defined bits.
pub proof fn lemma_lsr_round_trip(v: Lsr)
    requires
        v.bits & !LSR_ALL == 0,
    ensures
        flag_part(v.bits, LSR_RFE) | flag_part(v.bits, LSR_TEMT) | flag_part(v.bits, LSR_THRE)
            | flag_part(v.bits, LSR_BI) | flag_part(v.bits, LSR_FE) | flag_part(v.bits, LSR_PE)
            | flag_part(v.bits, LSR_OE) | flag_part(v.bits, LSR_DR) == v.bits,
{
    let b = v.bits;
    assert(b & !0xffu32 == 0 ==> flag_part(b, 0x80) | flag_part(b, 0x40) | flag_part(b, 0x20)
        | flag_part(b, 0x10) | flag_part(b, 0x08) | flag_part(b, 0x04) | flag_part(b, 0x02)
        | flag_part(b, 0x01) == b) by (bit_vector);
}

/// Decomposing a modem-status value into its named flags and recomposing
/// them by union reproduces the original pattern, for every value made
/// only of defined bits.
pub proof fn lemma_msr_round_trip(v: Msr)
    requires
        v.bits & !MSR_ALL == 0,
    ensures
        flag_part(v.bits, MSR_DCD) | flag_part(v.bits, MSR_RI) | flag_part(v.bits, MSR_DSR)
            | flag_part(v.bits, MSR_CTS) | flag_part(v.bits, MSR_DDCD) | flag_part(
            v.bits,
            MSR_TERI,
        ) | flag_part(v.bits, MSR_DDSR) | flag_part(v.bits, MSR_DCTS) == v.bits,
{
    let b = v.bits;
    assert(b & !0xffu32 == 0 ==> flag_part(b, 0x80) | flag_part(b, 0x40) | flag_part(b, 0x20)
        | flag_part(b, 0x10) | flag_part(b, 0x08) | flag_part(b, 0x04) | flag_part(b, 0x02)
        | flag_part(b, 0x01) == b) by (bit_vector);
}

/// Decomposing a UART-status value into its named flags and recomposing
/// them by union reproduces the original pattern, for every value made
/// only of defined bits.
pub proof fn lemma_usr_round_trip(v: Usr)
    requires
        v.bits & !USR_ALL == 0,
    ensures
        flag_part(v.bits, USR_RFF) | flag_part(v.bits, USR_RFNE) | flag_part(v.bits, USR_TFE)
            | flag_part(v.bits, USR_TFNF) | flag_part(v.bits, USR_BUSY) == v.bits,
{
    let b = v.bits;
    assert(b & !0x1fu32 == 0 ==> flag_part(b, 0x10) | flag_part(b, 0x08) | flag_part(b, 0x04)
        | flag_part(b, 0x02) | flag_part(b, 0x01) == b) by (bit_vector);
}

/// Decomposing a FIFO-control value into its named flags and its two
/// trigger fields and recomposing them by union reproduces the original
/// pattern, for every value made only of defined bits.
pub proof fn lemma_fcr_round_trip(v: Fcr)
    requires
        v.bits & !FCR_ALL == 0,
    ensures
        flag_part(v.bits, FCR_DMAM) | flag_part(v.bits, FCR_XFIFOR) | flag_part(
            v.bits,
            FCR_RFIFOR,
        ) | flag_part(v.bits, FCR_FIFOE) | (v.bits & FCR_RT_MASK) | (v.bits & FCR_TET_MASK)
            == v.bits,
{
    let b = v.bits;
    assert(b & !0xffu32 == 0 ==> flag_part(b, 0x08) | flag_part(b, 0x04) | flag_part(b, 0x02)
        | flag_part(b, 0x01) | (b & 0xc0) | (b & 0x30) == b) by (bit_vector);
}

} // verus!
