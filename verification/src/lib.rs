//! Driver logic for a Synopsys DesignWare DW_apb UART.
//!
//! The register map is described by the flag types in [`registers`].  The
//! functions here compute every decision the driver takes: the baud-rate
//! divisor programming sequence, transmit/receive readiness, and the
//! classification of a line-status value on receive.  The caller performs
//! the volatile reads and writes against the hardware registers and the
//! busy-spin loops around these decisions; each decision itself is a pure
//! function of the register values it is handed.

pub mod registers;

use vstd::prelude::*;

use crate::registers::{Lcr, Lsr, Usr, FCR_FIFOE, LCR_DLAB, LCR_DLS_8, LSR_BI, LSR_DR, LSR_FE,
    LSR_OE, LSR_PE, USR_BUSY, USR_RFNE, USR_TFE, USR_TFNF};

verus! {

/// A UART read error, one of the four receive-line fault conditions.
#[derive(Clone, Copy, Debug, PartialEq, Eq, Structural)]
pub enum UartError {
    /// A framing error was detected by the receiver.
    Framing,
    /// A parity error was detected by the receiver.
    Parity,
    /// The receive FIFO overflowed and data was lost.
    Overrun,
    /// A break sequence was detected.
    Break,
}

/// The broad class of a read error, for byte-stream adapters: a framing or
/// parity fault means the data itself is invalid, while an overrun or a
/// break is an unspecified device condition.
#[derive(Clone, Copy, Debug, PartialEq, Eq, Structural)]
pub enum ErrorClass {
    /// The received data is invalid (framing or parity fault).
    InvalidData,
    /// Some other device condition (overrun or break).
    Other,
}

impl UartError {
    /// Classifies this error for a byte-stream adapter.
    pub fn kind(self) -> (r: ErrorClass)
        ensures
            r == ErrorClass::InvalidData <==> (self == UartError::Framing || self
                == UartError::Parity),
            r == ErrorClass::Other <==> (self == UartError::Overrun || self == UartError::Break),
    {
        match self {
            UartError::Framing | UartError::Parity => ErrorClass::InvalidData,
            UartError::Overrun | UartError::Break => ErrorClass::Other,
        }
    }
}

/// True iff the UART-status busy flag is set.
pub open spec fn usr_busy(s: Usr) -> bool {
    s.bits & USR_BUSY == USR_BUSY
}

/// True iff the UART-status transmit-FIFO-not-full flag is set.
pub open spec fn usr_tx_not_full(s: Usr) -> bool {
    s.bits & USR_TFNF == USR_TFNF
}

/// True iff the UART-status transmit-FIFO-empty flag is set.
pub open spec fn usr_tx_empty(s: Usr) -> bool {
    s.bits & USR_TFE == USR_TFE
}

/// True iff the UART-status receive-FIFO-not-empty flag is set.
pub open spec fn usr_rx_not_empty(s: Usr) -> bool {
    s.bits & USR_RFNE == USR_RFNE
}

/// True iff the line-status break-interrupt flag is set.
pub open spec fn lsr_break_interrupt(s: Lsr) -> bool {
    s.bits & LSR_BI == LSR_BI
}

/// True iff the line-status framing-error flag is set.
pub open spec fn lsr_framing_error(s: Lsr) -> bool {
    s.bits & LSR_FE == LSR_FE
}

/// True iff the line-status parity-error flag is set.
pub open spec fn lsr_parity_error(s: Lsr) -> bool {
    s.bits & LSR_PE == LSR_PE
}

/// True iff the line-status overrun-error flag is set.
pub open spec fn lsr_overrun_error(s: Lsr) -> bool {
    s.bits & LSR_OE == LSR_OE
}

/// True iff the line-status data-ready flag is set.
pub open spec fn lsr_data_ready(s: Lsr) -> bool {
    s.bits & LSR_DR == LSR_DR
}

/// Returns whether a UART-status value shows the UART as busy.
///
/// `configure` must not touch the divisor latch while this holds.
pub fn is_busy(status: Usr) -> (r: bool)
    ensures
        r == usr_busy(status),
{
    status.contains(Usr { bits: USR_BUSY })
}

/// Returns whether a UART-status value shows the TX FIFO as full.
///
/// If this returns true, a write of the next byte must wait.
pub fn is_tx_fifo_full(status: Usr) -> (r: bool)
    ensures
        r == !usr_tx_not_full(status),
{
    !status.contains(Usr { bits: USR_TFNF })
}

/// Returns whether a UART-status value shows the TX FIFO as empty, that
/// is, whether every previously accepted byte has left the FIFO.
///
/// A flush is complete exactly when this returns true.
pub fn is_tx_fifo_empty(status: Usr) -> (r: bool)
    ensures
        r == usr_tx_empty(status),
{
    status.contains(Usr { bits: USR_TFE })
}

/// Returns whether a UART-status value shows the RX FIFO as empty.
///
/// If this returns true then a read will find no data.
pub fn is_rx_fifo_empty(status: Usr) -> (r: bool)
    ensures
        r == !usr_rx_not_empty(status),
{
    !status.contains(Usr { bits: USR_RFNE })
}

/// The integer and fractional parts of the baud-rate divisor.
#[derive(Clone, Copy, Debug, PartialEq, Eq, Structural)]
pub struct BaudDivisors {
    /// The integer divisor, `serial_clock / (16 * baud_rate)`.
    pub divisor: u32,
    /// The fractional part, `(serial_clock % (16 * baud_rate)) / baud_rate`.
    pub fractional: u32,
}

/// The integer baud-rate divisor, `serial_clock / (16 * baud_rate)`.
pub open spec fn spec_divisor(baud_rate: u32, serial_clock: u32) -> u32 {
    (serial_clock as int / (16 * baud_rate as int)) as u32
}

/// The fractional part of the baud-rate divisor,
/// `(serial_clock % (16 * baud_rate)) / baud_rate`.
pub open spec fn spec_fractional(baud_rate: u32, serial_clock: u32) -> u32 {
    ((serial_clock as int % (16 * baud_rate as int)) / baud_rate as int) as u32
}

/// Computes the baud-rate divisor for the given baud rate and serial
/// clock frequency, both in Hz.
pub fn baud_divisors(baud_rate: u32, serial_clock: u32) -> (r: BaudDivisors)
    requires
        baud_rate >= 1,
        16 * baud_rate <= serial_clock,
    ensures
        r.divisor == spec_divisor(baud_rate, serial_clock),
        r.fractional == spec_fractional(baud_rate, serial_clock),
{
    let divisor_x16: u32 = 16 * baud_rate;
    BaudDivisors {
        divisor: serial_clock / divisor_x16,
        fractional: (serial_clock % divisor_x16) / baud_rate,
    }
}

/// One register write of the line-configuration sequence.
#[derive(Clone, Copy, Debug, PartialEq, Eq, Structural)]
pub enum RegisterWrite {
    /// A write to the line control register.
    LineControl(Lcr),
    /// A write to the fractional divisor register.
    FractionalDivisor(u32),
    /// A write to the low byte of the integer divisor (the data register,
    /// while divisor latch access is enabled).
    DivisorLow(u32),
    /// A write to the high byte of the integer divisor (the interrupt
    /// enable register, while divisor latch access is enabled).
    DivisorHigh(u32),
    /// A write to the FIFO control register.
    FifoControl(u32),
}

/// Computes the full register-write sequence that configures the line for
/// the given baud rate with 8 data bits, no parity and 1 stop bit, and
/// enables both FIFOs.  The writes must be issued in order, and only once
/// the UART-status busy flag has been observed clear.
///
/// The sequence opens the divisor-latch-access window, programs the
/// fractional then the low then the high divisor byte, closes the window
/// again by selecting 8 data bits, and finally enables the FIFOs; the
/// divisor registers are only meaningful inside that window.
pub fn configure_writes(baud_rate: u32, serial_clock: u32) -> (w: Vec<RegisterWrite>)
    requires
        baud_rate >= 1,
        16 * baud_rate <= serial_clock,
    ensures
        w@.len() == 6,
        w@[0] == RegisterWrite::LineControl(Lcr { bits: LCR_DLAB }),
        w@[1] == RegisterWrite::FractionalDivisor(spec_fractional(baud_rate, serial_clock)),
        w@[2] == RegisterWrite::DivisorLow(spec_divisor(baud_rate, serial_clock) & 0xff),
        w@[3] == RegisterWrite::DivisorHigh(spec_divisor(baud_rate, serial_clock) >> 8),
        w@[4] == RegisterWrite::LineControl(Lcr { bits: LCR_DLS_8 }),
        w@[5] == RegisterWrite::FifoControl(FCR_FIFOE),
{
    let d = baud_divisors(baud_rate, serial_clock);
    let mut w: Vec<RegisterWrite> = Vec::new();
    w.push(RegisterWrite::LineControl(Lcr { bits: LCR_DLAB }));
    w.push(RegisterWrite::FractionalDivisor(d.fractional));
    w.push(RegisterWrite::DivisorLow(d.divisor & 0xff));
    w.push(RegisterWrite::DivisorHigh(d.divisor >> 8));
    w.push(RegisterWrite::LineControl(Lcr { bits: LCR_DLS_8 }));
    w.push(RegisterWrite::FifoControl(FCR_FIFOE));
    w
}

/// The decision taken on one line-status reading during a receive.
#[derive(Clone, Copy, Debug, PartialEq, Eq, Structural)]
pub enum ReadStep {
    /// A receive-line fault was observed; reading the line status has
    /// already cleared it in hardware, so it must be reported now.
    Fault(UartError),
    /// No fault and no data: the receive FIFO is empty.
    NoData,
    /// Data is ready: the received byte is in the data register.
    DataReady,
}

/// The decision the receive path takes on a line-status value, with the
/// mandatory precedence order: break before framing before parity before
/// overrun, and data-ready checked only when no fault bit is set.  A
/// single physical fault may set several of these bits at once, so the
/// order decides which one is reported.
pub open spec fn spec_read_step(s: Lsr) -> ReadStep {
    if lsr_break_interrupt(s) {
        ReadStep::Fault(UartError::Break)
    } else if lsr_framing_error(s) {
        ReadStep::Fault(UartError::Framing)
    } else if lsr_parity_error(s) {
        ReadStep::Fault(UartError::Parity)
    } else if lsr_overrun_error(s) {
        ReadStep::Fault(UartError::Overrun)
    } else if !lsr_data_ready(s) {
        ReadStep::NoData
    } else {
        ReadStep::DataReady
    }
}

/// Classifies one line-status reading per the precedence order of
/// [`spec_read_step`].
pub fn classify_line_status(status: Lsr) -> (r: ReadStep)
    ensures
        r == spec_read_step(status),
{
    if status.contains(Lsr { bits: LSR_BI }) {
        ReadStep::Fault(UartError::Break)
    } else if status.contains(Lsr { bits: LSR_FE }) {
        ReadStep::Fault(UartError::Framing)
    } else if status.contains(Lsr { bits: LSR_PE }) {
        ReadStep::Fault(UartError::Parity)
    } else if status.contains(Lsr { bits: LSR_OE }) {
        ReadStep::Fault(UartError::Overrun)
    } else if !status.contains(Lsr { bits: LSR_DR }) {
        ReadStep::NoData
    } else {
        ReadStep::DataReady
    }
}

/// The received byte held in the low eight bits of a data-register value.
pub fn received_byte(data: u32) -> (r: u8)
    ensures
        r == data & 0xff,
{
    proof {
        assert(data & 0xff < 256) by (bit_vector);
    }
    (data & 0xff) as u8
}

/// The outcome of one receive attempt, given the line-status value that
/// was read and the data-register value: a fault by the precedence order,
/// `Ok(None)` when no fault and no data, and the received byte when data
/// is ready.
pub fn read_word_outcome(status: Lsr, data: u32) -> (r: Result<Option<u8>, UartError>)
    ensures
        spec_read_step(status) matches ReadStep::Fault(e) ==> r == Result::<
            Option<u8>,
            UartError,
        >::Err(e),
        spec_read_step(status) == ReadStep::NoData ==> r == Result::<
            Option<u8>,
            UartError,
        >::Ok(None),
        spec_read_step(status) == ReadStep::DataReady ==> r == Result::<
            Option<u8>,
            UartError,
        >::Ok(Some((data & 0xff) as u8)),
{
    match classify_line_status(status) {
        ReadStep::Fault(e) => Err(e),
        ReadStep::NoData => Ok(None),
        ReadStep::DataReady => Ok(Some(received_byte(data))),
    }
}

/// A hardware condition that a busy-spin loop waits for.
#[derive(Clone, Copy, Debug, PartialEq, Eq, Structural)]
pub enum WaitCondition {
    /// The UART is no longer busy; `configure` waits for this before
    /// touching the divisor latch.
    NotBusy,
    /// The TX FIFO has room; a byte may be handed to the data register.
    TxNotFull,
    /// The TX FIFO is empty; a flush is complete.
    TxEmpty,
}

/// Whether a UART-status value satisfies a wait condition.
pub open spec fn condition_holds(c: WaitCondition, s: Usr) -> bool {
    match c {
        WaitCondition::NotBusy => !usr_busy(s),
        WaitCondition::TxNotFull => usr_tx_not_full(s),
        WaitCondition::TxEmpty => usr_tx_empty(s),
    }
}

/// The busy-spin wait, as a function of the trace of status values the
/// hardware hands back, one per poll: the number of polls spent before
/// the awaited condition first holds.  The wait ends at the first reading
/// that satisfies the condition and at no earlier one, and ends with the
/// very first poll when the condition already holds; a trace on which the
/// condition never holds is the hardware fault on which a spin loop never
/// returns, reported here as `None`.
pub fn poll_until(c: WaitCondition, statuses: &Vec<Usr>) -> (r: Option<usize>)
    ensures
        r matches Some(i) ==> i < statuses@.len() && condition_holds(c, statuses@[i as int])
            && (forall|j: int| 0 <= j < i ==> !condition_holds(c, statuses@[j])),
        r is None ==> forall|j: int|
            0 <= j < statuses@.len() ==> !condition_holds(c, statuses@[j]),
{
    let mut i: usize = 0;
    while i < statuses.len()
        invariant
            i <= statuses@.len(),
            forall|j: int| 0 <= j < i ==> !condition_holds(c, statuses@[j]),
        decreases statuses@.len() - i,
    {
        let s = statuses[i];
        let holds = match c {
            WaitCondition::NotBusy => !is_busy(s),
            WaitCondition::TxNotFull => !is_tx_fifo_full(s),
            WaitCondition::TxEmpty => is_tx_fifo_empty(s),
        };
        if holds {
            return Some(i);
        }
        i += 1;
    }
    None
}

/// Decides one step of the transmit path from a UART-status value: the
/// data-register value to write when the TX FIFO has room, and no write
/// at all while the FIFO is full.  A byte is therefore never handed to
/// the hardware, and never counts as accepted, while the full-FIFO
/// condition holds.
pub fn write_word_step(status: Usr, byte: u8) -> (r: Option<u32>)
    ensures
        r == if usr_tx_not_full(status) {
            Some(byte as u32)
        } else {
            None::<u32>
        },
{
    if is_tx_fifo_full(status) {
        None
    } else {
        Some(byte as u32)
    }
}

} // verus!
