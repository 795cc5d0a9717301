//! Tests for the UART driver logic: divisor programming, the configure
//! write sequence, receive classification, transmit gating, and the
//! register flag types.

use dw_apb_uart::registers::{
    Fcr, Lcr, Lsr, Mcr, Msr, Usr, FCR_ALL, FCR_DMAM, FCR_FIFOE, FCR_RFIFOR, FCR_RT_MASK,
    FCR_TET_MASK, FCR_XFIFOR, LCR_ALL, LCR_BC, LCR_DLAB, LCR_DLS_8, LCR_DLS_MASK, LCR_EPS,
    LCR_PEN, LCR_STOP, LSR_ALL, LSR_BI, LSR_DR, LSR_FE, LSR_OE, LSR_PE, LSR_RFE, LSR_TEMT,
    LSR_THRE, MCR_AFCE, MCR_ALL, MCR_DTR, MCR_LB, MCR_OUT1, MCR_OUT2, MCR_RTS, MCR_SIRE,
    MSR_ALL, MSR_CTS, MSR_DCD, MSR_DCTS, MSR_DDCD, MSR_DDSR, MSR_DSR, MSR_RI, MSR_TERI,
    USR_ALL, USR_BUSY, USR_RFF, USR_RFNE, USR_TFE, USR_TFNF,
};
use dw_apb_uart::{
    baud_divisors, classify_line_status, configure_writes, is_busy, is_rx_fifo_empty,
    is_tx_fifo_empty, is_tx_fifo_full, poll_until, read_word_outcome, received_byte,
    write_word_step, ErrorClass, ReadStep, RegisterWrite, UartError, WaitCondition,
};

#[test]
fn divisors_exact_example() {
    // 48 MHz serial clock at 115200 baud.
    let d = baud_divisors(115_200, 48_000_000);
    assert_eq!(d.divisor, 26);
    assert_eq!(d.fractional, 0);
}

#[test]
fn divisors_exact_fractional() {
    // 100 kHz clock at 1000 baud: 100000 / 16000 = 6 remainder 4000,
    // and 4000 / 1000 = 4.
    let d = baud_divisors(1_000, 100_000);
    assert_eq!(d.divisor, 6);
    assert_eq!(d.fractional, 4);
}

#[test]
fn divisors_minimum_clock() {
    // The smallest supported clock for a baud rate gives divisor 1.
    let d = baud_divisors(115_200, 16 * 115_200);
    assert_eq!(d.divisor, 1);
    assert_eq!(d.fractional, 0);
}

#[test]
fn divisors_large_divisor_split() {
    // A divisor above 255 exercises the low/high byte split.
    let d = baud_divisors(300, 48_000_000);
    assert_eq!(d.divisor, 10_000);
    let w = configure_writes(300, 48_000_000);
    assert_eq!(w[2], RegisterWrite::DivisorLow(10_000 & 0xff));
    assert_eq!(w[3], RegisterWrite::DivisorHigh(10_000 >> 8));
    assert_eq!((10_000 & 0xff) | ((10_000 >> 8) << 8), 10_000u32);
}

#[test]
fn configure_sequence_in_order() {
    let w = configure_writes(115_200, 48_000_000);
    assert_eq!(w.len(), 6);
    assert_eq!(w[0], RegisterWrite::LineControl(Lcr::from_bits_retain(LCR_DLAB)));
    assert_eq!(w[1], RegisterWrite::FractionalDivisor(0));
    assert_eq!(w[2], RegisterWrite::DivisorLow(26));
    assert_eq!(w[3], RegisterWrite::DivisorHigh(0));
    assert_eq!(w[4], RegisterWrite::LineControl(Lcr::from_bits_retain(LCR_DLS_8)));
    assert_eq!(w[5], RegisterWrite::FifoControl(FCR_FIFOE));
}

#[test]
fn read_error_precedence_all_set() {
    // Break, framing, parity and overrun all set at once: break wins.
    let lsr = Lsr::from_bits_retain(LSR_BI | LSR_FE | LSR_PE | LSR_OE | LSR_DR);
    assert_eq!(classify_line_status(lsr), ReadStep::Fault(UartError::Break));
    assert_eq!(read_word_outcome(lsr, 0xab), Err(UartError::Break));
}

#[test]
fn read_error_precedence_chain() {
    let framing = Lsr::from_bits_retain(LSR_FE | LSR_PE | LSR_OE | LSR_DR);
    assert_eq!(read_word_outcome(framing, 0), Err(UartError::Framing));
    let parity = Lsr::from_bits_retain(LSR_PE | LSR_OE | LSR_DR);
    assert_eq!(read_word_outcome(parity, 0), Err(UartError::Parity));
    let overrun = Lsr::from_bits_retain(LSR_OE | LSR_DR);
    assert_eq!(read_word_outcome(overrun, 0), Err(UartError::Overrun));
}

#[test]
fn read_data_ready_returns_byte() {
    let lsr = Lsr::from_bits_retain(LSR_DR);
    assert_eq!(classify_line_status(lsr), ReadStep::DataReady);
    assert_eq!(read_word_outcome(lsr, 0x41), Ok(Some(0x41)));
    // Only the low byte of the data register is the received word.
    assert_eq!(received_byte(0x141), 0x41);
}

#[test]
fn read_no_flags_is_no_data() {
    let lsr = Lsr::from_bits_retain(0);
    assert_eq!(classify_line_status(lsr), ReadStep::NoData);
    assert_eq!(read_word_outcome(lsr, 0x41), Ok(None));
}

#[test]
fn read_transmit_flags_do_not_disturb() {
    // Transmit-side status bits carry no receive meaning.
    let lsr = Lsr::from_bits_retain(LSR_TEMT | LSR_THRE | LSR_RFE);
    assert_eq!(read_word_outcome(lsr, 0), Ok(None));
}

#[test]
fn write_word_waits_for_room() {
    // A simulated device: the TX FIFO stays full for two status reads,
    // then drains.  The byte must not be accepted while the full-FIFO
    // condition holds.
    let statuses = [
        Usr::from_bits_retain(USR_BUSY),
        Usr::from_bits_retain(USR_BUSY),
        Usr::from_bits_retain(USR_BUSY | USR_TFNF),
    ];
    let mut accepted: Vec<u32> = Vec::new();
    let mut polls = 0usize;
    for status in statuses {
        polls += 1;
        match write_word_step(status, 0x55) {
            None => {
                assert!(is_tx_fifo_full(status));
                assert!(accepted.is_empty());
            }
            Some(value) => {
                assert!(!is_tx_fifo_full(status));
                accepted.push(value);
                break;
            }
        }
    }
    assert_eq!(polls, 3);
    assert_eq!(accepted, vec![0x55]);

    // The abstract spin loop agrees: the wait ends at the first reading
    // with room in the FIFO and at no earlier one.
    assert_eq!(poll_until(WaitCondition::TxNotFull, &statuses.to_vec()), Some(2));
    // A FIFO that never drains is a spin that never ends.
    let stuck = vec![Usr::from_bits_retain(USR_BUSY); 4];
    assert_eq!(poll_until(WaitCondition::TxNotFull, &stuck), None);
}

#[test]
fn flush_waits_for_transmitter_empty() {
    // The transmit FIFO drains over three status reads; the flush must
    // not complete while the transmitter-empty flag is clear.
    let statuses = [
        Usr::from_bits_retain(USR_BUSY | USR_TFNF),
        Usr::from_bits_retain(USR_TFNF),
        Usr::from_bits_retain(USR_TFNF | USR_TFE),
    ];
    let mut completed_at = None;
    for (i, status) in statuses.iter().enumerate() {
        if is_tx_fifo_empty(*status) {
            completed_at = Some(i);
            break;
        }
    }
    assert_eq!(completed_at, Some(2));
    assert_eq!(poll_until(WaitCondition::TxEmpty, &statuses.to_vec()), Some(2));
    // And it completes immediately once the flag is already set.
    assert!(is_tx_fifo_empty(Usr::from_bits_retain(USR_TFE)));
    let already_empty = vec![Usr::from_bits_retain(USR_TFE | USR_TFNF)];
    assert_eq!(poll_until(WaitCondition::TxEmpty, &already_empty), Some(0));
}

#[test]
fn status_queries() {
    let idle = Usr::from_bits_retain(USR_TFNF | USR_TFE);
    assert!(!is_busy(idle));
    assert!(!is_tx_fifo_full(idle));
    assert!(is_tx_fifo_empty(idle));
    assert!(is_rx_fifo_empty(idle));

    let loaded = Usr::from_bits_retain(USR_BUSY | USR_RFNE | USR_RFF);
    assert!(is_busy(loaded));
    assert!(is_tx_fifo_full(loaded));
    assert!(!is_tx_fifo_empty(loaded));
    assert!(!is_rx_fifo_empty(loaded));
}

#[test]
fn error_kinds() {
    assert_eq!(UartError::Framing.kind(), ErrorClass::InvalidData);
    assert_eq!(UartError::Parity.kind(), ErrorClass::InvalidData);
    assert_eq!(UartError::Overrun.kind(), ErrorClass::Other);
    assert_eq!(UartError::Break.kind(), ErrorClass::Other);
}

#[test]
fn lsr_round_trip_all_patterns() {
    // Decomposing into named flags and recomposing by union reproduces
    // every pattern made of defined bits.
    let flags = [LSR_RFE, LSR_TEMT, LSR_THRE, LSR_BI, LSR_FE, LSR_PE, LSR_OE, LSR_DR];
    for bits in 0..=LSR_ALL {
        let v = Lsr::from_bits_retain(bits);
        let mut rebuilt = Lsr::empty();
        for mask in flags {
            if v.contains(Lsr::from_bits_retain(mask)) {
                rebuilt = rebuilt.union(Lsr::from_bits_retain(mask));
            }
        }
        assert_eq!(rebuilt.bits(), bits);
    }
}

#[test]
fn usr_round_trip_all_patterns() {
    let flags = [USR_RFF, USR_RFNE, USR_TFE, USR_TFNF, USR_BUSY];
    for bits in 0..=USR_ALL {
        let v = Usr::from_bits_retain(bits);
        let mut rebuilt = Usr::empty();
        for mask in flags {
            if v.contains(Usr::from_bits_retain(mask)) {
                rebuilt = rebuilt.union(Usr::from_bits_retain(mask));
            }
        }
        assert_eq!(rebuilt.bits(), bits);
    }
}

#[test]
fn mcr_round_trip_all_patterns() {
    let flags = [MCR_SIRE, MCR_AFCE, MCR_LB, MCR_OUT2, MCR_OUT1, MCR_RTS, MCR_DTR];
    for bits in 0..=MCR_ALL {
        let v = Mcr::from_bits_retain(bits);
        let mut rebuilt = Mcr::empty();
        for mask in flags {
            if v.contains(Mcr::from_bits_retain(mask)) {
                rebuilt = rebuilt.union(Mcr::from_bits_retain(mask));
            }
        }
        assert_eq!(rebuilt.bits(), bits);
    }
}

#[test]
fn msr_round_trip_all_patterns() {
    let flags = [MSR_DCD, MSR_RI, MSR_DSR, MSR_CTS, MSR_DDCD, MSR_TERI, MSR_DDSR, MSR_DCTS];
    for bits in 0..=MSR_ALL {
        let v = Msr::from_bits_retain(bits);
        let mut rebuilt = Msr::empty();
        for mask in flags {
            if v.contains(Msr::from_bits_retain(mask)) {
                rebuilt = rebuilt.union(Msr::from_bits_retain(mask));
            }
        }
        assert_eq!(rebuilt.bits(), bits);
    }
}

#[test]
fn lcr_round_trip_all_patterns() {
    // Single-bit flags recompose by union; the 2-bit data-bit field is
    // carried over as a field.
    let flags = [LCR_DLAB, LCR_BC, LCR_EPS, LCR_PEN, LCR_STOP];
    for bits in 0..=LCR_ALL {
        if bits & !LCR_ALL != 0 {
            continue;
        }
        let v = Lcr::from_bits_retain(bits);
        let mut rebuilt = Lcr::from_bits_retain(bits & LCR_DLS_MASK);
        for mask in flags {
            if v.contains(Lcr::from_bits_retain(mask)) {
                rebuilt = rebuilt.union(Lcr::from_bits_retain(mask));
            }
        }
        assert_eq!(rebuilt.bits(), bits);
    }
}

#[test]
fn configure_waits_until_not_busy() {
    let statuses = vec![
        Usr::from_bits_retain(USR_BUSY | USR_TFNF),
        Usr::from_bits_retain(USR_BUSY),
        Usr::from_bits_retain(USR_TFNF | USR_TFE),
    ];
    assert_eq!(poll_until(WaitCondition::NotBusy, &statuses), Some(2));
}

#[test]
fn fcr_round_trip_all_patterns() {
    let flags = [FCR_DMAM, FCR_XFIFOR, FCR_RFIFOR, FCR_FIFOE];
    for bits in 0..=FCR_ALL {
        let v = Fcr::from_bits_retain(bits);
        let mut rebuilt = Fcr::from_bits_retain(bits & (FCR_RT_MASK | FCR_TET_MASK));
        for mask in flags {
            if v.contains(Fcr::from_bits_retain(mask)) {
                rebuilt = rebuilt.union(Fcr::from_bits_retain(mask));
            }
        }
        assert_eq!(rebuilt.bits(), bits);
    }
}

#[test]
fn flag_operations() {
    let a = Lsr::from_bits_retain(LSR_BI | LSR_FE);
    assert!(a.contains(Lsr::from_bits_retain(LSR_BI)));
    assert!(a.contains(Lsr::from_bits_retain(LSR_BI | LSR_FE)));
    assert!(!a.contains(Lsr::from_bits_retain(LSR_PE)));
    assert!(!a.contains(Lsr::from_bits_retain(LSR_BI | LSR_PE)));
    assert_eq!(a.difference(Lsr::from_bits_retain(LSR_BI)).bits(), LSR_FE);
    assert_eq!(a.union(Lsr::from_bits_retain(LSR_PE)).bits(), LSR_BI | LSR_FE | LSR_PE);
    assert_eq!(Lsr::empty().bits(), 0);
    // Every value contains the empty set of flags.
    assert!(Lsr::empty().contains(Lsr::empty()));
    assert!(a.contains(Lsr::empty()));
}
