//! The driver exercised end to end against the deterministic fake
//! peripheral.

use spi_driver::fake::FakeSpi;
use spi_driver::low_power::StopMode;
use spi_driver::spi::{DataSize, Spi, SpiInterrupt, FIFO_DEPTH, MAX_ITERS};
use spi_driver::status::{
    classify, FaultKind, StatusSnapshot, TransferError, UnsupportedInterrupt,
};

fn quiet_snapshot() -> StatusSnapshot {
    StatusSnapshot {
        mode_fault: false,
        crc_error: false,
        overrun: false,
        underrun: false,
        ti_frame_error: false,
        tx_complete: true,
        end_of_transaction: true,
        duplex_available: false,
        rx_not_empty: false,
        rx_fill_level: 0,
    }
}

fn echo_fake(mask: u8) -> FakeSpi {
    let mut fake = FakeSpi::new();
    fake.echo_mask = Some(mask);
    fake
}

#[test]
fn classify_reports_no_fault_on_quiet_status() {
    assert_eq!(classify(&quiet_snapshot()), None);
}

#[test]
fn classify_reports_each_fault_kind() {
    let mut s = quiet_snapshot();
    s.mode_fault = true;
    assert_eq!(classify(&s), Some(FaultKind::ModeFault));
    let mut s = quiet_snapshot();
    s.crc_error = true;
    assert_eq!(classify(&s), Some(FaultKind::CrcError));
    let mut s = quiet_snapshot();
    s.overrun = true;
    assert_eq!(classify(&s), Some(FaultKind::Overrun));
    let mut s = quiet_snapshot();
    s.underrun = true;
    assert_eq!(classify(&s), Some(FaultKind::Underrun));
    let mut s = quiet_snapshot();
    s.ti_frame_error = true;
    assert_eq!(classify(&s), Some(FaultKind::TiFrameError));
}

#[test]
fn classify_orders_faults_by_priority() {
    let mut s = quiet_snapshot();
    s.mode_fault = true;
    s.crc_error = true;
    s.overrun = true;
    assert_eq!(classify(&s), Some(FaultKind::ModeFault));

    let mut s = quiet_snapshot();
    s.crc_error = true;
    s.underrun = true;
    s.ti_frame_error = true;
    assert_eq!(classify(&s), Some(FaultKind::CrcError));

    let mut s = quiet_snapshot();
    s.underrun = true;
    s.ti_frame_error = true;
    assert_eq!(classify(&s), Some(FaultKind::Underrun));
}

#[test]
fn empty_write_succeeds_with_no_register_access() {
    let mut spi = Spi::new(FakeSpi::new());
    let words: Vec<u8> = vec![];
    assert_eq!(spi.write(&words), Ok(()));
    let fake = spi.release();
    assert_eq!(fake.tx_seen, Vec::<u8>::new());
    assert_eq!(fake.rx_given, Vec::<u8>::new());
    assert_eq!(fake.poll_count, 0);
    assert!(!fake.started);
}

#[test]
fn empty_transfer_succeeds_with_no_register_access() {
    let mut spi = Spi::new(FakeSpi::new());
    let mut words: Vec<u8> = vec![];
    assert_eq!(spi.transfer(&mut words), Ok(()));
    assert_eq!(words, Vec::<u8>::new());
    let fake = spi.release();
    assert_eq!(fake.tx_seen, Vec::<u8>::new());
    assert_eq!(fake.rx_given, Vec::<u8>::new());
    assert_eq!(fake.poll_count, 0);
}

#[test]
fn write_transmits_words_in_order() {
    let mut spi = Spi::new(echo_fake(0));
    let words: Vec<u8> = vec![1, 2, 3, 4, 5, 6];
    assert_eq!(spi.write(&words), Ok(()));
    let fake = spi.release();
    assert_eq!(fake.tx_seen, words);
    assert_eq!(fake.rx_given.len(), words.len());
    assert!(fake.started);
}

#[test]
fn write_handles_buffer_shorter_than_fifo() {
    let mut spi = Spi::new(echo_fake(0));
    let words: Vec<u8> = vec![7, 9];
    assert_eq!(spi.write(&words), Ok(()));
    let fake = spi.release();
    assert_eq!(fake.tx_seen, vec![7, 9]);
    assert_eq!(fake.rx_given.len(), 2);
}

#[test]
fn transfer_echoes_buffer_shorter_than_fifo() {
    let mut spi = Spi::new(echo_fake(0xFF));
    let mut words: Vec<u8> = vec![1, 2];
    assert_eq!(spi.transfer(&mut words), Ok(()));
    assert_eq!(words, vec![0xFE, 0xFD]);
    let fake = spi.release();
    assert_eq!(fake.tx_seen, vec![1, 2]);
    assert_eq!(fake.rx_given.len(), 2);
}

#[test]
fn transfer_echoes_buffer_of_exact_fifo_depth() {
    let mut spi = Spi::new(echo_fake(0x0F));
    let original: Vec<u8> = vec![0x10, 0x20, 0x30, 0x40];
    assert_eq!(original.len(), FIFO_DEPTH);
    let mut words = original.clone();
    assert_eq!(spi.transfer(&mut words), Ok(()));
    let expected: Vec<u8> = original.iter().map(|w| *w ^ 0x0F).collect();
    assert_eq!(words, expected);
    let fake = spi.release();
    assert_eq!(fake.tx_seen, original);
    assert_eq!(fake.rx_given.len(), original.len());
}

#[test]
fn transfer_echoes_buffer_longer_than_fifo() {
    let mut spi = Spi::new(echo_fake(0xFF));
    let original: Vec<u8> = vec![11, 22, 33, 44, 55, 66, 77];
    let mut words = original.clone();
    assert_eq!(spi.transfer(&mut words), Ok(()));
    let expected: Vec<u8> = original.iter().map(|w| !*w).collect();
    assert_eq!(words, expected);
    let fake = spi.release();
    assert_eq!(fake.tx_seen, original);
    assert_eq!(fake.rx_given.len(), original.len());
}

#[test]
fn latched_fault_preempts_write_before_any_word() {
    let mut fake = FakeSpi::new();
    fake.latched_fault = Some(FaultKind::Overrun);
    let mut spi = Spi::new(fake);
    let words: Vec<u8> = vec![1, 2, 3];
    assert_eq!(
        spi.write(&words),
        Err(TransferError::HardwareFault(FaultKind::Overrun))
    );
    let fake = spi.release();
    assert_eq!(fake.tx_seen, Vec::<u8>::new());
    assert_eq!(fake.rx_given, Vec::<u8>::new());
    assert_eq!(fake.poll_count, 1);
}

#[test]
fn latched_fault_preempts_transfer_before_any_word() {
    let mut fake = echo_fake(0);
    fake.latched_fault = Some(FaultKind::TiFrameError);
    let mut spi = Spi::new(fake);
    let mut words: Vec<u8> = vec![4, 5, 6, 7, 8];
    assert_eq!(
        spi.transfer(&mut words),
        Err(TransferError::HardwareFault(FaultKind::TiFrameError))
    );
    assert_eq!(words, vec![4, 5, 6, 7, 8]);
    let fake = spi.release();
    assert_eq!(fake.tx_seen, Vec::<u8>::new());
    assert_eq!(fake.rx_given, Vec::<u8>::new());
}

#[test]
fn exchange_times_out_after_exact_poll_bound() {
    let mut spi = Spi::new(FakeSpi::new());
    assert_eq!(spi.exchange_word(0x55), Err(TransferError::Timeout));
    let fake = spi.release();
    assert_eq!(fake.tx_seen, Vec::<u8>::new());
    assert_eq!(fake.poll_count, 1 + (MAX_ITERS as u64) * 10);
}

#[test]
fn receive_times_out_after_exact_poll_bound() {
    let mut spi = Spi::new(FakeSpi::new());
    assert_eq!(spi.receive_word(), Err(TransferError::Timeout));
    let fake = spi.release();
    assert_eq!(fake.rx_given, Vec::<u8>::new());
    assert_eq!(fake.poll_count, 1 + (MAX_ITERS as u64) * 10);
}

#[test]
fn silent_peripheral_times_out_write_after_priming() {
    let mut spi = Spi::new(FakeSpi::new());
    let words: Vec<u8> = vec![1, 2, 3, 4, 5, 6];
    assert_eq!(spi.write(&words), Err(TransferError::Timeout));
    let fake = spi.release();
    assert_eq!(fake.tx_seen, vec![1, 2, 3, 4]);
    assert_eq!(fake.rx_given, Vec::<u8>::new());
}

#[test]
fn silent_peripheral_times_out_write_in_drain_phase() {
    let mut spi = Spi::new(FakeSpi::new());
    let words: Vec<u8> = vec![7, 8];
    assert_eq!(spi.write(&words), Err(TransferError::Timeout));
    let fake = spi.release();
    assert_eq!(fake.tx_seen, vec![7, 8]);
    assert_eq!(fake.rx_given, Vec::<u8>::new());
}

#[test]
fn silent_peripheral_times_out_transfer_and_leaves_buffer() {
    let mut spi = Spi::new(FakeSpi::new());
    let mut words: Vec<u8> = vec![1, 2, 3, 4, 5, 6];
    assert_eq!(spi.transfer(&mut words), Err(TransferError::Timeout));
    assert_eq!(words, vec![1, 2, 3, 4, 5, 6]);
    let fake = spi.release();
    assert_eq!(fake.tx_seen, vec![1, 2, 3, 4]);
}

#[test]
fn send_then_exchange_returns_first_response() {
    let mut spi = Spi::new(echo_fake(0));
    assert_eq!(spi.send_word(0xAB), Ok(()));
    assert_eq!(spi.exchange_word(0xCD), Ok(0xAB));
    let fake = spi.release();
    assert_eq!(fake.tx_seen, vec![0xAB, 0xCD]);
    assert!(fake.started);
}

#[test]
fn send_then_receive_drains_response() {
    let mut spi = Spi::new(echo_fake(0x01));
    assert_eq!(spi.send_word(0x10), Ok(()));
    assert_eq!(spi.receive_word(), Ok(0x11));
    let fake = spi.release();
    assert_eq!(fake.rx_given, vec![0x11]);
}

#[test]
fn disable_discards_each_stale_word_then_clears_enable() {
    let mut fake = FakeSpi::new();
    fake.rx_queue = vec![9, 8, 7];
    let mut spi = Spi::new(fake);
    spi.disable();
    let fake = spi.release();
    assert_eq!(fake.rx_given, vec![9, 8, 7]);
    assert_eq!(fake.rx_queue, Vec::<u8>::new());
    assert!(!fake.enabled);
    assert_eq!(fake.tx_seen, Vec::<u8>::new());
}

#[test]
fn disable_with_empty_fifo_discards_nothing() {
    let mut spi = Spi::new(FakeSpi::new());
    spi.disable();
    let fake = spi.release();
    assert_eq!(fake.rx_given, Vec::<u8>::new());
    assert!(!fake.enabled);
    assert_eq!(fake.poll_count, 1);
}

#[test]
fn disable_waits_for_completion_flags() {
    let mut fake = FakeSpi::new();
    fake.txc_countdown = 3;
    fake.eot_countdown = 5;
    fake.rx_queue = vec![0xEE];
    let mut spi = Spi::new(fake);
    spi.disable();
    let fake = spi.release();
    assert_eq!(fake.rx_given, vec![0xEE]);
    assert!(!fake.enabled);
}

#[test]
fn enable_interrupt_sets_the_mapped_bit() {
    let mut spi = Spi::new(FakeSpi::new());
    assert_eq!(
        spi.enable_interrupt(SpiInterrupt::NumberOfTransactionsReload),
        Ok(())
    );
    assert_eq!(spi.enable_interrupt(SpiInterrupt::ModeFault), Ok(()));
    assert_eq!(spi.enable_interrupt(SpiInterrupt::Tifre), Ok(()));
    assert_eq!(spi.enable_interrupt(SpiInterrupt::CrcError), Ok(()));
    assert_eq!(spi.enable_interrupt(SpiInterrupt::Overrun), Ok(()));
    assert_eq!(spi.enable_interrupt(SpiInterrupt::Underrun), Ok(()));
    assert_eq!(spi.enable_interrupt(SpiInterrupt::Txtfie), Ok(()));
    assert_eq!(spi.enable_interrupt(SpiInterrupt::EotSuspTxc), Ok(()));
    let fake = spi.release();
    assert_eq!(fake.ier_log, vec![10, 9, 8, 7, 6, 5, 4, 3]);
    assert_eq!(fake.ifcr_log, Vec::<u8>::new());
}

#[test]
fn enable_interrupt_rejects_unmapped_kinds() {
    let mut spi = Spi::new(FakeSpi::new());
    assert_eq!(
        spi.enable_interrupt(SpiInterrupt::Dxp),
        Err(UnsupportedInterrupt)
    );
    assert_eq!(
        spi.enable_interrupt(SpiInterrupt::Txp),
        Err(UnsupportedInterrupt)
    );
    assert_eq!(
        spi.enable_interrupt(SpiInterrupt::Rxp),
        Err(UnsupportedInterrupt)
    );
    let fake = spi.release();
    assert_eq!(fake.ier_log, Vec::<u8>::new());
}

#[test]
fn clear_interrupt_writes_the_mapped_bit() {
    let mut spi = Spi::new(FakeSpi::new());
    assert_eq!(spi.clear_interrupt(SpiInterrupt::EotSuspTxc), Ok(()));
    assert_eq!(spi.clear_interrupt(SpiInterrupt::Overrun), Ok(()));
    let fake = spi.release();
    assert_eq!(fake.ifcr_log, vec![3, 6]);
    assert_eq!(fake.ier_log, Vec::<u8>::new());
}

#[test]
fn clear_interrupt_rejects_unmapped_kinds() {
    let mut spi = Spi::new(FakeSpi::new());
    assert_eq!(
        spi.clear_interrupt(SpiInterrupt::Dxp),
        Err(UnsupportedInterrupt)
    );
    assert_eq!(
        spi.clear_interrupt(SpiInterrupt::Rxp),
        Err(UnsupportedInterrupt)
    );
    let fake = spi.release();
    assert_eq!(fake.ifcr_log, Vec::<u8>::new());
}

#[test]
fn data_size_encodes_one_less_than_frame_bits() {
    assert_eq!(DataSize::D4.bits(), 3);
    assert_eq!(DataSize::D8.bits(), 7);
    assert_eq!(DataSize::D16.bits(), 15);
    assert_eq!(DataSize::D32.bits(), 31);
}

#[test]
fn stop_mode_encodes_its_register_value() {
    assert_eq!(StopMode::Zero.bits(), 0);
    assert_eq!(StopMode::One.bits(), 1);
    assert_eq!(StopMode::Two.bits(), 2);
}

#[test]
fn write_handles_buffer_of_exact_fifo_depth() {
    let mut spi = Spi::new(echo_fake(0));
    let words: Vec<u8> = vec![5, 6, 7, 8];
    assert_eq!(words.len(), FIFO_DEPTH);
    assert_eq!(spi.write(&words), Ok(()));
    let fake = spi.release();
    assert_eq!(fake.tx_seen, vec![5, 6, 7, 8]);
    assert_eq!(fake.rx_given.len(), FIFO_DEPTH);
}

#[test]
fn latched_fault_preempts_send_word() {
    let mut fake = FakeSpi::new();
    fake.latched_fault = Some(FaultKind::ModeFault);
    let mut spi = Spi::new(fake);
    assert_eq!(
        spi.send_word(0x42),
        Err(TransferError::HardwareFault(FaultKind::ModeFault))
    );
    let fake = spi.release();
    assert_eq!(fake.tx_seen, Vec::<u8>::new());
    assert!(!fake.started);
}

#[test]
fn latched_fault_preempts_exchange_without_polling() {
    let mut fake = echo_fake(0);
    fake.latched_fault = Some(FaultKind::Underrun);
    let mut spi = Spi::new(fake);
    assert_eq!(
        spi.exchange_word(0x42),
        Err(TransferError::HardwareFault(FaultKind::Underrun))
    );
    let fake = spi.release();
    assert_eq!(fake.tx_seen, Vec::<u8>::new());
    assert_eq!(fake.poll_count, 1);
}

#[test]
fn latched_fault_preempts_receive_without_polling() {
    let mut fake = FakeSpi::new();
    fake.rx_queue = vec![1];
    fake.latched_fault = Some(FaultKind::CrcError);
    let mut spi = Spi::new(fake);
    assert_eq!(
        spi.receive_word(),
        Err(TransferError::HardwareFault(FaultKind::CrcError))
    );
    let fake = spi.release();
    assert_eq!(fake.rx_given, Vec::<u8>::new());
    assert_eq!(fake.poll_count, 1);
}
